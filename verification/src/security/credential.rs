//! How a stored record lets its owner log in: with a password of its own,
//! or at the directory.

use crate::security::hashing::{matches_hash, verify_secret};
use vstd::prelude::*;
use vstd::string::*;

verus! {

/// What a record holds to check a login against.
#[derive(Debug)]
pub enum LocalCredential {
    /// The hash of the record's own password.
    Password(String),
    /// Nothing: the record stands for a member of the directory.
    DirectoryBacked,
}

/// What becomes of a login.
#[derive(Debug, PartialEq, Eq, Structural, Clone, Copy)]
pub enum LoginDecision {
    /// The login is good.
    Accepted,
    /// The login is refused.
    Rejected,
    /// The directory has to check the login; see
    /// [`crate::ldap::ldap::LdapConnection::simple_authentication`].
    AskDirectory,
}

impl LocalCredential {
    /// Whether the credential is that of a record whose password field
    /// reads `password`: an empty field means a member of the directory.
    pub open spec fn is_of(self, password: Seq<char>) -> bool {
        if password.len() == 0 {
            self is DirectoryBacked
        } else {
            self matches LocalCredential::Password(hash) && hash@ == password
        }
    }

    /// Whether the credential is that of a record whose password field is
    /// `password`: an absent field means a member of the directory.
    pub open spec fn is_of_optional(self, password: Option<String>) -> bool {
        match password {
            Some(stored) => self matches LocalCredential::Password(hash) && hash@ == stored@,
            None => self is DirectoryBacked,
        }
    }

    /// What becomes of a login with the password `presented`. A record with
    /// a password of its own accepts the password that its hash was made
    /// from and nothing else. A record that stands for a member of the
    /// directory never accepts a password itself: the login goes to the
    /// directory, and is refused where none is set up.
    pub open spec fn decided(self, presented: Seq<char>, directory: bool) -> LoginDecision {
        match self {
            LocalCredential::Password(hash) => if matches_hash(presented, hash@) {
                LoginDecision::Accepted
            } else {
                LoginDecision::Rejected
            },
            LocalCredential::DirectoryBacked => if directory {
                LoginDecision::AskDirectory
            } else {
                LoginDecision::Rejected
            },
        }
    }

    /// The credential of a record whose password field reads `password`.
    pub fn from_password(password: &str) -> (credential: Self)
        ensures
            credential.is_of(password@),
    {
        if password.unicode_len() == 0 {
            LocalCredential::DirectoryBacked
        } else {
            LocalCredential::Password(String::from_str(password))
        }
    }

    /// The credential of a record whose password field is `password`.
    pub fn from_optional(password: &Option<String>) -> (credential: Self)
        ensures
            credential.is_of_optional(*password),
    {
        match password {
            Some(stored) => LocalCredential::Password(stored.clone()),
            None => LocalCredential::DirectoryBacked,
        }
    }

    /// Decides on a login with the password `presented`; `directory` says
    /// whether a directory is set up.
    pub fn decide(&self, presented: &str, directory: bool) -> (decision: LoginDecision)
        ensures
            decision == self.decided(presented@, directory),
    {
        match self {
            LocalCredential::Password(hash) => {
                if verify_secret(presented, hash.as_str()) {
                    LoginDecision::Accepted
                } else {
                    LoginDecision::Rejected
                }
            },
            LocalCredential::DirectoryBacked => {
                if directory {
                    LoginDecision::AskDirectory
                } else {
                    LoginDecision::Rejected
                }
            },
        }
    }
}

/// What becomes of a login that went to the directory, once the directory
/// has found it good or not.
pub fn directory_verdict(granted: bool) -> (decision: LoginDecision)
    ensures
        decision == if granted {
            LoginDecision::Accepted
        } else {
            LoginDecision::Rejected
        },
{
    if granted {
        LoginDecision::Accepted
    } else {
        LoginDecision::Rejected
    }
}

/// A record that stands for a member of the directory never accepts a
/// login on a password of its own, whatever is presented.
pub proof fn lemma_directory_backed_never_accepts(presented: Seq<char>, directory: bool)
    ensures
        LocalCredential::DirectoryBacked.decided(presented, directory) != LoginDecision::Accepted,
        forall|c: LocalCredential| #[trigger]
            c.is_of(Seq::<char>::empty()) ==> c.decided(presented, directory)
                != LoginDecision::Accepted,
        forall|c: LocalCredential| #[trigger]
            c.is_of_optional(None) ==> c.decided(presented, directory) != LoginDecision::Accepted,
{
}

} // verus!
