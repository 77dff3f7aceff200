//! Administrators of the portal.

use super::Entity;
use crate::ldap::ldap::LdapUser;
use crate::utils::membership::LocalAccount;
use vstd::prelude::*;
use vstd::string::*;

verus! {

#[derive(Debug)]
pub struct AdminLogin {
    pub username: String,
    pub password: String,
}

/// An administrator. Without a password the record stands for a member of
/// the directory, who logs in there.
#[derive(Debug)]
pub struct Admin {
    pub id: String,
    pub name: String,
    pub username: String,
    pub password: Option<String>,
}

#[derive(Debug)]
pub struct AdminData {
    pub name: String,
    pub username: String,
    pub password: Option<String>,
}

#[derive(Debug)]
pub struct AdminToken {
    pub token: String,
}

impl Admin {
    /// Whether the record holds no password of its own.
    pub open spec fn directory_backed(self) -> bool {
        self.password is None
    }

    /// Whether the record holds no password of its own.
    pub fn is_directory_backed(&self) -> (b: bool)
        ensures
            b == self.directory_backed(),
    {
        self.password.is_none()
    }

    /// What the comparison with the directory reads of the record.
    pub open spec fn as_account(self) -> LocalAccount {
        LocalAccount {
            id: self.id,
            username: self.username,
            directory_backed: self.directory_backed(),
        }
    }

    /// What the comparison with the directory reads of the record.
    pub fn account(&self) -> (account: LocalAccount)
        ensures
            account == self.as_account(),
    {
        LocalAccount {
            id: self.id.clone(),
            username: self.username.clone(),
            directory_backed: self.is_directory_backed(),
        }
    }

    /// Whether the record is the one that a directory member starts with.
    pub open spec fn is_for(self, member: LdapUser) -> bool {
        &&& self.id@.len() == 0
        &&& self.name == member.name
        &&& self.username == member.username
        &&& self.password is None
    }

    /// The record of a directory member: not yet stored, without a password.
    pub fn new_with_ldap_user(ldpa_user: &LdapUser) -> (admin: Self)
        ensures
            admin.is_for(*ldpa_user),
            admin.directory_backed(),
    {
        Self {
            id: String::new(),
            name: ldpa_user.name.clone(),
            username: ldpa_user.username.clone(),
            password: None,
        }
    }
}

impl Entity<String> for Admin {
    open spec fn id_of(&self) -> String {
        self.id
    }

    open spec fn with_id(self, id: String) -> Self {
        Admin { id, ..self }
    }

    open spec fn collection_name() -> Seq<char> {
        "Admins"@
    }

    fn get_id(&self) -> (id: String) {
        self.id.clone()
    }

    fn set_id(&mut self, new_id: String) {
        self.id = new_id;
    }

    fn get_name() -> (name: String) {
        String::from_str("Admins")
    }
}

} // verus!
