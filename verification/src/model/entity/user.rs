//! Users who connect their own devices.

use super::client::ClientData;
use super::Entity;
use crate::ldap::ldap::LdapUser;
use crate::utils::membership::LocalAccount;
use vstd::prelude::*;
use vstd::string::*;

verus! {

/// A user. With an empty password the record stands for a member of the
/// directory, who logs in there. `data` is what an access record of the
/// user's device starts from.
#[derive(Debug)]
pub struct User {
    pub id: String,
    pub username: String,
    pub password: String,
    pub email: String,
    pub data: ClientData,
}

#[derive(Debug)]
pub struct UserLogin {
    pub username: String,
    pub password: String,
}

#[derive(Debug)]
pub struct UserUpdate {
    pub password: Option<String>,
    pub email: Option<String>,
    pub data: Option<ClientData>,
}

impl User {
    /// Whether the record holds no password of its own.
    pub open spec fn directory_backed(self) -> bool {
        self.password@.len() == 0
    }

    /// Whether the record holds no password of its own.
    pub fn is_directory_backed(&self) -> (b: bool)
        ensures
            b == self.directory_backed(),
    {
        self.password.as_str().unicode_len() == 0
    }

    /// What the comparison with the directory reads of the record.
    pub open spec fn as_account(self) -> LocalAccount {
        LocalAccount {
            id: self.id,
            username: self.username,
            directory_backed: self.directory_backed(),
        }
    }

    /// What the comparison with the directory reads of the record.
    pub fn account(&self) -> (account: LocalAccount)
        ensures
            account == self.as_account(),
    {
        LocalAccount {
            id: self.id.clone(),
            username: self.username.clone(),
            directory_backed: self.is_directory_backed(),
        }
    }

    /// Whether the record is the one that a directory member starts with:
    /// not yet stored, without a password, with the member's name and
    /// address in its profile.
    pub open spec fn is_for(self, member: LdapUser) -> bool {
        &&& self.id@.len() == 0
        &&& self.username == member.username
        &&& self.email == member.email
        &&& self.directory_backed()
        &&& self.data.full_name == member.name
        &&& self.data.email == member.email
        &&& self.data.phone@.len() == 0
        &&& self.data.fields@.len() == 0
        &&& self.data.approver_code is None
    }

    /// The record of a directory member.
    pub fn new_with_ldap_user(ldap_user: &LdapUser) -> (user: Self)
        ensures
            user.is_for(*ldap_user),
    {
        let data = ClientData {
            full_name: ldap_user.name.clone(),
            email: ldap_user.email.clone(),
            phone: String::new(),
            fields: Vec::new(),
            approver_code: None,
        };
        Self {
            id: String::new(),
            username: ldap_user.username.clone(),
            email: ldap_user.email.clone(),
            password: String::new(),
            data,
        }
    }
}

impl Entity<String> for User {
    open spec fn id_of(&self) -> String {
        self.id
    }

    open spec fn with_id(self, id: String) -> Self {
        User { id, ..self }
    }

    open spec fn collection_name() -> Seq<char> {
        "Users"@
    }

    fn get_name() -> (name: String) {
        String::from_str("Users")
    }

    fn get_id(&self) -> (id: String) {
        self.id.clone()
    }

    fn set_id(&mut self, new_id: String) {
        self.id = new_id
    }
}

} // verus!
