//! Approvers and the validity of their codes.

use super::Entity;
use crate::ldap::ldap::LdapUser;
use crate::utils::membership::LocalAccount;
use crate::utils::clock::{midnight_days_ahead, Timestamp, MAX_DAYS};
use crate::utils::text::same_text;
use vstd::prelude::*;
use vstd::string::*;

verus! {

/// Somebody who may let others onto the network by handing out an approval
/// code. The record holds the code in hashed form only. With an empty
/// password the record stands for a member of the directory, who logs in
/// there.
#[derive(Debug)]
pub struct Approver {
    pub id: String,
    pub username: String,
    pub email: String,
    pub password: String,
    /// The current approval code, hashed.
    pub secret_code: String,
    /// The kinds of access that this approver may grant.
    pub approved_types: Vec<String>,
    /// The moment before which the code is good; `None` for a code without
    /// end.
    pub validity: Option<Timestamp>,
}

#[derive(Debug)]
pub struct ApproverData {
    pub username: String,
    pub email: String,
    pub password: String,
    pub secret_code: String,
}

#[derive(Debug)]
pub struct ApproverLogin {
    pub username: String,
    pub password: String,
}

/// A freshly issued code in plain text, with the days for which it is good.
#[derive(Debug)]
pub struct ApproverCode {
    pub new_code: String,
    pub days: Option<usize>,
}

#[derive(Debug)]
pub struct ApproverUpdate {
    pub email: Option<String>,
    pub password: Option<String>,
    pub secret_code: Option<String>,
}

/// The validity of a code issued at `now` for `days` days: none for 0 days,
/// else midnight at the start of the day `days` days after `now`.
pub open spec fn validity_for(days: int, now: Timestamp) -> Option<Timestamp> {
    if days == 0 {
        None
    } else {
        Some(Timestamp { secs: midnight_days_ahead(now.secs as int, days) as i64 })
    }
}

/// Whether `scope` is among `types`.
pub open spec fn holds_type(types: Seq<String>, scope: Seq<char>) -> bool {
    exists|i: int| 0 <= i < types.len() && types[i]@ == scope
}

impl Approver {
    /// Whether the record holds no password of its own.
    pub open spec fn directory_backed(self) -> bool {
        self.password@.len() == 0
    }

    /// Whether the code is good at `now`: it has no end, or its end lies
    /// strictly after `now`.
    pub open spec fn usable_at(self, now: Timestamp) -> bool {
        match self.validity {
            Some(end) => end.secs > now.secs,
            None => true,
        }
    }

    /// Whether the approver may grant access of the kind `scope`.
    pub open spec fn has_scope(self, scope: Seq<char>) -> bool {
        holds_type(self.approved_types@, scope)
    }

    /// Whether the approver may grant what is asked for: any approver may
    /// where no kind of access is named.
    pub open spec fn covers(self, scope: Option<Seq<char>>) -> bool {
        match scope {
            Some(s) => self.has_scope(s),
            None => true,
        }
    }

    /// Whether the record holds no password of its own.
    pub fn is_directory_backed(&self) -> (b: bool)
        ensures
            b == self.directory_backed(),
    {
        self.password.as_str().unicode_len() == 0
    }

    /// Whether the code is good at `now`.
    pub fn is_usable_at(&self, now: Timestamp) -> (b: bool)
        ensures
            b == self.usable_at(now),
    {
        match self.validity {
            Some(end) => end.is_after(&now),
            None => true,
        }
    }

    /// Whether the approver may grant access of the kind `scope`.
    pub fn allows(&self, scope: &str) -> (b: bool)
        ensures
            b == self.has_scope(scope@),
    {
        let mut i: usize = 0;
        while i < self.approved_types.len()
            invariant
                i <= self.approved_types.len(),
                forall|j: int| 0 <= j < i ==> self.approved_types@[j]@ != scope@,
            decreases self.approved_types.len() - i,
        {
            if same_text(self.approved_types[i].as_str(), scope) {
                return true;
            }
            i += 1;
        }
        false
    }

    /// Sets the validity of a code issued at `now` for `days` days: 0 days
    /// clears it, any other number sets it to midnight at the start of the
    /// day `days` days after `now`.
    pub fn create_validity_at(&mut self, days: i64, now: Timestamp)
        requires
            now.in_clock_range(),
            -MAX_DAYS <= days <= MAX_DAYS,
        ensures
            *final(self) == (Approver { validity: validity_for(days as int, now), ..*old(self) }),
    {
        if days == 0 {
            self.validity = None;
            return;
        }
        self.validity = Some(now.days_ahead(days));
    }

    /// Sets the validity of a code issued at the present moment for `days`
    /// days.
    pub fn create_validity(&mut self, days: i64)
        requires
            -MAX_DAYS <= days <= MAX_DAYS,
        ensures
            exists|now: Timestamp|
                now.in_clock_range() && *final(self) == (Approver {
                    validity: validity_for(days as int, now),
                    ..*old(self)
                }),
            days == 0 <==> final(self).validity is None,
    {
        let now: Timestamp = Timestamp::now();
        self.create_validity_at(days, now);
    }

    /// What the comparison with the directory reads of the record.
    pub open spec fn as_account(self) -> LocalAccount {
        LocalAccount {
            id: self.id,
            username: self.username,
            directory_backed: self.directory_backed(),
        }
    }

    /// What the comparison with the directory reads of the record.
    pub fn account(&self) -> (account: LocalAccount)
        ensures
            account == self.as_account(),
    {
        LocalAccount {
            id: self.id.clone(),
            username: self.username.clone(),
            directory_backed: self.is_directory_backed(),
        }
    }

    /// Whether the record is the one that a directory member starts with:
    /// not yet stored, without a password, without a code and without any
    /// kind of access to grant.
    pub open spec fn is_for(self, member: LdapUser) -> bool {
        &&& self.id@.len() == 0
        &&& self.username == member.username
        &&& self.email == member.email
        &&& self.directory_backed()
        &&& self.secret_code@.len() == 0
        &&& self.approved_types@.len() == 0
        &&& self.validity is None
    }

    /// The record of a directory member.
    pub fn new_wiht_ldap_user(ldap_user: &LdapUser) -> (approver: Self)
        ensures
            approver.is_for(*ldap_user),
    {
        Self {
            id: String::new(),
            username: ldap_user.username.clone(),
            email: ldap_user.email.clone(),
            password: String::new(),
            secret_code: String::new(),
            approved_types: Vec::new(),
            validity: None,
        }
    }
}

impl ApproverCode {
    /// The code `code`, good for `days` days.
    pub fn new(code: String, days: usize) -> (issued: Self)
        ensures
            issued.new_code == code,
            issued.days == Some(days),
    {
        Self { new_code: code, days: Some(days) }
    }
}

impl Entity<String> for Approver {
    open spec fn id_of(&self) -> String {
        self.id
    }

    open spec fn with_id(self, id: String) -> Self {
        Approver { id, ..self }
    }

    open spec fn collection_name() -> Seq<char> {
        "Approvers"@
    }

    fn get_id(&self) -> (id: String) {
        self.id.clone()
    }

    fn set_id(&mut self, new_id: String) {
        self.id = new_id;
    }

    fn get_name() -> (name: String) {
        String::from_str("Approvers")
    }
}

} // verus!
