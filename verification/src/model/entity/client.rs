//! Access records and their lifecycle.

use super::Entity;
use crate::configurations::config::ClientsConfig;
use crate::utils::clock::Timestamp;
use crate::utils::validator::Validator;
use vstd::prelude::*;
use vstd::string::*;

verus! {

/// Where an access record stands. A record starts as `Pending` and becomes
/// `Approved` or `Reject`; an approved record becomes `Expired` when the
/// controller says that the device's authorization has ended. `Reject` and
/// `Expired` are final.
#[derive(Debug, PartialEq, Eq, Structural, Clone, Copy)]
pub enum ClientStatus {
    Approved,
    Pending,
    Reject,
    Expired,
}

/// Why a record could not change its status.
#[derive(Debug, PartialEq, Eq, Structural, Clone, Copy)]
pub enum TransitionError {
    /// The lifecycle has no step from the first status to the second.
    NotAllowed { from: ClientStatus, to: ClientStatus },
    /// An approval names nobody.
    MissingApprover,
}

/// What a person enters to ask for access.
#[derive(Debug, Clone)]
pub struct ClientData {
    pub full_name: String,
    pub email: String,
    pub phone: String,
    pub approver_code: Option<String>,
    /// Further fields by name; no name occurs twice.
    pub fields: Vec<(String, String)>,
}

/// An administrator's decision on a device: on the stored record `id`, or on
/// a device that has no record yet.
#[derive(Debug, Clone)]
pub struct ClientInfo {
    pub id: Option<String>,
    pub data: Option<ClientData>,
    pub mac: String,
    pub site: String,
    pub minutes: u16,
    pub connect: bool,
}

/// An access record: who asked, for which device on which site, where the
/// request stands, who approved it, and what the controller last told of the
/// device.
#[derive(Debug, Clone)]
pub struct Client {
    pub id: String,
    pub full_name: String,
    pub email: String,
    pub phone: String,
    /// Further fields by name; no name occurs twice.
    pub fields: Vec<(String, String)>,
    pub mac: String,
    pub site: String,
    pub status: ClientStatus,
    pub hostname: Option<String>,
    pub tx_bytes: Option<usize>,
    pub rx_bytes: Option<usize>,
    /// Minutes of access granted.
    pub time_connection: u16,
    pub start_time: Timestamp,
    /// Who approved the record; `---` while nobody has.
    pub approver: String,
}

/// What stands in a text field that nobody has filled in.
pub open spec fn blank() -> Seq<char> {
    "---"@
}

/// The value stored under `name`, if the fields hold that name.
pub open spec fn field_value(fields: Seq<(String, String)>, name: Seq<char>) -> Option<Seq<char>>
    decreases fields.len(),
{
    if fields.len() == 0 {
        None
    } else if fields[0].0@ == name {
        Some(fields[0].1@)
    } else {
        field_value(fields.subrange(1, fields.len() as int), name)
    }
}

/// Whether no name occurs twice among the fields.
pub open spec fn distinct_names(fields: Seq<(String, String)>) -> bool {
    forall|i: int, j: int| 0 <= i < j < fields.len() ==> fields[i].0@ != fields[j].0@
}

/// Looks `name` up among the fields.
pub fn find_field<'a>(fields: &'a Vec<(String, String)>, name: &str) -> (found: Option<&'a String>)
    ensures
        match found {
            Some(v) => field_value(fields@, name@) == Some(v@),
            None => field_value(fields@, name@) is None,
        },
{
    let mut i: usize = 0;
    assert(fields@.subrange(0, fields@.len() as int) == fields@);
    while i < fields.len()
        invariant
            i <= fields.len(),
            field_value(fields@, name@) == field_value(
                fields@.subrange(i as int, fields@.len() as int),
                name@,
            ),
        decreases fields.len() - i,
    {
        let ghost rest = fields@.subrange(i as int, fields@.len() as int);
        assert(rest[0] == fields@[i as int]);
        if crate::utils::text::same_text(fields[i].0.as_str(), name) {
            return Some(&fields[i].1);
        }
        assert(rest.subrange(1, rest.len() as int) == fields@.subrange(
            i + 1,
            fields@.len() as int,
        ));
        i += 1;
    }
    None
}

/// A copy of the fields.
pub fn copy_fields(fields: &Vec<(String, String)>) -> (copy: Vec<(String, String)>)
    ensures
        copy@ == fields@,
{
    let mut copy: Vec<(String, String)> = Vec::new();
    let mut i: usize = 0;
    while i < fields.len()
        invariant
            i <= fields.len(),
            copy@ == fields@.subrange(0, i as int),
        decreases fields.len() - i,
    {
        copy.push((fields[i].0.clone(), fields[i].1.clone()));
        i += 1;
        assert(copy@ == fields@.subrange(0, i as int));
    }
    assert(fields@.subrange(0, fields@.len() as int) == fields@);
    copy
}

impl ClientInfo {
    /// The entry that the decision carries, if any, is well-formed.
    pub open spec fn well_formed(self) -> bool {
        match self.data {
            Some(data) => data.well_formed(),
            None => true,
        }
    }
}

impl ClientStatus {
    /// The steps of the lifecycle.
    pub open spec fn can_become(self, next: ClientStatus) -> bool {
        match (self, next) {
            (ClientStatus::Pending, ClientStatus::Approved) => true,
            (ClientStatus::Pending, ClientStatus::Reject) => true,
            (ClientStatus::Approved, ClientStatus::Expired) => true,
            _ => false,
        }
    }

    /// A status that no step leaves.
    pub open spec fn is_final(self) -> bool {
        self is Reject || self is Expired
    }

    /// Whether the lifecycle has a step from `self` to `next`.
    pub fn may_become(&self, next: &ClientStatus) -> (b: bool)
        ensures
            b == self.can_become(*next),
    {
        match (self, next) {
            (ClientStatus::Pending, ClientStatus::Approved) => true,
            (ClientStatus::Pending, ClientStatus::Reject) => true,
            (ClientStatus::Approved, ClientStatus::Expired) => true,
            _ => false,
        }
    }
}

/// A status that no step leaves stays for ever: a rejected or expired
/// record takes no further step, and the only way to an expired record
/// leads through an approved one.
pub proof fn lemma_final_states(from: ClientStatus, to: ClientStatus)
    ensures
        from.is_final() ==> !from.can_become(to),
        from.can_become(to) && to is Expired ==> from is Approved,
        from.can_become(to) ==> !(to is Pending),
        !from.can_become(from),
{
}

impl ClientData {
    /// No name occurs twice among the further fields.
    pub open spec fn well_formed(self) -> bool {
        distinct_names(self.fields@)
    }

    /// Whether the entry passes the patterns that `config` sets for the form.
    pub fn validate_form(&self, config: ClientsConfig) -> (valid: bool)
        ensures
            valid == Validator::client_is_valid(config, *self),
    {
        Validator::validate_client(&config, self)
    }
}

impl Client {
    /// An approved record names its approver, and no name occurs twice
    /// among the further fields.
    pub open spec fn well_formed(self) -> bool {
        &&& self.status is Approved ==> self.approver@.len() > 0
        &&& distinct_names(self.fields@)
    }

    /// A record as it is before anything is known of it.
    pub open spec fn is_blank(self) -> bool {
        &&& self.id@.len() == 0
        &&& self.full_name@ == blank()
        &&& self.email@ == blank()
        &&& self.phone@ == blank()
        &&& self.fields@.len() == 0
        &&& self.mac@ == blank()
        &&& self.site@ == blank()
        &&& self.status is Pending
        &&& self.hostname is None
        &&& self.tx_bytes is None
        &&& self.rx_bytes is None
        &&& self.time_connection == 0
        &&& self.approver@ == blank()
    }

    /// A pending record of which nothing is known yet, started at `now`.
    pub fn new_at(now: Timestamp) -> (client: Self)
        ensures
            client.is_blank(),
            client.start_time == now,
            client.well_formed(),
    {
        Self {
            id: String::new(),
            full_name: String::from_str("---"),
            email: String::from_str("---"),
            phone: String::from_str("---"),
            fields: Vec::new(),
            mac: String::from_str("---"),
            site: String::from_str("---"),
            status: ClientStatus::Pending,
            hostname: None,
            tx_bytes: None,
            rx_bytes: None,
            time_connection: 0,
            start_time: now,
            approver: String::from_str("---"),
        }
    }

    /// A pending record of which nothing is known yet, started at the
    /// present moment.
    pub fn new() -> (client: Self)
        ensures
            client.is_blank(),
            client.start_time.in_clock_range(),
            client.well_formed(),
    {
        Self::new_at(Timestamp::now())
    }

    /// What [`Client::new_with_data`] gives at `now`.
    pub open spec fn from_data(self, data: ClientData, now: Timestamp) -> bool {
        &&& self.id@.len() == 0
        &&& self.full_name == data.full_name
        &&& self.email == data.email
        &&& self.phone == data.phone
        &&& self.fields@ == data.fields@
        &&& self.mac@ == blank()
        &&& self.site@ == blank()
        &&& self.status is Pending
        &&& self.hostname is None
        &&& self.tx_bytes is None
        &&& self.rx_bytes is None
        &&& self.time_connection == 0
        &&& self.start_time == now
        &&& self.approver@ == blank()
    }

    /// A pending record for the person who entered `data`, started at `now`.
    pub fn new_with_data_at(data: &ClientData, now: Timestamp) -> (client: Self)
        ensures
            client.from_data(*data, now),
            data.well_formed() ==> client.well_formed(),
    {
        Self {
            id: String::new(),
            full_name: data.full_name.clone(),
            email: data.email.clone(),
            phone: data.phone.clone(),
            fields: copy_fields(&data.fields),
            mac: String::from_str("---"),
            site: String::from_str("---"),
            status: ClientStatus::Pending,
            hostname: None,
            tx_bytes: None,
            rx_bytes: None,
            time_connection: 0,
            start_time: now,
            approver: String::from_str("---"),
        }
    }

    /// A pending record for the person who entered `data`, started at the
    /// present moment.
    pub fn new_with_data(data: &ClientData) -> (client: Self)
        ensures
            exists|now: Timestamp| now.in_clock_range() && client.from_data(*data, now),
            data.well_formed() ==> client.well_formed(),
    {
        Self::new_with_data_at(data, Timestamp::now())
    }

    /// What [`Client::new_with_info`] gives at `now`: the device, the site and
    /// the minutes of `info`; approved where `info` connects the device,
    /// rejected where it does not; the person's entry where `info` holds one.
    pub open spec fn from_info(self, info: ClientInfo, now: Timestamp) -> bool {
        &&& self.id@.len() == 0
        &&& self.mac == info.mac
        &&& self.site == info.site
        &&& self.status == if info.connect {
            ClientStatus::Approved
        } else {
            ClientStatus::Reject
        }
        &&& self.hostname is None
        &&& self.tx_bytes is None
        &&& self.rx_bytes is None
        &&& self.time_connection == info.minutes
        &&& self.start_time == now
        &&& self.approver@ == blank()
        &&& match info.data {
            Some(data) => {
                &&& self.full_name == data.full_name
                &&& self.email == data.email
                &&& self.phone == data.phone
                &&& self.fields@ == data.fields@
            },
            None => {
                &&& self.full_name@ == blank()
                &&& self.email@ == blank()
                &&& self.phone@ == blank()
                &&& self.fields@.len() == 0
            },
        }
    }

    /// The record of an administrator's decision on a device without a
    /// record, taken at `now`.
    pub fn new_with_info_at(info: &ClientInfo, now: Timestamp) -> (client: Self)
        ensures
            client.from_info(*info, now),
            info.well_formed() ==> client.well_formed(),
    {
        let mut client = Self {
            id: String::new(),
            full_name: String::from_str("---"),
            email: String::from_str("---"),
            phone: String::from_str("---"),
            fields: Vec::new(),
            mac: info.mac.clone(),
            site: info.site.clone(),
            status: if info.connect {
                ClientStatus::Approved
            } else {
                ClientStatus::Reject
            },
            hostname: None,
            tx_bytes: None,
            rx_bytes: None,
            time_connection: info.minutes,
            start_time: now,
            approver: String::from_str("---"),
        };
        if let Some(data) = &info.data {
            client.full_name = data.full_name.clone();
            client.email = data.email.clone();
            client.phone = data.phone.clone();
            client.fields = copy_fields(&data.fields);
        }
        proof {
            reveal_strlit("---");
        }
        client
    }

    /// The record of an administrator's decision on a device without a
    /// record, taken at the present moment.
    pub fn new_with_info(info: &ClientInfo) -> (client: Self)
        ensures
            exists|now: Timestamp| now.in_clock_range() && client.from_info(*info, now),
            info.well_formed() ==> client.well_formed(),
    {
        Self::new_with_info_at(info, Timestamp::now())
    }

    /// The record after `approver` has granted access at `now`.
    pub open spec fn approved_by(self, approver: String, now: Timestamp) -> Client {
        Client { status: ClientStatus::Approved, approver, start_time: now, ..self }
    }

    /// Grants access: a pending record with a named approver becomes
    /// approved and starts at `now`. Any other record stays as it is.
    pub fn approve(&mut self, approver: String, now: Timestamp) -> (r: Result<(), TransitionError>)
        ensures
            match r {
                Ok(()) => {
                    &&& old(self).status is Pending
                    &&& approver@.len() > 0
                    &&& *final(self) == old(self).approved_by(approver, now)
                    &&& old(self).well_formed() ==> final(self).well_formed()
                },
                Err(e) => {
                    &&& *final(self) == *old(self)
                    &&& e == if old(self).status is Pending {
                        TransitionError::MissingApprover
                    } else {
                        TransitionError::NotAllowed {
                            from: old(self).status,
                            to: ClientStatus::Approved,
                        }
                    }
                    &&& !(old(self).status is Pending) || approver@.len() == 0
                },
            },
    {
        if !self.status.may_become(&ClientStatus::Approved) {
            return Err(
                TransitionError::NotAllowed { from: self.status, to: ClientStatus::Approved },
            );
        }
        if approver.as_str().unicode_len() == 0 {
            return Err(TransitionError::MissingApprover);
        }
        self.status = ClientStatus::Approved;
        self.approver = approver;
        self.start_time = now;
        Ok(())
    }

    /// Denies access: a pending record becomes rejected. Any other record
    /// stays as it is.
    pub fn reject(&mut self) -> (r: Result<(), TransitionError>)
        ensures
            match r {
                Ok(()) => {
                    &&& old(self).status is Pending
                    &&& *final(self) == (Client { status: ClientStatus::Reject, ..*old(self) })
                },
                Err(e) => {
                    &&& !(old(self).status is Pending)
                    &&& *final(self) == *old(self)
                    &&& e == TransitionError::NotAllowed {
                        from: old(self).status,
                        to: ClientStatus::Reject,
                    }
                },
            },
    {
        if !self.status.may_become(&ClientStatus::Reject) {
            return Err(TransitionError::NotAllowed { from: self.status, to: ClientStatus::Reject });
        }
        self.status = ClientStatus::Reject;
        Ok(())
    }

    /// Ends access: an approved record becomes expired. Any other record
    /// stays as it is.
    pub fn expire(&mut self) -> (r: Result<(), TransitionError>)
        ensures
            match r {
                Ok(()) => {
                    &&& old(self).status is Approved
                    &&& *final(self) == (Client { status: ClientStatus::Expired, ..*old(self) })
                },
                Err(e) => {
                    &&& !(old(self).status is Approved)
                    &&& *final(self) == *old(self)
                    &&& e == TransitionError::NotAllowed {
                        from: old(self).status,
                        to: ClientStatus::Expired,
                    }
                },
            },
    {
        if !self.status.may_become(&ClientStatus::Expired) {
            return Err(
                TransitionError::NotAllowed { from: self.status, to: ClientStatus::Expired },
            );
        }
        self.status = ClientStatus::Expired;
        Ok(())
    }
}

impl Entity<String> for Client {
    open spec fn id_of(&self) -> String {
        self.id
    }

    open spec fn with_id(self, id: String) -> Self {
        Client { id, ..self }
    }

    open spec fn collection_name() -> Seq<char> {
        "Clients"@
    }

    fn get_id(&self) -> (id: String) {
        self.id.clone()
    }

    fn set_id(&mut self, new_id: String) {
        self.id = new_id;
    }

    fn get_name() -> (name: String) {
        String::from_str("Clients")
    }
}

} // verus!
