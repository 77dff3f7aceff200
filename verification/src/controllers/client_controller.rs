//! Requests on access records.

use crate::configurations::config::ConfigApplication;
use crate::model::entity::approver::Approver;
use crate::model::entity::client::{
    blank, Client, ClientData, ClientInfo, ClientStatus, TransitionError,
};
use crate::security::approval_code::{validate_code_at, validated};
use crate::utils::clock::Timestamp;
use crate::utils::text::same_text;
use crate::utils::validator::Validator;
use vstd::prelude::*;
use vstd::string::*;

verus! {

/// What follows from an administrator's decision on a device.
#[derive(Debug)]
pub enum AdminDecision {
    /// The stored record is approved: its device is to be connected and the
    /// record stored again.
    Approve(Client),
    /// The stored record is rejected: its device is to be dropped and the
    /// record stored again.
    Reject(Client),
    /// The device had no record and is let in: it is to be connected and
    /// this record stored.
    ApproveNew(Client),
    /// The device had no record and is kept out: its access is to be taken
    /// away, and nothing is stored.
    Deny { site: String, mac: String },
    /// The decision cannot be taken: the stored record cannot take the step,
    /// or the approval names nobody.
    Refused(TransitionError),
}

/// Why a form was turned down.
#[derive(Debug, PartialEq, Eq, Structural, Clone, Copy)]
pub enum FormError {
    /// The entry does not pass the patterns that the settings set.
    InvalidForm,
    /// Nobody with a name stands behind the approval code.
    InvalidCode,
}

/// What follows from a form that was taken.
#[derive(Debug)]
pub enum FormOutcome {
    /// The approval code was good: the device is to be connected and this
    /// approved record stored.
    Connect(Client),
    /// The form bore no code: this pending record is to be stored, for an
    /// administrator to decide on.
    Pending(Client),
}

/// The minutes of access that the settings grant, as the controller takes
/// them: the remainder of division by 65536.
pub open spec fn granted_minutes(config: ConfigApplication) -> u16 {
    (config.clients.time_connection % 65536) as u16
}

/// The minutes of access that the settings grant, as the controller takes
/// them.
pub fn minutes_granted(config: &ConfigApplication) -> (minutes: u16)
    ensures
        minutes == granted_minutes(*config),
{
    (config.clients.time_connection % 65536) as u16
}

/// Whether `i` is the place of the record that tells where the device `mac`
/// stands: of the records of the device, the one that started last, and of
/// those that started together the last in the list.
pub open spec fn is_latest(clients: Seq<Client>, mac: Seq<char>, i: int) -> bool {
    &&& 0 <= i < clients.len()
    &&& clients[i].mac@ == mac
    &&& forall|j: int|
        0 <= j < clients.len() && (#[trigger] clients[j]).mac@ == mac ==> clients[j].start_time.secs
            < clients[i].start_time.secs || (clients[j].start_time.secs
            == clients[i].start_time.secs && j <= i)
}

/// Where the device `mac` stands: the status of its latest record, `None`
/// where it has no record.
pub fn get_client_status(clients: &Vec<Client>, mac: String) -> (status: Option<ClientStatus>)
    ensures
        match status {
            Some(s) => exists|i: int| is_latest(clients@, mac@, i) && clients@[i].status == s,
            None => forall|i: int| 0 <= i < clients@.len() ==> (#[trigger] clients@[i]).mac@ != mac@,
        },
{
    let mut latest: Option<usize> = None;
    let mut i: usize = 0;
    while i < clients.len()
        invariant
            i <= clients@.len(),
            match latest {
                Some(at) => is_latest(clients@.subrange(0, i as int), mac@, at as int),
                None => forall|j: int| 0 <= j < i ==> (#[trigger] clients@[j]).mac@ != mac@,
            },
        decreases clients@.len() - i,
    {
        let ghost seen = clients@.subrange(0, i as int);
        let ghost next = clients@.subrange(0, i + 1);
        let mut newer: bool = false;
        if same_text(clients[i].mac.as_str(), mac.as_str()) {
            newer = match latest {
                Some(at) => {
                    assert(seen[at as int] == clients@[at as int]);
                    clients[i].start_time.secs >= clients[at].start_time.secs
                },
                None => true,
            };
        }
        proof {
            assert forall|j: int| 0 <= j < i implies next[j] == seen[j] by {}
            assert(next[i as int] == clients@[i as int]);
            if newer {
                assert forall|j: int|
                    0 <= j < next.len() && (#[trigger] next[j]).mac@ == mac@ implies next[j].start_time.secs
                    < next[i as int].start_time.secs || (next[j].start_time.secs
                    == next[i as int].start_time.secs && j <= i) by {
                    if j < i {
                        assert(seen[j].mac@ == mac@);
                        if latest is None {
                            assert(clients@[j].mac@ != mac@);
                        }
                    }
                }
            } else if latest is Some {
                let at = latest->0 as int;
                assert forall|j: int|
                    0 <= j < next.len() && (#[trigger] next[j]).mac@ == mac@ implies next[j].start_time.secs
                    < next[at].start_time.secs || (next[j].start_time.secs
                    == next[at].start_time.secs && j <= at) by {
                    if j < i {
                        assert(seen[j].mac@ == mac@);
                    }
                }
            }
        }
        if newer {
            latest = Some(i);
        }
        i += 1;
    }
    assert(clients@.subrange(0, clients@.len() as int) == clients@);
    match latest {
        Some(at) => Some(clients[at].status),
        None => None,
    }
}

/// Takes an administrator's decision `info` at `now`. `existing` is the
/// stored record that the decision names, if it names one and the record is
/// there. A stored record takes the step of the lifecycle that the decision
/// asks for, in the administrator's name; a device without a record gets an
/// approved record in the administrator's name where it is let in, and none
/// where it is kept out.
pub fn client_connection_api_at(
    existing: Option<Client>,
    info: &ClientInfo,
    admin_name: String,
    now: Timestamp,
) -> (decision: AdminDecision)
    ensures
        match decision {
            AdminDecision::Approve(c) => {
                &&& existing matches Some(before)
                &&& info.connect
                &&& before.status is Pending
                &&& admin_name@.len() > 0
                &&& c == before.approved_by(admin_name, now)
                &&& before.well_formed() ==> c.well_formed()
            },
            AdminDecision::Reject(c) => {
                &&& existing matches Some(before)
                &&& !info.connect
                &&& before.status is Pending
                &&& c == (Client { status: ClientStatus::Reject, ..before })
            },
            AdminDecision::ApproveNew(c) => {
                &&& existing is None
                &&& info.connect
                &&& admin_name@.len() > 0
                &&& exists|fresh: Client|
                    fresh.from_info(*info, now) && c == (Client { approver: admin_name, ..fresh })
                &&& info.well_formed() ==> c.well_formed()
            },
            AdminDecision::Deny { site, mac } => {
                &&& existing is None
                &&& !info.connect
                &&& site == info.site
                &&& mac == info.mac
            },
            AdminDecision::Refused(e) => match existing {
                Some(before) => {
                    &&& !(before.status is Pending) || (info.connect && admin_name@.len() == 0)
                    &&& e == if before.status is Pending {
                        TransitionError::MissingApprover
                    } else {
                        TransitionError::NotAllowed {
                            from: before.status,
                            to: if info.connect {
                                ClientStatus::Approved
                            } else {
                                ClientStatus::Reject
                            },
                        }
                    }
                },
                None => info.connect && admin_name@.len() == 0 && e
                    == TransitionError::MissingApprover,
            },
        },
{
    match existing {
        Some(before) => {
            let mut client: Client = before;
            if info.connect {
                match client.approve(admin_name, now) {
                    Ok(()) => AdminDecision::Approve(client),
                    Err(e) => AdminDecision::Refused(e),
                }
            } else {
                match client.reject() {
                    Ok(()) => AdminDecision::Reject(client),
                    Err(e) => AdminDecision::Refused(e),
                }
            }
        },
        None => {
            if info.connect {
                if admin_name.as_str().unicode_len() == 0 {
                    return AdminDecision::Refused(TransitionError::MissingApprover);
                }
                let fresh: Client = Client::new_with_info_at(info, now);
                let ghost made = fresh;
                let mut client: Client = fresh;
                client.approver = admin_name;
                assert(client == (Client { approver: admin_name, ..made }));
                AdminDecision::ApproveNew(client)
            } else {
                AdminDecision::Deny { site: info.site.clone(), mac: info.mac.clone() }
            }
        },
    }
}

/// Takes an administrator's decision at the present moment.
pub fn client_connection_api(existing: Option<Client>, info: &ClientInfo, admin_name: String) -> (decision:
    AdminDecision)
    ensures
        match decision {
            AdminDecision::Approve(c) => {
                &&& existing is Some
                &&& info.connect
                &&& existing->0.status is Pending
                &&& admin_name@.len() > 0
                &&& exists|now: Timestamp|
                    now.in_clock_range() && c == existing->0.approved_by(admin_name, now)
            },
            AdminDecision::Reject(c) => {
                &&& existing is Some
                &&& !info.connect
                &&& existing->0.status is Pending
                &&& c == (Client { status: ClientStatus::Reject, ..existing->0 })
            },
            AdminDecision::ApproveNew(c) => {
                &&& existing is None
                &&& info.connect
                &&& admin_name@.len() > 0
                &&& exists|now: Timestamp, fresh: Client|
                    now.in_clock_range() && fresh.from_info(*info, now) && c == (Client {
                        approver: admin_name,
                        ..fresh
                    })
            },
            AdminDecision::Deny { site, mac } => {
                &&& existing is None
                &&& !info.connect
                &&& site == info.site
                &&& mac == info.mac
            },
            AdminDecision::Refused(e) => match existing {
                Some(before) => !(before.status is Pending) || (info.connect && admin_name@.len()
                    == 0),
                None => info.connect && admin_name@.len() == 0,
            },
        },
{
    let now: Timestamp = Timestamp::now();
    client_connection_api_at(existing, info, admin_name, now)
}

/// Whether a validation has found an approver with a name.
pub open spec fn names_somebody(found: Option<Seq<char>>) -> bool {
    match found {
        Some(name) => name.len() > 0,
        None => false,
    }
}

/// Whether `client` is the record of the form `data`, handed in at `now`
/// for the device `mac` on `site`, before anybody has decided on it.
pub open spec fn filed(
    client: Client,
    data: ClientData,
    config: ConfigApplication,
    mac: String,
    site: String,
    now: Timestamp,
) -> bool {
    &&& client.id@.len() == 0
    &&& client.full_name == data.full_name
    &&& client.email == data.email
    &&& client.phone == data.phone
    &&& client.fields@ == data.fields@
    &&& client.mac == mac
    &&& client.site == site
    &&& client.hostname is None
    &&& client.tx_bytes is None
    &&& client.rx_bytes is None
    &&& client.time_connection == granted_minutes(config)
    &&& client.start_time == now
}

/// Takes the form `data`, handed in at `now` for the device `mac` on
/// `site`. An entry that does not pass the patterns of the settings is
/// turned down. A form with an approval code is good just when an approver
/// with a name stands behind the code at `now`, whatever kind of access the
/// approver may grant; the record is then approved in the approver's name.
/// A form without a code gives a pending record.
pub fn client_connection_approver_at(
    data: ClientData,
    config: &ConfigApplication,
    mac: String,
    site: String,
    approvers: &Vec<Approver>,
    now: Timestamp,
) -> (r: Result<FormOutcome, FormError>)
    ensures
        match r {
            Ok(FormOutcome::Connect(c)) => {
                &&& Validator::client_is_valid(config.clients, data)
                &&& data.approver_code matches Some(code)
                &&& validated(approvers@, code@, None, config.approvers.encrypted_code, now)
                    == Some(c.approver@)
                &&& c.approver@.len() > 0
                &&& c.status is Approved
                &&& filed(c, data, *config, mac, site, now)
                &&& data.well_formed() ==> c.well_formed()
            },
            Ok(FormOutcome::Pending(c)) => {
                &&& Validator::client_is_valid(config.clients, data)
                &&& data.approver_code is None
                &&& c.status is Pending
                &&& c.approver@ == blank()
                &&& filed(c, data, *config, mac, site, now)
            },
            Err(e) => {
                &&& e == FormError::InvalidForm <==> !Validator::client_is_valid(
                    config.clients,
                    data,
                )
                &&& e == FormError::InvalidCode <==> Validator::client_is_valid(
                    config.clients,
                    data,
                ) && data.approver_code is Some && !names_somebody(
                    validated(
                        approvers@,
                        data.approver_code->0@,
                        None,
                        config.approvers.encrypted_code,
                        now,
                    ),
                )
            },
        },
{
    if !Validator::validate_client(&config.clients, &data) {
        return Err(FormError::InvalidForm);
    }
    let minutes: u16 = minutes_granted(config);
    let mut client: Client = Client::new_with_data_at(&data, now);
    client.site = site;
    client.mac = mac;
    client.time_connection = minutes;
    match &data.approver_code {
        Some(code) => {
            let found = validate_code_at(
                code.as_str(),
                approvers,
                None,
                config.approvers.encrypted_code,
                now,
            );
            match found {
                Some(name) => match client.approve(name, now) {
                    Ok(()) => Ok(FormOutcome::Connect(client)),
                    Err(_) => Err(FormError::InvalidCode),
                },
                None => Err(FormError::InvalidCode),
            }
        },
        None => Ok(FormOutcome::Pending(client)),
    }
}

/// Takes a form at the present moment.
pub fn client_connection_approver(
    data: ClientData,
    config: &ConfigApplication,
    mac: String,
    site: String,
    approvers: &Vec<Approver>,
) -> (r: Result<FormOutcome, FormError>)
    ensures
        match r {
            Ok(FormOutcome::Connect(c)) => {
                &&& Validator::client_is_valid(config.clients, data)
                &&& data.approver_code is Some
                &&& c.status is Approved
                &&& c.approver@.len() > 0
                &&& exists|now: Timestamp|
                    now.in_clock_range() && filed(c, data, *config, mac, site, now) && validated(
                        approvers@,
                        data.approver_code->0@,
                        None,
                        config.approvers.encrypted_code,
                        now,
                    ) == Some(c.approver@)
            },
            Ok(FormOutcome::Pending(c)) => {
                &&& Validator::client_is_valid(config.clients, data)
                &&& data.approver_code is None
                &&& c.status is Pending
                &&& exists|now: Timestamp|
                    now.in_clock_range() && filed(c, data, *config, mac, site, now)
            },
            Err(e) => e == FormError::InvalidForm <==> !Validator::client_is_valid(
                config.clients,
                data,
            ),
        },
{
    let now: Timestamp = Timestamp::now();
    client_connection_approver_at(data, config, mac, site, approvers, now)
}

} // verus!
