//! Guests: visitors who ask for access with a short form.

use crate::utils::clock::Timestamp;
use vstd::prelude::*;
use vstd::string::*;

verus! {

/// What a request for a guest's access carries: an administrator's decision
/// or the form that the guest filled in.
#[derive(Debug)]
pub enum GuestData {
    Info(GuestInfo),
    Form(GuestForm),
}

#[derive(Debug, PartialEq, Eq, Structural, Clone, Copy)]
pub enum GuestStatus {
    Approved,
    Pending,
    Reject,
    Expired,
}

#[derive(Debug)]
pub struct GuestForm {
    pub full_name: String,
    pub email: String,
    pub phone: String,
    pub cpf: String,
    pub au_code: Option<String>,
    pub menssage: Option<String>,
}

#[derive(Debug)]
pub struct GuestInfo {
    pub id: Option<String>,
    pub mac: String,
    pub site: String,
    pub minutes: u16,
    pub approved: bool,
}

#[derive(Debug)]
pub struct Guest {
    pub id: String,
    pub full_name: String,
    pub email: String,
    pub phone: String,
    pub cpf: String,
    pub mac: String,
    pub site: String,
    pub status: GuestStatus,
    pub hostname: Option<String>,
    pub tx_bytes: Option<usize>,
    pub rx_bytes: Option<usize>,
    /// Minutes of access granted.
    pub time_connection: u16,
    pub start_time: Timestamp,
    pub approver: String,
}

impl Guest {
    /// A record as it is before anything is known of the guest.
    pub open spec fn is_blank(self) -> bool {
        &&& self.id@.len() == 0
        &&& self.full_name@ == "---"@
        &&& self.email@ == "---"@
        &&& self.phone@ == "---"@
        &&& self.cpf@ == "---"@
        &&& self.mac@ == "---"@
        &&& self.site@ == "---"@
        &&& self.status is Pending
        &&& self.hostname is None
        &&& self.tx_bytes is None
        &&& self.rx_bytes is None
        &&& self.time_connection == 0
        &&& self.approver@ == "---"@
    }

    /// A pending record of which nothing is known yet, started at the
    /// present moment.
    pub fn new() -> (guest: Self)
        ensures
            guest.is_blank(),
            guest.start_time.in_clock_range(),
    {
        Self {
            id: String::new(),
            full_name: String::from_str("---"),
            email: String::from_str("---"),
            phone: String::from_str("---"),
            cpf: String::from_str("---"),
            mac: String::from_str("---"),
            site: String::from_str("---"),
            status: GuestStatus::Pending,
            hostname: None,
            tx_bytes: None,
            rx_bytes: None,
            time_connection: 0,
            start_time: Timestamp::now(),
            approver: String::from_str("---"),
        }
    }
}

} // verus!
