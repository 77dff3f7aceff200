//! The session with the wireless controller and the commands sent over it.
//!
//! The library decides what is sent and whether a login has to come first;
//! the caller does the sending. One session is held at a time. It counts as
//! good for [`SESSION_TTL`] seconds after a login and is then renewed.

use crate::model::entity::client::Client;
use crate::utils::clock::Timestamp;
use crate::utils::seqs::lemma_filter_step;
use crate::utils::text::{join2, join3, copy_optional, same_text};
use vstd::prelude::*;
use vstd::string::*;

verus! {

/// Seconds for which a login is good.
pub const SESSION_TTL: i64 = 600;

/// The status with which the controller answers a login that it accepts.
pub const STATUS_OK: u16 = 200;

/// The session with the controller: where it is, who logs in, and when the
/// last login was accepted.
#[derive(Clone, Debug)]
pub struct UnifiController {
    pub base_url: String,
    pub username: String,
    pub password: String,
    pub authentication_time: Option<Timestamp>,
}

/// The command that lets a device onto the network for some minutes.
#[derive(Debug)]
pub struct DeviceAuthorization {
    pub cmd: String,
    pub mac: Option<String>,
    pub minutes: Option<u16>,
}

/// The command that takes a device's access away.
#[derive(Debug)]
pub struct DeviceUnauthorize {
    pub cmd: String,
    pub mac: Option<String>,
}

/// The command that drops a device's connection.
#[derive(Debug)]
pub struct DisconnectDevice {
    pub cmd: String,
    pub mac: String,
}

/// What the controller tells of a device.
#[derive(Debug)]
pub struct DeviceInfo {
    /// The controller's identifier of the entry.
    pub record_id: Option<String>,
    pub user_id: Option<String>,
    pub mac: String,
    /// The name that the controller shows for the device, once it has one.
    pub name: Option<String>,
    pub hostname: Option<String>,
    pub oui: Option<String>,
    /// Whether the device's authorization has ended.
    pub expired: Option<bool>,
    pub is_guest: Option<bool>,
    pub assoc_time: Option<u64>,
    pub last_seen: Option<u64>,
    pub start: Option<u64>,
    pub end: Option<u64>,
    pub ip: Option<String>,
    pub essid: Option<String>,
    pub ap_name: Option<String>,
    pub ap_mac: Option<String>,
    pub voucher_code: Option<String>,
    pub bytes: Option<u64>,
    pub tx_bytes: Option<usize>,
    pub rx_bytes: Option<usize>,
}

#[derive(Debug, PartialEq, Eq, Structural, Clone, Copy)]
pub enum HttpMethod {
    Get,
    Post,
    Put,
}

/// What a request to the controller carries.
#[derive(Debug)]
pub enum RequestBody {
    Empty,
    Login { username: String, password: String },
    Authorize(DeviceAuthorization),
    Unauthorize(DeviceUnauthorize),
    Disconnect(DisconnectDevice),
    Rename { name: String },
}

/// A request to the controller.
#[derive(Debug)]
pub struct ControllerRequest {
    pub method: HttpMethod,
    pub url: String,
    pub body: RequestBody,
}

/// A command as the caller has to carry it out: the request, and whether the
/// login of [`UnifiController::login_request`] has to be sent before it.
#[derive(Debug)]
pub struct ControllerCall {
    pub login_first: bool,
    pub request: ControllerRequest,
}

/// What becomes of a command once the controller has answered it, or has
/// not.
#[derive(Debug, PartialEq, Eq, Structural, Clone, Copy)]
pub enum CallVerdict {
    /// The controller has done what was asked.
    Done,
    /// The command failed the first time: it is to be sent once more, after
    /// a new login.
    RetryAfterLogin,
    /// The command failed again: the failure goes to whoever asked.
    Failed,
}

/// Whether the controller's answer says that it has done what was asked: a
/// status from 200 to 299. No answer at all (`None`) says that it has not.
pub open spec fn answer_is_success(answer: Option<u16>) -> bool {
    match answer {
        Some(status) => 200 <= status < 300,
        None => false,
    }
}

/// What becomes of a command that the controller answered with `answer`;
/// `retried` says whether the command had been sent before. A failure is
/// answered with one new login and one more try, never more.
pub open spec fn verdict_of(answer: Option<u16>, retried: bool) -> CallVerdict {
    if answer_is_success(answer) {
        CallVerdict::Done
    } else if retried {
        CallVerdict::Failed
    } else {
        CallVerdict::RetryAfterLogin
    }
}

/// The address of the login.
pub open spec fn login_url(base: Seq<char>) -> Seq<char> {
    base + "/login"@
}

/// The address that takes the commands on the devices of `site`.
pub open spec fn command_url(base: Seq<char>, site: Seq<char>) -> Seq<char> {
    base + "/s/"@ + site + "/cmd/stamgr"@
}

/// The address that renames the entry `id` of `site`.
pub open spec fn rename_url(base: Seq<char>, site: Seq<char>, id: Seq<char>) -> Seq<char> {
    base + "/s/"@ + site + "/upd/user/"@ + id
}

/// The address that lists the guests' devices of `site`.
pub open spec fn guests_url(base: Seq<char>, site: Seq<char>) -> Seq<char> {
    base + "/s/"@ + site + "/stat/guest"@
}

/// The address that lists all devices of `site`.
pub open spec fn devices_url(base: Seq<char>, site: Seq<char>) -> Seq<char> {
    base + "/s/"@ + site + "/stat/sta"@
}

/// The name that the controller is asked to show for the device of the
/// person `full_name`.
pub open spec fn display_name(full_name: Seq<char>) -> Seq<char> {
    "("@ + full_name + ")"@
}

impl ControllerRequest {
    /// The login of `username`.
    pub open spec fn is_login(self, base: Seq<char>, username: Seq<char>, password: Seq<char>) -> bool {
        &&& self.method == HttpMethod::Post
        &&& self.url@ == login_url(base)
        &&& self.body matches RequestBody::Login { username: u, password: p }
        &&& u@ == username
        &&& p@ == password
    }

    /// The command that lets `mac` onto `site` for `minutes` minutes.
    pub open spec fn is_authorize(self, base: Seq<char>, site: Seq<char>, mac: Seq<char>, minutes: u16) -> bool {
        &&& self.method == HttpMethod::Post
        &&& self.url@ == command_url(base, site)
        &&& self.body matches RequestBody::Authorize(b)
        &&& b.cmd@ == "authorize-guest"@
        &&& b.mac matches Some(m)
        &&& m@ == mac
        &&& b.minutes == Some(minutes)
    }

    /// The command that takes the access of `mac` on `site` away.
    pub open spec fn is_unauthorize(self, base: Seq<char>, site: Seq<char>, mac: Seq<char>) -> bool {
        &&& self.method == HttpMethod::Post
        &&& self.url@ == command_url(base, site)
        &&& self.body matches RequestBody::Unauthorize(b)
        &&& b.cmd@ == "unauthorize-guest"@
        &&& b.mac matches Some(m)
        &&& m@ == mac
    }

    /// The command that drops the connection of `mac` on `site`.
    pub open spec fn is_disconnect(self, base: Seq<char>, site: Seq<char>, mac: Seq<char>) -> bool {
        &&& self.method == HttpMethod::Post
        &&& self.url@ == command_url(base, site)
        &&& self.body matches RequestBody::Disconnect(b)
        &&& b.cmd@ == "kick-sta"@
        &&& b.mac@ == mac
    }

    /// The request that names the entry `id` of `site` `name`.
    pub open spec fn is_rename(self, base: Seq<char>, site: Seq<char>, id: Seq<char>, name: Seq<char>) -> bool {
        &&& self.method == HttpMethod::Put
        &&& self.url@ == rename_url(base, site, id)
        &&& self.body matches RequestBody::Rename { name: n }
        &&& n@ == name
    }

    /// The request for what is at `url`.
    pub open spec fn is_listing(self, url: Seq<char>) -> bool {
        &&& self.method == HttpMethod::Get
        &&& self.url@ == url
        &&& self.body is Empty
    }
}

impl RequestBody {
    /// The same body as a value of its own.
    pub fn duplicate(&self) -> (copy: Self)
        ensures
            copy == *self,
    {
        match self {
            RequestBody::Empty => RequestBody::Empty,
            RequestBody::Login { username, password } => RequestBody::Login {
                username: username.clone(),
                password: password.clone(),
            },
            RequestBody::Authorize(b) => RequestBody::Authorize(
                DeviceAuthorization {
                    cmd: b.cmd.clone(),
                    mac: copy_optional(&b.mac),
                    minutes: b.minutes,
                },
            ),
            RequestBody::Unauthorize(b) => RequestBody::Unauthorize(
                DeviceUnauthorize { cmd: b.cmd.clone(), mac: copy_optional(&b.mac) },
            ),
            RequestBody::Disconnect(b) => RequestBody::Disconnect(
                DisconnectDevice { cmd: b.cmd.clone(), mac: b.mac.clone() },
            ),
            RequestBody::Rename { name } => RequestBody::Rename { name: name.clone() },
        }
    }
}

impl ControllerRequest {
    /// The same request as a value of its own, for a second try.
    pub fn duplicate(&self) -> (copy: Self)
        ensures
            copy == *self,
    {
        ControllerRequest {
            method: self.method,
            url: self.url.clone(),
            body: self.body.duplicate(),
        }
    }
}

impl DeviceAuthorization {
    pub fn new(mac: String, minutes: u16) -> (body: Self)
        ensures
            body.cmd@ == "authorize-guest"@,
            body.mac == Some(mac),
            body.minutes == Some(minutes),
    {
        Self { cmd: String::from_str("authorize-guest"), mac: Some(mac), minutes: Some(minutes) }
    }
}

impl DeviceUnauthorize {
    pub fn new(mac: String) -> (body: Self)
        ensures
            body.cmd@ == "unauthorize-guest"@,
            body.mac == Some(mac),
    {
        Self { cmd: String::from_str("unauthorize-guest"), mac: Some(mac) }
    }
}

impl DisconnectDevice {
    pub fn new(mac: String) -> (body: Self)
        ensures
            body.cmd@ == "kick-sta"@,
            body.mac == mac,
    {
        Self { cmd: String::from_str("kick-sta"), mac }
    }
}

impl DeviceInfo {
    /// Whether the controller treats the device as a guest's; it does not
    /// where it says nothing of it.
    pub open spec fn counts_as_guest(self) -> bool {
        self.is_guest == Some(true)
    }

    /// Whether the controller reports that the device's authorization has
    /// ended; it does not where it says nothing of it.
    pub open spec fn has_expired(self) -> bool {
        self.expired == Some(true)
    }

    /// Whether the controller reports that the device's authorization has
    /// ended.
    pub fn is_expired(&self) -> (b: bool)
        ensures
            b == self.has_expired(),
    {
        match self.expired {
            Some(e) => e,
            None => false,
        }
    }

    /// What the controller tells of the device `mac` when it tells no more
    /// than that it knows it.
    pub fn new(mac: String) -> (device: Self)
        ensures
            device.mac == mac,
            device.record_id is None,
            device.user_id is None,
            device.name is None,
            device.hostname is None,
            device.oui is None,
            device.expired is None,
            device.is_guest is None,
            device.assoc_time is None,
            device.last_seen is None,
            device.start is None,
            device.end is None,
            device.ip is None,
            device.essid is None,
            device.ap_name is None,
            device.ap_mac is None,
            device.voucher_code is None,
            device.bytes is None,
            device.tx_bytes is None,
            device.rx_bytes is None,
    {
        Self {
            record_id: None,
            user_id: None,
            mac,
            name: None,
            hostname: None,
            oui: None,
            expired: None,
            is_guest: None,
            assoc_time: None,
            last_seen: None,
            start: None,
            end: None,
            ip: None,
            essid: None,
            ap_name: None,
            ap_mac: None,
            voucher_code: None,
            bytes: None,
            tx_bytes: None,
            rx_bytes: None,
        }
    }

    /// The same report as a value of its own.
    pub fn duplicate(&self) -> (copy: Self)
        ensures
            copy == *self,
    {
        Self {
            record_id: copy_optional(&self.record_id),
            user_id: copy_optional(&self.user_id),
            mac: self.mac.clone(),
            name: copy_optional(&self.name),
            hostname: copy_optional(&self.hostname),
            oui: copy_optional(&self.oui),
            expired: self.expired,
            is_guest: self.is_guest,
            assoc_time: self.assoc_time,
            last_seen: self.last_seen,
            start: self.start,
            end: self.end,
            ip: copy_optional(&self.ip),
            essid: copy_optional(&self.essid),
            ap_name: copy_optional(&self.ap_name),
            ap_mac: copy_optional(&self.ap_mac),
            voucher_code: copy_optional(&self.voucher_code),
            bytes: self.bytes,
            tx_bytes: self.tx_bytes,
            rx_bytes: self.rx_bytes,
        }
    }
}

/// Whether `i` is the place of the first device in `devices` with the
/// hardware address `mac`.
pub open spec fn is_first_with_mac(devices: Seq<DeviceInfo>, mac: Seq<char>, i: int) -> bool {
    &&& 0 <= i < devices.len()
    &&& devices[i].mac@ == mac
    &&& forall|j: int| 0 <= j < i ==> devices[j].mac@ != mac
}

/// Whether the controller knows of a device with the hardware address `mac`.
pub open spec fn knows_mac(devices: Seq<DeviceInfo>, mac: Seq<char>) -> bool {
    exists|i: int| 0 <= i < devices.len() && devices[i].mac@ == mac
}

/// The place of the first device with the hardware address `mac`.
pub fn find_device(devices: &[DeviceInfo], mac: &str) -> (found: Option<usize>)
    ensures
        match found {
            Some(i) => is_first_with_mac(devices@, mac@, i as int),
            None => !knows_mac(devices@, mac@),
        },
{
    let mut i: usize = 0;
    while i < devices.len()
        invariant
            i <= devices.len(),
            forall|j: int| 0 <= j < i ==> devices@[j].mac@ != mac@,
        decreases devices.len() - i,
    {
        if same_text(devices[i].mac.as_str(), mac) {
            return Some(i);
        }
        i += 1;
    }
    None
}

/// The devices that count as guests' where `guests_only` is set, else all
/// of them.
pub open spec fn selected(devices: Seq<DeviceInfo>, guests_only: bool) -> Seq<DeviceInfo> {
    if guests_only {
        devices.filter(|d: DeviceInfo| d.counts_as_guest())
    } else {
        devices
    }
}

/// Keeps the guests' devices where `guests_only` is set, in the order in
/// which the controller listed them.
pub fn select_devices(devices: Vec<DeviceInfo>, guests_only: bool) -> (kept: Vec<DeviceInfo>)
    ensures
        kept@ == selected(devices@, guests_only),
{
    if !guests_only {
        return devices;
    }
    let ghost pred = |d: DeviceInfo| d.counts_as_guest();
    let mut kept: Vec<DeviceInfo> = Vec::new();
    let mut i: usize = 0;
    proof {
        crate::utils::seqs::lemma_filter_empty(devices@.subrange(0, 0), pred);
    }
    while i < devices.len()
        invariant
            i <= devices.len(),
            pred == (|d: DeviceInfo| d.counts_as_guest()),
            kept@ == devices@.subrange(0, i as int).filter(pred),
        decreases devices.len() - i,
    {
        proof {
            lemma_filter_step(devices@, pred, i as int);
        }
        let guest: bool = match devices[i].is_guest {
            Some(g) => g,
            None => false,
        };
        if guest {
            kept.push(devices[i].duplicate());
        }
        i += 1;
    }
    assert(devices@.subrange(0, devices@.len() as int) == devices@);
    kept
}

impl UnifiController {
    /// Whether the session is good at `now`: a login was accepted no more
    /// than [`SESSION_TTL`] seconds before `now`, and not after it.
    pub open spec fn fresh_at(self, now: Timestamp) -> bool {
        match self.authentication_time {
            Some(since) => 0 <= now.secs - since.secs <= SESSION_TTL,
            None => false,
        }
    }

    /// The session without its login.
    pub open spec fn logged_out(self) -> UnifiController {
        UnifiController { authentication_time: None, ..self }
    }

    /// A session that has not logged in yet.
    pub fn new(base_url: String, username: String, password: String) -> (unifi: Self)
        ensures
            unifi.base_url == base_url,
            unifi.username == username,
            unifi.password == password,
            unifi.authentication_time is None,
    {
        Self { base_url, username, password, authentication_time: None }
    }

    /// Whether the session is good at `now`. A session that is not forgets
    /// its login.
    pub fn check_authentication_at(&mut self, now: Timestamp) -> (fresh: bool)
        ensures
            fresh == old(self).fresh_at(now),
            fresh ==> *final(self) == *old(self),
            !fresh ==> *final(self) == old(self).logged_out(),
    {
        match self.authentication_time {
            Some(since) => {
                let gap: i128 = now.secs as i128 - since.secs as i128;
                if 0 <= gap && gap <= 600 {
                    return true;
                }
                self.authentication_time = None;
                false
            },
            None => false,
        }
    }

    /// Whether the session is good at the present moment. A session that is
    /// not forgets its login.
    pub fn check_authentication(&mut self) -> (fresh: bool)
        ensures
            exists|now: Timestamp| now.in_clock_range() && fresh == old(self).fresh_at(now),
            fresh ==> *final(self) == *old(self) && old(self).authentication_time is Some,
            !fresh ==> *final(self) == old(self).logged_out(),
    {
        let now: Timestamp = Timestamp::now();
        self.check_authentication_at(now)
    }

    /// The login to send to the controller.
    pub fn login_request(&self) -> (request: ControllerRequest)
        ensures
            request.is_login(self.base_url@, self.username@, self.password@),
    {
        ControllerRequest {
            method: HttpMethod::Post,
            url: join2(self.base_url.as_str(), "/login"),
            body: RequestBody::Login {
                username: self.username.clone(),
                password: self.password.clone(),
            },
        }
    }

    /// Takes note of the controller's answer to a login, received at `now`:
    /// the status 200 starts the session at `now`, any other status leaves
    /// the session as it was.
    pub fn authentication_api_at(&mut self, status: u16, now: Timestamp)
        ensures
            *final(self) == if status == STATUS_OK {
                UnifiController { authentication_time: Some(now), ..*old(self) }
            } else {
                *old(self)
            },
            status == STATUS_OK && now.in_clock_range() ==> final(self).fresh_at(now),
    {
        if status == STATUS_OK {
            self.authentication_time = Some(now);
        }
    }

    /// Takes note of the controller's answer to a login, received just now.
    pub fn authentication_api(&mut self, status: u16)
        ensures
            status != STATUS_OK ==> *final(self) == *old(self),
            status == STATUS_OK ==> exists|now: Timestamp|
                now.in_clock_range() && *final(self) == (UnifiController {
                    authentication_time: Some(now),
                    ..*old(self)
                }),
    {
        let now: Timestamp = Timestamp::now();
        self.authentication_api_at(status, now);
    }

    /// Makes `request` ready for sending at `now`: the login has to come
    /// first just when the session is not good at `now`.
    pub fn prepare_at(&mut self, request: ControllerRequest, now: Timestamp) -> (call:
        ControllerCall)
        ensures
            call.request == request,
            call.login_first == !old(self).fresh_at(now),
            !call.login_first ==> *final(self) == *old(self),
            call.login_first ==> *final(self) == old(self).logged_out(),
    {
        let fresh: bool = self.check_authentication_at(now);
        ControllerCall { login_first: !fresh, request }
    }

    /// Makes `request` ready for sending at the present moment.
    pub fn prepare(&mut self, request: ControllerRequest) -> (call: ControllerCall)
        ensures
            call.request == request,
            exists|now: Timestamp|
                now.in_clock_range() && call.login_first == !old(self).fresh_at(now),
            !call.login_first ==> *final(self) == *old(self),
            call.login_first ==> *final(self) == old(self).logged_out(),
    {
        let now: Timestamp = Timestamp::now();
        self.prepare_at(request, now)
    }

    /// Decides on the controller's answer to a command: `answer` is the
    /// status of the answer, `None` where none came; `retried` says whether
    /// the command had been sent before. Where the command is to be sent
    /// once more the session forgets its login, so that the login comes
    /// first; in every other case the session stays as it is.
    pub fn settle(&mut self, answer: Option<u16>, retried: bool) -> (verdict: CallVerdict)
        ensures
            verdict == verdict_of(answer, retried),
            *final(self) == if verdict == CallVerdict::RetryAfterLogin {
                old(self).logged_out()
            } else {
                *old(self)
            },
    {
        let success: bool = match answer {
            Some(status) => 200 <= status && status < 300,
            None => false,
        };
        if success {
            CallVerdict::Done
        } else if retried {
            CallVerdict::Failed
        } else {
            self.authentication_time = None;
            CallVerdict::RetryAfterLogin
        }
    }

    /// The address of the commands on the devices of `site`.
    fn command_address(&self, site: &str) -> (url: String)
        ensures
            url@ == command_url(self.base_url@, site@),
    {
        let mut url: String = join3(self.base_url.as_str(), "/s/", site);
        url.append("/cmd/stamgr");
        url
    }

    /// The command that lets the device `mac` onto `site` for `minutes`
    /// minutes.
    pub fn authorize_request(&self, site: &str, mac: &str, minutes: u16) -> (request:
        ControllerRequest)
        ensures
            request.is_authorize(self.base_url@, site@, mac@, minutes),
    {
        ControllerRequest {
            method: HttpMethod::Post,
            url: self.command_address(site),
            body: RequestBody::Authorize(DeviceAuthorization::new(String::from_str(mac), minutes)),
        }
    }

    /// The command that takes the access of the device `mac` on `site` away.
    pub fn unauthorize_request(&self, site: &str, mac: &str) -> (request: ControllerRequest)
        ensures
            request.is_unauthorize(self.base_url@, site@, mac@),
    {
        ControllerRequest {
            method: HttpMethod::Post,
            url: self.command_address(site),
            body: RequestBody::Unauthorize(DeviceUnauthorize::new(String::from_str(mac))),
        }
    }

    /// The command that drops the connection of the device `mac` on `site`.
    pub fn disconnect_request(&self, site: &str, mac: &str) -> (request: ControllerRequest)
        ensures
            request.is_disconnect(self.base_url@, site@, mac@),
    {
        ControllerRequest {
            method: HttpMethod::Post,
            url: self.command_address(site),
            body: RequestBody::Disconnect(DisconnectDevice::new(String::from_str(mac))),
        }
    }

    /// The request that names the entry `id` of `site` `name`.
    pub fn rename_request(&self, id: &str, site: &str, name: &str) -> (request: ControllerRequest)
        ensures
            request.is_rename(self.base_url@, site@, id@, name@),
    {
        let mut url: String = join3(self.base_url.as_str(), "/s/", site);
        url.append("/upd/user/");
        url.append(id);
        ControllerRequest {
            method: HttpMethod::Put,
            url,
            body: RequestBody::Rename { name: String::from_str(name) },
        }
    }

    /// The request for the guests' devices of `site`.
    pub fn guest_devices_request(&self, site: &str) -> (request: ControllerRequest)
        ensures
            request.is_listing(guests_url(self.base_url@, site@)),
    {
        let mut url: String = join3(self.base_url.as_str(), "/s/", site);
        url.append("/stat/guest");
        ControllerRequest { method: HttpMethod::Get, url, body: RequestBody::Empty }
    }

    /// The request for all devices of `site`.
    pub fn all_devices_request(&self, site: &str) -> (request: ControllerRequest)
        ensures
            request.is_listing(devices_url(self.base_url@, site@)),
    {
        let mut url: String = join3(self.base_url.as_str(), "/s/", site);
        url.append("/stat/sta");
        ControllerRequest { method: HttpMethod::Get, url, body: RequestBody::Empty }
    }

    /// Whether `after` is the session that a check at `now` of the session
    /// `self` leaves, and `login_first` what the check has found: the login
    /// has to come first just when the session is not good at `now`; a
    /// session that is good stays as it is, any other forgets its login.
    pub open spec fn checked_at(
        self,
        after: UnifiController,
        login_first: bool,
        now: Timestamp,
    ) -> bool {
        &&& login_first == !self.fresh_at(now)
        &&& after == if login_first {
            self.logged_out()
        } else {
            self
        }
    }

    /// Lets the device `mac` onto `site` for `minutes` minutes.
    /// The login has to come first just when the session is not good at
    /// `now`.
    pub fn authorize_device_at(&mut self, site: &String, mac: &String, minutes: &u16, now: Timestamp) -> (call: ControllerCall)
        ensures
            call.request.is_authorize(old(self).base_url@, site@, mac@, *minutes),
            old(self).checked_at(*final(self), call.login_first, now),
    {
        let request = self.authorize_request(site.as_str(), mac.as_str(), *minutes);
        self.prepare_at(request, now)
    }

    /// Lets the device `mac` onto `site` for `minutes` minutes.
    /// The session is checked at the present moment.
    pub fn authorize_device(&mut self, site: &String, mac: &String, minutes: &u16) -> (call: ControllerCall)
        ensures
            call.request.is_authorize(old(self).base_url@, site@, mac@, *minutes),
            exists|now: Timestamp|
                now.in_clock_range() && old(self).checked_at(
                    *final(self),
                    call.login_first,
                    now,
                ),
    {
        let now: Timestamp = Timestamp::now();
        self.authorize_device_at(site, mac, minutes, now)
    }

    /// Takes the access of the device `mac` on `site` away.
    /// The login has to come first just when the session is not good at
    /// `now`.
    pub fn unauthorize_device_at(&mut self, site: &String, mac: &String, now: Timestamp) -> (call: ControllerCall)
        ensures
            call.request.is_unauthorize(old(self).base_url@, site@, mac@),
            old(self).checked_at(*final(self), call.login_first, now),
    {
        let request = self.unauthorize_request(site.as_str(), mac.as_str());
        self.prepare_at(request, now)
    }

    /// Takes the access of the device `mac` on `site` away.
    /// The session is checked at the present moment.
    pub fn unauthorize_device(&mut self, site: &String, mac: &String) -> (call: ControllerCall)
        ensures
            call.request.is_unauthorize(old(self).base_url@, site@, mac@),
            exists|now: Timestamp|
                now.in_clock_range() && old(self).checked_at(
                    *final(self),
                    call.login_first,
                    now,
                ),
    {
        let now: Timestamp = Timestamp::now();
        self.unauthorize_device_at(site, mac, now)
    }

    /// Names the entry `id` of `site` `name`.
    /// The login has to come first just when the session is not good at
    /// `now`.
    pub fn rename_device_at(&mut self, id: String, site: String, name: String, now: Timestamp) -> (call: ControllerCall)
        ensures
            call.request.is_rename(old(self).base_url@, site@, id@, name@),
            old(self).checked_at(*final(self), call.login_first, now),
    {
        let request = self.rename_request(id.as_str(), site.as_str(), name.as_str());
        self.prepare_at(request, now)
    }

    /// Names the entry `id` of `site` `name`.
    /// The session is checked at the present moment.
    pub fn rename_device(&mut self, id: String, site: String, name: String) -> (call: ControllerCall)
        ensures
            call.request.is_rename(old(self).base_url@, site@, id@, name@),
            exists|now: Timestamp|
                now.in_clock_range() && old(self).checked_at(
                    *final(self),
                    call.login_first,
                    now,
                ),
    {
        let now: Timestamp = Timestamp::now();
        self.rename_device_at(id, site, name, now)
    }

    /// Asks for the guests' devices of `site`.
    /// The login has to come first just when the session is not good at
    /// `now`.
    pub fn get_guest_devices_at(&mut self, site: String, now: Timestamp) -> (call: ControllerCall)
        ensures
            call.request.is_listing(guests_url(old(self).base_url@, site@)),
            old(self).checked_at(*final(self), call.login_first, now),
    {
        let request = self.guest_devices_request(site.as_str());
        self.prepare_at(request, now)
    }

    /// Asks for the guests' devices of `site`.
    /// The session is checked at the present moment.
    pub fn get_guest_devices(&mut self, site: String) -> (call: ControllerCall)
        ensures
            call.request.is_listing(guests_url(old(self).base_url@, site@)),
            exists|now: Timestamp|
                now.in_clock_range() && old(self).checked_at(
                    *final(self),
                    call.login_first,
                    now,
                ),
    {
        let now: Timestamp = Timestamp::now();
        self.get_guest_devices_at(site, now)
    }

    /// Asks for all devices of `site`. Of the answer, [`select_devices`]
    /// keeps the guests' devices where only those are wanted.
    /// The login has to come first just when the session is not good at
    /// `now`.
    pub fn get_all_devices_at(&mut self, site: String, now: Timestamp) -> (call: ControllerCall)
        ensures
            call.request.is_listing(devices_url(old(self).base_url@, site@)),
            old(self).checked_at(*final(self), call.login_first, now),
    {
        let request = self.all_devices_request(site.as_str());
        self.prepare_at(request, now)
    }

    /// Asks for all devices of `site`. Of the answer, [`select_devices`]
    /// keeps the guests' devices where only those are wanted.
    /// The session is checked at the present moment.
    pub fn get_all_devices(&mut self, site: String) -> (call: ControllerCall)
        ensures
            call.request.is_listing(devices_url(old(self).base_url@, site@)),
            exists|now: Timestamp|
                now.in_clock_range() && old(self).checked_at(
                    *final(self),
                    call.login_first,
                    now,
                ),
    {
        let now: Timestamp = Timestamp::now();
        self.get_all_devices_at(site, now)
    }

    /// Drops the connection of the record's device.
    /// The login has to come first just when the session is not good at
    /// `now`.
    pub fn disconnect_client_at(&mut self, client: &Client, now: Timestamp) -> (call: ControllerCall)
        ensures
            call.request.is_disconnect(old(self).base_url@, client.site@, client.mac@),
            old(self).checked_at(*final(self), call.login_first, now),
    {
        let request = self.disconnect_request(client.site.as_str(), client.mac.as_str());
        self.prepare_at(request, now)
    }

    /// Drops the connection of the record's device.
    /// The session is checked at the present moment.
    pub fn disconnect_client(&mut self, client: &Client) -> (call: ControllerCall)
        ensures
            call.request.is_disconnect(old(self).base_url@, client.site@, client.mac@),
            exists|now: Timestamp|
                now.in_clock_range() && old(self).checked_at(
                    *final(self),
                    call.login_first,
                    now,
                ),
    {
        let now: Timestamp = Timestamp::now();
        self.disconnect_client_at(client, now)
    }

    /// Denies the record's device: its connection is dropped.
    /// The login has to come first just when the session is not good at
    /// `now`.
    pub fn reject_client_at(&mut self, client: &Client, now: Timestamp) -> (call: ControllerCall)
        ensures
            call.request.is_disconnect(old(self).base_url@, client.site@, client.mac@),
            old(self).checked_at(*final(self), call.login_first, now),
    {
        let request = self.disconnect_request(client.site.as_str(), client.mac.as_str());
        self.prepare_at(request, now)
    }

    /// Denies the record's device: its connection is dropped.
    /// The session is checked at the present moment.
    pub fn reject_client(&mut self, client: &Client) -> (call: ControllerCall)
        ensures
            call.request.is_disconnect(old(self).base_url@, client.site@, client.mac@),
            exists|now: Timestamp|
                now.in_clock_range() && old(self).checked_at(
                    *final(self),
                    call.login_first,
                    now,
                ),
    {
        let now: Timestamp = Timestamp::now();
        self.reject_client_at(client, now)
    }

    /// Connects the record's device: it is let onto the record's site for
    /// the minutes that the record grants. What the controller then lists of
    /// the site goes to [`UnifiController::rename_after_connect`].
    /// The login has to come first just when the session is not good at
    /// `now`.
    pub fn conect_client_at(&mut self, client: &Client, now: Timestamp) -> (call: ControllerCall)
        ensures
            call.request.is_authorize(
                old(self).base_url@,
                client.site@,
                client.mac@,
                client.time_connection,
            ),
            old(self).checked_at(*final(self), call.login_first, now),
    {
        let request = self.authorize_request(
            client.site.as_str(),
            client.mac.as_str(),
            client.time_connection,
        );
        self.prepare_at(request, now)
    }

    /// Connects the record's device: it is let onto the record's site for
    /// the minutes that the record grants. What the controller then lists of
    /// the site goes to [`UnifiController::rename_after_connect`].
    /// The session is checked at the present moment.
    pub fn conect_client(&mut self, client: &Client) -> (call: ControllerCall)
        ensures
            call.request.is_authorize(
                old(self).base_url@,
                client.site@,
                client.mac@,
                client.time_connection,
            ),
            exists|now: Timestamp|
                now.in_clock_range() && old(self).checked_at(
                    *final(self),
                    call.login_first,
                    now,
                ),
    {
        let now: Timestamp = Timestamp::now();
        self.conect_client_at(client, now)
    }

    /// Whether a device just connected for `client` is to be renamed: the
    /// controller lists a device with the record's hardware address, and the
    /// first such entry has an identifier and no name yet.
    pub open spec fn wants_rename(client: Client, devices: Seq<DeviceInfo>, i: int) -> bool {
        &&& is_first_with_mac(devices, client.mac@, i)
        &&& devices[i].name is None
        &&& devices[i].record_id is Some
    }

    /// The second step of connecting a device: the request that makes the
    /// controller show the person's name for it, in brackets. There is none
    /// where the controller does not list the device, has a name for it
    /// already, or gives no identifier for its entry.
    pub fn rename_after_connect(&self, client: &Client, devices: &[DeviceInfo]) -> (request:
        Option<ControllerRequest>)
        ensures
            match request {
                Some(r) => exists|i: int|
                    Self::wants_rename(*client, devices@, i) && r.is_rename(
                        self.base_url@,
                        client.site@,
                        devices@[i].record_id->0@,
                        display_name(client.full_name@),
                    ),
                None => forall|i: int| !Self::wants_rename(*client, devices@, i),
            },
    {
        match find_device(devices, client.mac.as_str()) {
            Some(i) => {
                let device: &DeviceInfo = &devices[i];
                assert forall|k: int| Self::wants_rename(*client, devices@, k) implies k
                    == i by {
                    if k < i {
                        assert(devices@[k].mac@ != client.mac@);
                    }
                    if i < k {
                        assert(devices@[i as int].mac@ != client.mac@);
                    }
                }
                if device.name.is_some() {
                    return None;
                }
                match &device.record_id {
                    Some(id) => {
                        let name: String = join3("(", client.full_name.as_str(), ")");
                        let r = self.rename_request(
                            id.as_str(),
                            client.site.as_str(),
                            name.as_str(),
                        );
                        assert(Self::wants_rename(*client, devices@, i as int));
                        Some(r)
                    },
                    None => None,
                }
            },
            None => {
                assert forall|k: int| !Self::wants_rename(*client, devices@, k) by {
                    if Self::wants_rename(*client, devices@, k) {
                        assert(knows_mac(devices@, client.mac@));
                    }
                }
                None
            },
        }
    }
}

/// A command is sent twice at most: a try that follows a try is never
/// answered with another, and a session that has forgotten its login is not
/// good at any moment, so that the second try logs in first.
pub proof fn lemma_one_retry(session: UnifiController, answer: Option<u16>, now: Timestamp)
    ensures
        verdict_of(answer, true) != CallVerdict::RetryAfterLogin,
        verdict_of(answer, false) != CallVerdict::Failed,
        !session.logged_out().fresh_at(now),
{
}

/// The command that lets a device onto a site depends on the address of the
/// controller, the site, the device and the minutes alone: asking twice
/// sends the same command twice.
pub proof fn lemma_authorize_repeats(
    first: ControllerRequest,
    second: ControllerRequest,
    base: Seq<char>,
    site: Seq<char>,
    mac: Seq<char>,
    minutes: u16,
)
    requires
        first.is_authorize(base, site, mac, minutes),
        second.is_authorize(base, site, mac, minutes),
    ensures
        first.method == second.method,
        first.url@ == second.url@,
        first.body->Authorize_0.cmd@ == second.body->Authorize_0.cmd@,
        first.body->Authorize_0.mac->0@ == second.body->Authorize_0.mac->0@,
        first.body->Authorize_0.minutes == second.body->Authorize_0.minutes,
{
}

} // verus!
