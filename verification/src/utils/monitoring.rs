//! The two passes that bring the local records in step with the world: one
//! with what the controller tells of the devices, one with who is in the
//! groups of the directory.
//!
//! A pass works on what the caller has read and returns what the caller has
//! to write; the writes are independent of each other.

use crate::configurations::config::{ApproversConfig, ClientsConfig, LdapConfig};
use crate::ldap::ldap::LdapUser;
use crate::model::entity::admin::Admin;
use crate::model::entity::approver::{validity_for, Approver};
use crate::model::entity::client::{Client, ClientStatus};
use crate::model::entity::user::User;
use crate::security::approval_code::issue_code_at;
use crate::security::hashing::{is_marked, matches_hash, HashError};
use crate::unifi::unifi::{find_device, is_first_with_mac, knows_mac, DeviceInfo};
use crate::utils::clock::{Timestamp, MAX_DAYS, SECONDS_PER_HOUR};
use crate::utils::generator::is_code;
use crate::utils::membership::{
    diff_members, lemma_absent_account_is_stale, lemma_unknown_member_is_missing, missing_members,
    rising_below, stale_accounts, LocalAccount, MemberDiff,
};
use crate::utils::seqs::{
    lemma_filter_agree, lemma_filter_empty, lemma_filter_members, lemma_filter_step,
};
use crate::utils::text::same_text;
use vstd::prelude::*;

verus! {

/// Keeps the access records in step with the controller.
pub struct ClientsMonitoring {
    pub config: ClientsConfig,
}

/// What the controller answered when asked for the devices of a site;
/// `devices` is `None` where it gave no answer.
#[derive(Debug)]
pub struct SiteReport {
    pub site: String,
    pub devices: Option<Vec<DeviceInfo>>,
}

/// What one pass over the access records leaves to do.
#[derive(Debug)]
pub struct Reconciliation {
    /// The identifiers of the records to delete, which are too old.
    pub deleted: Vec<String>,
    /// The records that stay, as they are after the pass.
    pub remaining: Vec<Client>,
    /// The places in `remaining` of the records that the pass has changed
    /// and that are to be stored again, in rising order.
    pub changed: Vec<usize>,
}

/// The age of the record at `now`, in seconds: the time from its start to
/// `now`, below 0 for a record that starts after `now`.
pub open spec fn age_at(client: Client, now: Timestamp) -> int {
    now.secs - client.start_time.secs
}

/// Whether the age of the record at `now` exceeds `max_time` hours. A
/// record of exactly that age is not too old, nor is one that starts after
/// `now`.
pub open spec fn too_old(client: Client, max_time: usize, now: Timestamp) -> bool {
    age_at(client, now) > max_time * SECONDS_PER_HOUR
}

/// The record once it has taken over what the controller tells of its
/// device: it is expired where the controller reports that the device's
/// authorization has ended, and the host name and the byte counters are the
/// controller's where the controller gives them. Where the controller says
/// nothing of the authorization the status stays.
pub open spec fn merged(client: Client, device: DeviceInfo) -> Client {
    Client {
        status: if device.has_expired() {
            ClientStatus::Expired
        } else {
            client.status
        },
        hostname: if device.hostname is Some {
            device.hostname
        } else {
            client.hostname
        },
        rx_bytes: if device.rx_bytes is Some {
            device.rx_bytes
        } else {
            client.rx_bytes
        },
        tx_bytes: if device.tx_bytes is Some {
            device.tx_bytes
        } else {
            client.tx_bytes
        },
        ..client
    }
}

/// The device that speaks for a hardware address: the first in the list
/// that has it.
pub open spec fn device_of(devices: Seq<DeviceInfo>, mac: Seq<char>) -> DeviceInfo {
    devices[choose|i: int| is_first_with_mac(devices, mac, i)]
}

/// The record after a look at the devices of its site. Only an approved
/// record whose device the controller lists changes.
pub open spec fn synced(client: Client, devices: Seq<DeviceInfo>) -> Client {
    if client.status is Approved && knows_mac(devices, client.mac@) {
        merged(client, device_of(devices, client.mac@))
    } else {
        client
    }
}

/// Whether `i` is the place of the first report on `site`.
pub open spec fn is_first_report(reports: Seq<SiteReport>, site: Seq<char>, i: int) -> bool {
    &&& 0 <= i < reports.len()
    &&& reports[i].site@ == site
    &&& forall|j: int| 0 <= j < i ==> reports[j].site@ != site
}

/// Whether there is a report on `site`.
pub open spec fn reported(reports: Seq<SiteReport>, site: Seq<char>) -> bool {
    exists|i: int| 0 <= i < reports.len() && reports[i].site@ == site
}

/// The devices that the controller listed for `site`: those of the first
/// report on it. `None` where there is no report or the controller gave no
/// answer.
pub open spec fn devices_of_site(reports: Seq<SiteReport>, site: Seq<char>) -> Option<
    Seq<DeviceInfo>,
> {
    if reported(reports, site) {
        match reports[choose|i: int| is_first_report(reports, site, i)].devices {
            Some(devices) => Some(devices@),
            None => None,
        }
    } else {
        None
    }
}

/// The record after a pass with `reports`: in step with the devices of its
/// site where the controller listed them, else as it was.
pub open spec fn reconciled(client: Client, reports: Seq<SiteReport>) -> Client {
    match devices_of_site(reports, client.site@) {
        Some(devices) => synced(client, devices),
        None => client,
    }
}

/// A text that may be absent, as a sequence of characters.
pub open spec fn text_of(text: Option<String>) -> Option<Seq<char>> {
    match text {
        Some(t) => Some(t@),
        None => None,
    }
}

/// Whether what a pass looks after reads the same in both records.
pub open spec fn same_report(a: Client, b: Client) -> bool {
    &&& a.status == b.status
    &&& text_of(a.hostname) == text_of(b.hostname)
    &&& a.rx_bytes == b.rx_bytes
    &&& a.tx_bytes == b.tx_bytes
}

/// The sites of the records, each once, in the order in which they first
/// occur.
pub open spec fn distinct_sites(clients: Seq<Client>) -> Seq<Seq<char>>
    decreases clients.len(),
{
    if clients.len() == 0 {
        Seq::empty()
    } else {
        let before = distinct_sites(clients.drop_last());
        if before.contains(clients.last().site@) {
            before
        } else {
            before.push(clients.last().site@)
        }
    }
}

/// The texts as sequences of characters.
pub open spec fn texts(items: Seq<String>) -> Seq<Seq<char>> {
    items.map_values(|s: String| s@)
}

/// The identifiers of the records.
pub open spec fn ids_of(clients: Seq<Client>) -> Seq<String> {
    clients.map_values(|c: Client| c.id)
}

/// Whichever first device with a hardware address one has found, it is the
/// one that speaks for the address.
pub proof fn lemma_device_of(devices: Seq<DeviceInfo>, mac: Seq<char>, i: int)
    requires
        is_first_with_mac(devices, mac, i),
    ensures
        knows_mac(devices, mac),
        device_of(devices, mac) == devices[i],
{
    let j = choose|j: int| is_first_with_mac(devices, mac, j);
    assert(is_first_with_mac(devices, mac, j));
    if j < i {
        assert(devices[j].mac@ != mac);
    }
    if i < j {
        assert(devices[i].mac@ != mac);
    }
}

/// Whichever first report on a site one has found, its devices are the
/// devices of the site.
pub proof fn lemma_devices_of_site(reports: Seq<SiteReport>, site: Seq<char>, i: int)
    requires
        is_first_report(reports, site, i),
    ensures
        devices_of_site(reports, site) == match reports[i].devices {
            Some(devices) => Some(devices@),
            None => None,
        },
{
    let j = choose|j: int| is_first_report(reports, site, j);
    assert(is_first_report(reports, site, j));
    if j < i {
        assert(reports[j].site@ != site);
    }
    if i < j {
        assert(reports[i].site@ != site);
    }
}

/// The place of the first report on `site`.
pub fn find_report(reports: &Vec<SiteReport>, site: &str) -> (found: Option<usize>)
    ensures
        match found {
            Some(i) => is_first_report(reports@, site@, i as int),
            None => !reported(reports@, site@),
        },
{
    let mut i: usize = 0;
    while i < reports.len()
        invariant
            i <= reports.len(),
            forall|j: int| 0 <= j < i ==> reports@[j].site@ != site@,
        decreases reports.len() - i,
    {
        if same_text(reports[i].site.as_str(), site) {
            return Some(i);
        }
        i += 1;
    }
    None
}

/// Whether `site` is among `sites`.
fn has_site(sites: &Vec<String>, site: &str) -> (b: bool)
    ensures
        b == texts(sites@).contains(site@),
{
    let mut i: usize = 0;
    while i < sites.len()
        invariant
            i <= sites.len(),
            forall|j: int| 0 <= j < i ==> sites@[j]@ != site@,
        decreases sites.len() - i,
    {
        if same_text(sites[i].as_str(), site) {
            assert(texts(sites@)[i as int] == site@);
            return true;
        }
        i += 1;
    }
    assert forall|j: int| 0 <= j < texts(sites@).len() implies texts(sites@)[j] != site@ by {
        assert(texts(sites@)[j] == sites@[j]@);
    }
    false
}

/// Brings one record in step with the devices of its site and tells whether
/// that changed it.
pub fn sync_client(client: &mut Client, devices: &[DeviceInfo]) -> (changed: bool)
    ensures
        *final(client) == synced(*old(client), devices@),
        changed == !same_report(*old(client), *final(client)),
{
    match client.status {
        ClientStatus::Approved => {},
        _ => {
            return false;
        },
    }
    match find_device(devices, client.mac.as_str()) {
        Some(i) => {
            proof {
                lemma_device_of(devices@, client.mac@, i as int);
            }
            let device: &DeviceInfo = &devices[i];
            let mut changed: bool = false;
            if device.is_expired() {
                client.status = ClientStatus::Expired;
                changed = true;
            }
            if let Some(name) = &device.hostname {
                let differs: bool = match &client.hostname {
                    Some(had) => !same_text(had.as_str(), name.as_str()),
                    None => true,
                };
                client.hostname = Some(name.clone());
                changed = changed || differs;
            }
            if let Some(n) = device.rx_bytes {
                let differs: bool = match client.rx_bytes {
                    Some(had) => had != n,
                    None => true,
                };
                client.rx_bytes = Some(n);
                changed = changed || differs;
            }
            if let Some(n) = device.tx_bytes {
                let differs: bool = match client.tx_bytes {
                    Some(had) => had != n,
                    None => true,
                };
                client.tx_bytes = Some(n);
                changed = changed || differs;
            }
            changed
        },
        None => false,
    }
}

impl ClientsMonitoring {
    pub fn new(config: ClientsConfig) -> (monitoring: Self)
        ensures
            monitoring.config == config,
    {
        Self { config }
    }

    /// Whether a pass at `now` keeps the record: it does unless the settings
    /// name a greatest age and the record's age exceeds it.
    pub open spec fn keeps(self, client: Client, now: Timestamp) -> bool {
        match self.config.expiration_time {
            Some(max_time) => !too_old(client, max_time, now),
            None => true,
        }
    }

    /// The records that a pass at `now` keeps.
    pub open spec fn surviving(self, clients: Seq<Client>, now: Timestamp) -> Seq<Client> {
        clients.filter(|c: Client| self.keeps(c, now))
    }

    /// The records that a pass at `now` deletes.
    pub open spec fn outdated(self, clients: Seq<Client>, now: Timestamp) -> Seq<Client> {
        clients.filter(|c: Client| !self.keeps(c, now))
    }

    /// The sites of the records, each once, in the order in which they first
    /// occur: the sites whose devices a pass has to ask the controller for.
    pub fn sites(&self, clients: &Vec<Client>) -> (sites: Vec<String>)
        ensures
            texts(sites@) == distinct_sites(clients@),
    {
        let mut sites: Vec<String> = Vec::new();
        let mut i: usize = 0;
        assert(texts(sites@) == distinct_sites(clients@.subrange(0, 0)));
        while i < clients.len()
            invariant
                i <= clients.len(),
                texts(sites@) == distinct_sites(clients@.subrange(0, i as int)),
            decreases clients.len() - i,
        {
            let ghost next = clients@.subrange(0, i + 1);
            assert(next.drop_last() == clients@.subrange(0, i as int));
            assert(next.last() == clients@[i as int]);
            if !has_site(&sites, clients[i].site.as_str()) {
                let ghost before = texts(sites@);
                sites.push(clients[i].site.clone());
                assert(texts(sites@) == before.push(clients@[i as int].site@));
            }
            i += 1;
        }
        assert(clients@.subrange(0, clients@.len() as int) == clients@);
        sites
    }

    /// Takes the records whose age at `now` exceeds `max_time` hours out of
    /// `clients` and returns their identifiers, for the caller to delete
    /// them. The other records stay, in their order.
    pub fn delete_client_registration_expired_at(
        &self,
        clients: &mut Vec<Client>,
        max_time: usize,
        now: Timestamp,
    ) -> (deleted: Vec<String>)
        ensures
            final(clients)@ == old(clients)@.filter(|c: Client| !too_old(c, max_time, now)),
            deleted@ == ids_of(old(clients)@.filter(|c: Client| too_old(c, max_time, now))),
    {
        let ghost all = clients@;
        let ghost keep = |c: Client| !too_old(c, max_time, now);
        let ghost gone = |c: Client| too_old(c, max_time, now);
        let ghost mut k: int = 0;
        let mut deleted: Vec<String> = Vec::new();
        let mut i: usize = 0;
        proof {
            lemma_filter_empty(all.subrange(0, 0), keep);
            lemma_filter_empty(all.subrange(0, 0), gone);
            assert(clients@.subrange(0, 0) == all.subrange(0, 0).filter(keep));
            assert(clients@.subrange(0, clients@.len() as int) == all.subrange(
                0,
                all.len() as int,
            ));
            assert(deleted@ == ids_of(all.subrange(0, 0).filter(gone)));
        }
        while i < clients.len()
            invariant
                0 <= k <= all.len(),
                i <= clients@.len(),
                clients@.len() - i == all.len() - k,
                keep == (|c: Client| !too_old(c, max_time, now)),
                gone == (|c: Client| too_old(c, max_time, now)),
                clients@.subrange(0, i as int) == all.subrange(0, k).filter(keep),
                clients@.subrange(i as int, clients@.len() as int) == all.subrange(
                    k,
                    all.len() as int,
                ),
                deleted@ == ids_of(all.subrange(0, k).filter(gone)),
            decreases clients@.len() - i,
        {
            let ghost before = clients@;
            proof {
                lemma_filter_step(all, keep, k);
                lemma_filter_step(all, gone, k);
                assert(before.subrange(i as int, before.len() as int)[0] == all.subrange(
                    k,
                    all.len() as int,
                )[0]);
                assert(before[i as int] == all[k]);
            }
            let age: i128 = now.secs as i128 - clients[i].start_time.secs as i128;
            let old_enough: bool = age > max_time as i128 * 3_600;
            if old_enough {
                let removed: Client = clients.remove(i);
                let ghost ids = deleted@;
                deleted.push(removed.id);
                proof {
                    assert(clients@ == before.remove(i as int));
                    assert(clients@.subrange(0, i as int) == before.subrange(0, i as int));
                    assert(clients@.subrange(i as int, clients@.len() as int)
                        == before.subrange(i as int, before.len() as int).subrange(
                        1,
                        before.len() - i,
                    ));
                    assert(all.subrange(k, all.len() as int).subrange(1, all.len() - k)
                        == all.subrange(k + 1, all.len() as int));
                    assert(deleted@ == ids.push(all[k].id));
                    assert(ids_of(all.subrange(0, k).filter(gone).push(all[k])) == ids_of(
                        all.subrange(0, k).filter(gone),
                    ).push(all[k].id));
                    k = k + 1;
                }
            } else {
                proof {
                    assert(clients@.subrange(0, i + 1) == clients@.subrange(0, i as int).push(
                        clients@[i as int],
                    ));
                    assert(clients@.subrange(i + 1, clients@.len() as int) == clients@.subrange(
                        i as int,
                        clients@.len() as int,
                    ).subrange(1, clients@.len() - i));
                    assert(all.subrange(k, all.len() as int).subrange(1, all.len() - k)
                        == all.subrange(k + 1, all.len() as int));
                    k = k + 1;
                }
                i += 1;
            }
        }
        proof {
            assert(clients@.subrange(0, clients@.len() as int) == clients@);
            assert(all.subrange(0, all.len() as int) == all);
        }
        deleted
    }

    /// Takes the records whose age at the present moment exceeds `max_time`
    /// hours out of `clients` and returns their identifiers.
    pub fn delete_client_registration_expired(
        &self,
        clients: &mut Vec<Client>,
        max_time: usize,
    ) -> (deleted: Vec<String>)
        ensures
            exists|now: Timestamp|
                now.in_clock_range() && final(clients)@ == old(clients)@.filter(
                    |c: Client| !too_old(c, max_time, now),
                ) && deleted@ == ids_of(
                    old(clients)@.filter(|c: Client| too_old(c, max_time, now)),
                ),
    {
        let now: Timestamp = Timestamp::now();
        self.delete_client_registration_expired_at(clients, max_time, now)
    }

    /// Brings every record in step with `devices`: an approved record whose
    /// device is listed becomes expired where the controller reports that
    /// the device's authorization has ended, and takes over the host name
    /// and the byte counters that the controller gives. Of several devices
    /// with the record's hardware address the first in the list counts.
    /// Every other record stays as it is.
    pub fn check_and_update_client_fields(&self, clients: &mut Vec<Client>, devices: &[DeviceInfo])
        ensures
            final(clients)@.len() == old(clients)@.len(),
            forall|i: int|
                0 <= i < old(clients)@.len() ==> final(clients)@[i] == synced(
                    old(clients)@[i],
                    devices@,
                ),
    {
        let ghost before = clients@;
        let mut i: usize = 0;
        while i < clients.len()
            invariant
                i <= clients@.len(),
                clients@.len() == before.len(),
                forall|j: int| 0 <= j < i ==> clients@[j] == synced(before[j], devices@),
                forall|j: int| i <= j < before.len() ==> clients@[j] == before[j],
            decreases clients@.len() - i,
        {
            let _ = sync_client(&mut clients[i], devices);
            i += 1;
        }
    }
}

impl ClientsMonitoring {
    /// What a pass at `now` over `clients` has to say, given what the
    /// controller reported of their sites.
    pub open spec fn passed(
        self,
        clients: Seq<Client>,
        reports: Seq<SiteReport>,
        now: Timestamp,
        out: Reconciliation,
    ) -> bool {
        let kept = self.surviving(clients, now);
        &&& out.deleted@ == ids_of(self.outdated(clients, now))
        &&& out.remaining@.len() == kept.len()
        &&& forall|i: int|
            0 <= i < kept.len() ==> #[trigger] out.remaining@[i] == reconciled(kept[i], reports)
        &&& forall|a: int, b: int|
            0 <= a < b < out.changed@.len() ==> out.changed@[a] < out.changed@[b]
        &&& forall|a: int| 0 <= a < out.changed@.len() ==> out.changed@[a] < kept.len()
        &&& forall|i: int|
            0 <= i < kept.len() ==> (out.changed@.contains(i as usize) <==> !same_report(
                kept[i],
                #[trigger] out.remaining@[i],
            ))
    }

    /// One pass at `now`. Records whose age exceeds the greatest age of the
    /// settings are taken out and their identifiers returned for deletion,
    /// whatever the controller says. Every record that stays is brought in
    /// step with the devices that the controller listed for its site; where
    /// the controller gave no answer for a site, the records of the site
    /// stay as they are.
    pub fn all_at(&self, clients: Vec<Client>, reports: &Vec<SiteReport>, now: Timestamp) -> (out:
        Reconciliation)
        ensures
            self.passed(clients@, reports@, now, out),
    {
        let ghost kept = self.surviving(clients@, now);
        let mut remaining: Vec<Client> = clients;
        let deleted: Vec<String> = match self.config.expiration_time {
            Some(max_time) => {
                proof {
                    lemma_filter_agree(
                        clients@,
                        |c: Client| !too_old(c, max_time, now),
                        |c: Client| self.keeps(c, now),
                    );
                    lemma_filter_agree(
                        clients@,
                        |c: Client| too_old(c, max_time, now),
                        |c: Client| !self.keeps(c, now),
                    );
                }
                self.delete_client_registration_expired_at(&mut remaining, max_time, now)
            },
            None => {
                proof {
                    lemma_filter_agree(
                        clients@,
                        |c: Client| self.keeps(c, now),
                        |c: Client| self.keeps(c, now),
                    );
                    lemma_filter_agree(
                        clients@,
                        |c: Client| !self.keeps(c, now),
                        |c: Client| !self.keeps(c, now),
                    );
                    assert(ids_of(self.outdated(clients@, now)) == Seq::<String>::empty());
                }
                Vec::new()
            },
        };
        assert(remaining@ == kept);
        assert(deleted@ == ids_of(self.outdated(clients@, now)));
        let mut changed: Vec<usize> = Vec::new();
        let mut i: usize = 0;
        while i < remaining.len()
            invariant
                i <= remaining@.len(),
                remaining@.len() == kept.len(),
                forall|j: int| 0 <= j < i ==> #[trigger] remaining@[j] == reconciled(
                    kept[j],
                    reports@,
                ),
                forall|j: int| i <= j < kept.len() ==> remaining@[j] == kept[j],
                forall|a: int, b: int| 0 <= a < b < changed@.len() ==> changed@[a] < changed@[b],
                forall|a: int| 0 <= a < changed@.len() ==> changed@[a] < i,
                forall|j: int|
                    0 <= j < i ==> (changed@.contains(j as usize) <==> !same_report(
                        kept[j],
                        #[trigger] remaining@[j],
                    )),
            decreases remaining@.len() - i,
        {
            let ghost marks = changed@;
            let mut touched: bool = false;
            match find_report(reports, remaining[i].site.as_str()) {
                Some(r) => {
                    proof {
                        lemma_devices_of_site(reports@, remaining@[i as int].site@, r as int);
                    }
                    match &reports[r].devices {
                        Some(devices) => {
                            touched = sync_client(&mut remaining[i], devices.as_slice());
                        },
                        None => {},
                    }
                },
                None => {},
            }
            if touched {
                changed.push(i);
            }
            proof {
                assert forall|j: int| 0 <= j < i + 1 implies (changed@.contains(j as usize)
                    <==> !same_report(kept[j], #[trigger] remaining@[j])) by {
                    if j < i {
                        if marks.contains(j as usize) {
                            let a = choose|a: int| 0 <= a < marks.len() && marks[a] == j as usize;
                            assert(changed@[a] == j as usize);
                        }
                        if changed@.contains(j as usize) {
                            let a = choose|a: int|
                                0 <= a < changed@.len() && changed@[a] == j as usize;
                            assert(marks[a] == j as usize);
                        }
                    } else {
                        if touched {
                            assert(changed@[changed@.len() - 1] == i);
                        } else {
                            if changed@.contains(j as usize) {
                                let a = choose|a: int|
                                    0 <= a < changed@.len() && changed@[a] == j as usize;
                                assert(changed@[a] < i);
                            }
                        }
                    }
                }
            }
            i += 1;
        }
        Reconciliation { deleted, remaining, changed }
    }

    /// One pass at the present moment.
    pub fn all(&self, clients: Vec<Client>, reports: &Vec<SiteReport>) -> (out: Reconciliation)
        ensures
            exists|now: Timestamp|
                now.in_clock_range() && self.passed(clients@, reports@, now, out),
    {
        let now: Timestamp = Timestamp::now();
        self.all_at(clients, reports, now)
    }
}

/// A pass changes nothing of a record but its status, its host name and its
/// byte counters; the status changes only from approved to expired; and a
/// well-formed record stays well-formed.
pub proof fn lemma_pass_keeps_identity(client: Client, reports: Seq<SiteReport>)
    ensures
        reconciled(client, reports) == (Client {
            status: reconciled(client, reports).status,
            hostname: reconciled(client, reports).hostname,
            rx_bytes: reconciled(client, reports).rx_bytes,
            tx_bytes: reconciled(client, reports).tx_bytes,
            ..client
        }),
        reconciled(client, reports).status == client.status || (client.status is Approved
            && reconciled(client, reports).status is Expired),
        reconciled(client, reports).status == client.status || client.status.can_become(
            reconciled(client, reports).status,
        ),
        client.well_formed() ==> reconciled(client, reports).well_formed(),
{
}

/// An approved record that a pass keeps, and whose device the controller
/// lists as expired, is expired after the pass, with the host name and the
/// byte counters that the controller gives for the device.
pub proof fn lemma_pass_expires_access(
    monitoring: ClientsMonitoring,
    clients: Seq<Client>,
    reports: Seq<SiteReport>,
    now: Timestamp,
    i: int,
    r: int,
    d: int,
)
    requires
        0 <= i < clients.len(),
        monitoring.keeps(clients[i], now),
        clients[i].status is Approved,
        is_first_report(reports, clients[i].site@, r),
        reports[r].devices is Some,
        is_first_with_mac(reports[r].devices->0@, clients[i].mac@, d),
        reports[r].devices->0@[d].expired == Some(true),
    ensures
        monitoring.surviving(clients, now).contains(clients[i]),
        reconciled(clients[i], reports).status is Expired,
        ({
            let device = reports[r].devices->0@[d];
            let after = reconciled(clients[i], reports);
            &&& device.hostname is Some ==> after.hostname == device.hostname
            &&& device.rx_bytes is Some ==> after.rx_bytes == device.rx_bytes
            &&& device.tx_bytes is Some ==> after.tx_bytes == device.tx_bytes
            &&& device.hostname is None ==> after.hostname == clients[i].hostname
            &&& device.rx_bytes is None ==> after.rx_bytes == clients[i].rx_bytes
            &&& device.tx_bytes is None ==> after.tx_bytes == clients[i].tx_bytes
        }),
{
    lemma_filter_members(clients, |c: Client| monitoring.keeps(c, now));
    assert(clients.contains(clients[i]));
    lemma_devices_of_site(reports, clients[i].site@, r);
    lemma_device_of(reports[r].devices->0@, clients[i].mac@, d);
}

/// A record whose age exceeds the greatest age of the settings is gone
/// after a pass, whatever its status: it is not among the records that
/// stay, and its identifier is among those to delete. No record that stays
/// is older than that.
pub proof fn lemma_pass_deletes_old(
    monitoring: ClientsMonitoring,
    clients: Seq<Client>,
    now: Timestamp,
    max_time: usize,
    i: int,
)
    requires
        0 <= i < clients.len(),
        monitoring.config.expiration_time == Some(max_time),
        too_old(clients[i], max_time, now),
    ensures
        !monitoring.surviving(clients, now).contains(clients[i]),
        ids_of(monitoring.outdated(clients, now)).contains(clients[i].id),
        forall|k: int|
            0 <= k < monitoring.surviving(clients, now).len() ==> !too_old(
                #[trigger] monitoring.surviving(clients, now)[k],
                max_time,
                now,
            ),
{
    let keep = |c: Client| monitoring.keeps(c, now);
    let gone = |c: Client| !monitoring.keeps(c, now);
    lemma_filter_members(clients, keep);
    lemma_filter_members(clients, gone);
    assert(clients.contains(clients[i]));
    let out = monitoring.outdated(clients, now);
    assert(out.contains(clients[i]));
    let k = choose|k: int| 0 <= k < out.len() && out[k] == clients[i];
    assert(ids_of(out)[k] == clients[i].id);
    assert forall|k: int| 0 <= k < monitoring.surviving(clients, now).len() implies !too_old(
        #[trigger] monitoring.surviving(clients, now)[k],
        max_time,
        now,
    ) by {
        let kept = monitoring.surviving(clients, now);
        assert(kept.contains(kept[k]));
    }
}

/// Keeps the records of administrators, approvers and users who log in at
/// the directory in step with the groups of the directory. Records with a
/// password of their own are never touched.
pub struct LdapMonitoring {
    pub config: LdapConfig,
}

/// What a pass over the approvers leaves to do.
#[derive(Debug)]
pub struct ApproverSync {
    /// One entry for each member who needs a record, in the order of the
    /// members: the record to store, or the reason why no code could be
    /// issued for it.
    pub create: Vec<Result<Approver, HashError>>,
    /// The identifiers of the records to delete.
    pub delete: Vec<String>,
}

/// What a pass over the users leaves to do.
#[derive(Debug)]
pub struct UserSync {
    /// The records to store, one for each member who needs one.
    pub create: Vec<User>,
    /// The identifiers of the records to delete.
    pub delete: Vec<String>,
}

/// What a pass over the administrators leaves to do.
#[derive(Debug)]
pub struct AdminSync {
    /// The records to store, one for each member who needs one.
    pub create: Vec<Admin>,
    /// The identifiers of the records to delete.
    pub delete: Vec<String>,
}

/// The members of the groups that the directory answered for, group after
/// group.
pub open spec fn resolved_members(groups: Seq<Option<Vec<LdapUser>>>) -> Seq<LdapUser>
    decreases groups.len(),
{
    if groups.len() == 0 {
        Seq::empty()
    } else {
        let first = match groups[0] {
            Some(members) => members@,
            None => Seq::empty(),
        };
        first + resolved_members(groups.subrange(1, groups.len() as int))
    }
}

/// What the comparison with the directory reads of the approvers.
pub open spec fn approver_accounts(local: Seq<Approver>) -> Seq<LocalAccount> {
    local.map_values(|a: Approver| a.as_account())
}

/// What the comparison with the directory reads of the users.
pub open spec fn user_accounts(local: Seq<User>) -> Seq<LocalAccount> {
    local.map_values(|u: User| u.as_account())
}

/// What the comparison with the directory reads of the administrators.
pub open spec fn admin_accounts(local: Seq<Admin>) -> Seq<LocalAccount> {
    local.map_values(|a: Admin| a.as_account())
}

/// Whether `approver` is the record that the member `member` gets at `now`:
/// not yet stored, without a password, with the hash, and not the text, of
/// a freshly drawn code of the shape that the settings ask for, with the validity of a
/// code issued at `now`, and with the kind of access that the settings
/// give to such approvers.
pub open spec fn enrolled(
    approver: Approver,
    member: LdapUser,
    config: ApproversConfig,
    now: Timestamp,
) -> bool {
    &&& approver.id@.len() == 0
    &&& approver.username == member.username
    &&& approver.email == member.email
    &&& approver.directory_backed()
    &&& approver.validity == validity_for(config.validity_days_code as int, now)
    &&& is_marked(approver.secret_code@)
    &&& exists|code: Seq<char>|
        is_code(code, config.code_size as nat, config.just_numbers) && matches_hash(
            code,
            approver.secret_code@,
        ) && approver.secret_code@ != code
    &&& match config.default_type {
        Some(kind) => approver.approved_types@.len() == 1 && approver.approved_types@[0] == kind,
        None => approver.approved_types@.len() == 0,
    }
}

impl LdapMonitoring {
    pub fn new(config: LdapConfig) -> (monitoring: Self)
        ensures
            monitoring.config == config,
    {
        Self { config }
    }

    /// Puts together the members of the groups that the directory answered
    /// for; a group for which it gave no answer (`None`) adds nobody.
    pub fn resolved(groups: Vec<Option<Vec<LdapUser>>>) -> (members: Vec<LdapUser>)
        ensures
            members@ == resolved_members(groups@),
    {
        let mut groups = groups;
        let ghost all = groups@;
        let mut members: Vec<LdapUser> = Vec::new();
        while groups.len() > 0
            invariant
                members@ + resolved_members(groups@) == resolved_members(all),
            decreases groups@.len(),
        {
            let ghost before = groups@;
            let ghost had = members@;
            let group: Option<Vec<LdapUser>> = groups.remove(0);
            proof {
                assert(groups@ == before.subrange(1, before.len() as int));
                assert(group == before[0]);
            }
            match group {
                Some(mut listed) => {
                    let ghost added = listed@;
                    members.append(&mut listed);
                    assert(members@ + resolved_members(groups@) == had + (added + resolved_members(
                        groups@,
                    )));
                },
                None => {
                    assert(Seq::<LdapUser>::empty() + resolved_members(groups@)
                        == resolved_members(groups@));
                },
            }
        }
        assert(members@ + Seq::<LdapUser>::empty() == members@);
        members
    }

    /// The record that the member `member` gets at `now`, with a freshly
    /// issued code; the error where no code could be issued.
    pub fn enroll_at(member: &LdapUser, config: &ApproversConfig, now: Timestamp) -> (r: Result<
        Approver,
        HashError,
    >)
        requires
            now.in_clock_range(),
            config.validity_days_code <= MAX_DAYS,
        ensures
            r matches Ok(approver) ==> enrolled(approver, *member, *config, now),
    {
        let mut approver: Approver = Approver::new_wiht_ldap_user(member);
        if let Some(kind) = &config.default_type {
            approver.approved_types.push(kind.clone());
        }
        let days: i64 = config.validity_days_code as i64;
        match issue_code_at(&mut approver, config.code_size, config.just_numbers, days, now) {
            Ok(code) => {
                assert(is_code(code@, config.code_size as nat, config.just_numbers)
                    && matches_hash(code@, approver.secret_code@) && approver.secret_code@
                    != code@);
                Ok(approver)
            },
            Err(e) => Err(e),
        }
    }

    /// What a pass at `now` over the approvers has to say.
    pub open spec fn approvers_scanned(
        local: Seq<Approver>,
        members: Seq<LdapUser>,
        config: ApproversConfig,
        now: Timestamp,
        plan: ApproverSync,
    ) -> bool {
        let missing = missing_members(approver_accounts(local), members);
        &&& plan.delete@ == stale_accounts(approver_accounts(local), members)
        &&& plan.create@.len() == missing.len()
        &&& rising_below(missing, members.len())
        &&& forall|k: int|
            0 <= k < missing.len() ==> (#[trigger] plan.create@[k] matches Ok(approver)
                ==> enrolled(approver, members[missing[k] as int], config, now))
    }

    /// One pass at `now` over the approvers. `local` are the stored
    /// records, `members` the members of the approvers' groups. Each member
    /// accounts for the first record without a password that bears the
    /// member's user name and that no member before has accounted for; a
    /// member who finds no such record gets a new one, with a code issued at
    /// `now`. The records without a password that no member has accounted
    /// for are to be deleted.
    pub fn scan_approvers_at(
        &self,
        local: &Vec<Approver>,
        members: &Vec<LdapUser>,
        config: &ApproversConfig,
        now: Timestamp,
    ) -> (plan: ApproverSync)
        requires
            now.in_clock_range(),
            config.validity_days_code <= MAX_DAYS,
        ensures
            Self::approvers_scanned(local@, members@, *config, now, plan),
    {
        let mut accounts: Vec<LocalAccount> = Vec::new();
        let mut i: usize = 0;
        while i < local.len()
            invariant
                i <= local@.len(),
                accounts@ == approver_accounts(local@.subrange(0, i as int)),
            decreases local@.len() - i,
        {
            accounts.push(local[i].account());
            i += 1;
            assert(accounts@ == approver_accounts(local@.subrange(0, i as int)));
        }
        assert(local@.subrange(0, local@.len() as int) == local@);
        let diff: MemberDiff = diff_members(&accounts, members);
        let mut create: Vec<Result<Approver, HashError>> = Vec::new();
        let mut k: usize = 0;
        while k < diff.missing.len()
            invariant
                k <= diff.missing@.len(),
                now.in_clock_range(),
                config.validity_days_code <= MAX_DAYS,
                rising_below(diff.missing@, members@.len()),
                create@.len() == k,
                forall|q: int|
                    0 <= q < k ==> (#[trigger] create@[q] matches Ok(approver) ==> enrolled(
                        approver,
                        members@[diff.missing@[q] as int],
                        *config,
                        now,
                    )),
            decreases diff.missing@.len() - k,
        {
            let at: usize = diff.missing[k];
            assert(diff.missing@[k as int] < members@.len());
            create.push(Self::enroll_at(&members[at], config, now));
            k += 1;
        }
        ApproverSync { create, delete: diff.stale }
    }

    /// One pass at the present moment over the approvers.
    pub fn scan_approvers(
        &self,
        local: &Vec<Approver>,
        members: &Vec<LdapUser>,
        config: &ApproversConfig,
    ) -> (plan: ApproverSync)
        requires
            config.validity_days_code <= MAX_DAYS,
        ensures
            exists|now: Timestamp|
                now.in_clock_range() && Self::approvers_scanned(
                    local@,
                    members@,
                    *config,
                    now,
                    plan,
                ),
            plan.delete@ == stale_accounts(approver_accounts(local@), members@),
            plan.create@.len() == missing_members(approver_accounts(local@), members@).len(),
    {
        let now: Timestamp = Timestamp::now();
        self.scan_approvers_at(local, members, config, now)
    }

    /// One pass over the users: as for the approvers, but that a new record
    /// needs no code.
    pub fn scan_users(&self, local: &Vec<User>, members: &Vec<LdapUser>) -> (plan: UserSync)
        ensures
            plan.delete@ == stale_accounts(user_accounts(local@), members@),
            plan.create@.len() == missing_members(user_accounts(local@), members@).len(),
            rising_below(missing_members(user_accounts(local@), members@), members@.len()),
            forall|k: int|
                0 <= k < plan.create@.len() ==> (#[trigger] plan.create@[k]).is_for(
                    members@[missing_members(user_accounts(local@), members@)[k] as int],
                ),
    {
        let mut accounts: Vec<LocalAccount> = Vec::new();
        let mut i: usize = 0;
        while i < local.len()
            invariant
                i <= local@.len(),
                accounts@ == user_accounts(local@.subrange(0, i as int)),
            decreases local@.len() - i,
        {
            accounts.push(local[i].account());
            i += 1;
            assert(accounts@ == user_accounts(local@.subrange(0, i as int)));
        }
        assert(local@.subrange(0, local@.len() as int) == local@);
        let diff: MemberDiff = diff_members(&accounts, members);
        let mut create: Vec<User> = Vec::new();
        let mut k: usize = 0;
        while k < diff.missing.len()
            invariant
                k <= diff.missing@.len(),
                rising_below(diff.missing@, members@.len()),
                create@.len() == k,
                forall|q: int|
                    0 <= q < k ==> (#[trigger] create@[q]).is_for(
                        members@[diff.missing@[q] as int],
                    ),
            decreases diff.missing@.len() - k,
        {
            let at: usize = diff.missing[k];
            assert(diff.missing@[k as int] < members@.len());
            create.push(User::new_with_ldap_user(&members[at]));
            k += 1;
        }
        UserSync { create, delete: diff.stale }
    }

    /// One pass over the administrators: as for the users.
    pub fn scan_admins(&self, local: &Vec<Admin>, members: &Vec<LdapUser>) -> (plan: AdminSync)
        ensures
            plan.delete@ == stale_accounts(admin_accounts(local@), members@),
            plan.create@.len() == missing_members(admin_accounts(local@), members@).len(),
            rising_below(missing_members(admin_accounts(local@), members@), members@.len()),
            forall|k: int|
                0 <= k < plan.create@.len() ==> (#[trigger] plan.create@[k]).is_for(
                    members@[missing_members(admin_accounts(local@), members@)[k] as int],
                ),
    {
        let mut accounts: Vec<LocalAccount> = Vec::new();
        let mut i: usize = 0;
        while i < local.len()
            invariant
                i <= local@.len(),
                accounts@ == admin_accounts(local@.subrange(0, i as int)),
            decreases local@.len() - i,
        {
            accounts.push(local[i].account());
            i += 1;
            assert(accounts@ == admin_accounts(local@.subrange(0, i as int)));
        }
        assert(local@.subrange(0, local@.len() as int) == local@);
        let diff: MemberDiff = diff_members(&accounts, members);
        let mut create: Vec<Admin> = Vec::new();
        let mut k: usize = 0;
        while k < diff.missing.len()
            invariant
                k <= diff.missing@.len(),
                rising_below(diff.missing@, members@.len()),
                create@.len() == k,
                forall|q: int|
                    0 <= q < k ==> (#[trigger] create@[q]).is_for(
                        members@[diff.missing@[q] as int],
                    ),
            decreases diff.missing@.len() - k,
        {
            let at: usize = diff.missing[k];
            assert(diff.missing@[k as int] < members@.len());
            create.push(Admin::new_with_ldap_user(&members[at]));
            k += 1;
        }
        AdminSync { create, delete: diff.stale }
    }
}

/// An approver without a password whose user name no member of the groups
/// has is to be deleted after a pass, and a member whose user name no
/// approver without a password has gets a new record. Where a code could be
/// issued, that record holds the hash of a fresh code; its validity is set
/// unless the settings give codes no end.
pub proof fn lemma_scan_follows_directory(
    local: Seq<Approver>,
    members: Seq<LdapUser>,
    config: ApproversConfig,
    now: Timestamp,
    plan: ApproverSync,
)
    requires
        local.len() <= usize::MAX,
        members.len() <= usize::MAX,
        LdapMonitoring::approvers_scanned(local, members, config, now, plan),
    ensures
        forall|i: int|
            0 <= i < local.len() && (#[trigger] local[i]).directory_backed() && (forall|m: int|
                0 <= m < members.len() ==> (#[trigger] members[m]).username@ != local[i].username@)
                ==> plan.delete@.contains(local[i].id),
        forall|j: int|
            0 <= j < members.len() && (forall|i: int|
                0 <= i < local.len() && (#[trigger] local[i]).directory_backed()
                    ==> local[i].username@ != members[j].username@) ==> exists|k: int|
                0 <= k < plan.create@.len() && missing_members(
                    approver_accounts(local),
                    members,
                )[k] == j && (#[trigger] plan.create@[k] matches Ok(approver) ==> enrolled(
                    approver,
                    #[trigger] members[j],
                    config,
                    now,
                ) && (config.validity_days_code != 0 ==> approver.validity is Some)),
{
    let accounts = approver_accounts(local);
    assert forall|i: int|
        0 <= i < local.len() && (#[trigger] local[i]).directory_backed() && (forall|m: int|
            0 <= m < members.len() ==> (#[trigger] members[m]).username@
                != local[i].username@) implies plan.delete@.contains(local[i].id) by {
        assert(accounts[i] == local[i].as_account());
        lemma_absent_account_is_stale(accounts, members, i);
    }
    assert forall|j: int|
        0 <= j < members.len() && (forall|i: int|
            0 <= i < local.len() && (#[trigger] local[i]).directory_backed() ==> local[i].username@
                != members[j].username@) implies exists|k: int|
        0 <= k < plan.create@.len() && missing_members(approver_accounts(local), members)[k] == j
            && (#[trigger] plan.create@[k] matches Ok(approver) ==> enrolled(
            approver,
            #[trigger] members[j],
            config,
            now,
        ) && (config.validity_days_code != 0 ==> approver.validity is Some)) by {
        assert forall|i: int|
            0 <= i < accounts.len() && accounts[i].directory_backed implies accounts[i].username@
            != members[j].username@ by {
            assert(accounts[i] == local[i].as_account());
            assert(local[i].directory_backed());
        }
        lemma_unknown_member_is_missing(accounts, members, j);
        let missing = missing_members(accounts, members);
        let k = choose|k: int| 0 <= k < missing.len() && missing[k] == j as usize;
        assert(plan.create@[k] matches Ok(approver) ==> enrolled(
            approver,
            members[missing[k] as int],
            config,
            now,
        ));
    }
}

} // verus!
