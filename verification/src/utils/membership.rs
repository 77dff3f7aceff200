//! Comparing the accounts that stand for members of the directory with the
//! members that the directory lists now.
//!
//! The members are taken one by one. A member whose user name is the name
//! of an account that is still waiting accounts for the first such account;
//! any other member needs a new account. The accounts that are still
//! waiting at the end stand for nobody any more.

use crate::ldap::ldap::LdapUser;
use crate::utils::seqs::lemma_filter_step;
use crate::utils::text::same_text;
use vstd::prelude::*;

verus! {

/// What the comparison reads of a stored record.
#[derive(Debug)]
pub struct LocalAccount {
    pub id: String,
    pub username: String,
    /// Whether the record holds no password of its own and so stands for a
    /// member of the directory.
    pub directory_backed: bool,
}

/// What the comparison finds.
#[derive(Debug)]
pub struct MemberDiff {
    /// The places, among the members, of those who need a new account, in
    /// rising order.
    pub missing: Vec<usize>,
    /// The identifiers of the accounts that stand for nobody any more.
    pub stale: Vec<String>,
}

/// The user names of the members.
pub open spec fn member_names(members: Seq<LdapUser>) -> Seq<Seq<char>> {
    members.map_values(|m: LdapUser| m.username@)
}

/// The accounts that stand for members of the directory.
pub open spec fn candidates(accounts: Seq<LocalAccount>) -> Seq<LocalAccount> {
    accounts.filter(|a: LocalAccount| a.directory_backed)
}

/// The user names of the accounts.
pub open spec fn account_names(accounts: Seq<LocalAccount>) -> Seq<Seq<char>> {
    accounts.map_values(|a: LocalAccount| a.username@)
}

/// Whether an account named `name` is among those waiting.
pub open spec fn awaited(names: Seq<Seq<char>>, waiting: Seq<usize>, name: Seq<char>) -> bool {
    exists|p: int| 0 <= p < waiting.len() && names[waiting[p] as int] == name
}

/// Whether `p` is the place, among those waiting, of the first account
/// named `name`.
pub open spec fn is_first_awaited(
    names: Seq<Seq<char>>,
    waiting: Seq<usize>,
    name: Seq<char>,
    p: int,
) -> bool {
    &&& 0 <= p < waiting.len()
    &&& names[waiting[p] as int] == name
    &&& forall|q: int| 0 <= q < p ==> names[waiting[q] as int] != name
}

/// The accounts, by their place in `names`, that are still waiting once
/// `members` have been taken: all of them before the first member, and
/// after each member those that waited before it, but for the first that
/// has the member's name.
pub open spec fn waiting_after(names: Seq<Seq<char>>, members: Seq<Seq<char>>) -> Seq<usize>
    decreases members.len(),
{
    if members.len() == 0 {
        Seq::new(names.len(), |i: int| i as usize)
    } else {
        let before = waiting_after(names, members.drop_last());
        if awaited(names, before, members.last()) {
            before.remove(choose|p: int| is_first_awaited(names, before, members.last(), p))
        } else {
            before
        }
    }
}

/// The members, by their place in `members`, who need a new account: those
/// for whom no account of their name was waiting when their turn came.
pub open spec fn missing_after(names: Seq<Seq<char>>, members: Seq<Seq<char>>) -> Seq<usize>
    decreases members.len(),
{
    if members.len() == 0 {
        Seq::empty()
    } else {
        let before = waiting_after(names, members.drop_last());
        let missed = missing_after(names, members.drop_last());
        if awaited(names, before, members.last()) {
            missed
        } else {
            missed.push((members.len() - 1) as usize)
        }
    }
}

/// The identifiers of the accounts at the places `places`.
pub open spec fn ids_at(accounts: Seq<LocalAccount>, places: Seq<usize>) -> Seq<String> {
    Seq::new(places.len(), |q: int| accounts[places[q] as int].id)
}

/// The members who need a new account, given the stored accounts.
pub open spec fn missing_members(accounts: Seq<LocalAccount>, members: Seq<LdapUser>) -> Seq<
    usize,
> {
    missing_after(account_names(candidates(accounts)), member_names(members))
}

/// The identifiers of the accounts that stand for nobody any more.
pub open spec fn stale_accounts(accounts: Seq<LocalAccount>, members: Seq<LdapUser>) -> Seq<
    String,
> {
    ids_at(
        candidates(accounts),
        waiting_after(account_names(candidates(accounts)), member_names(members)),
    )
}

/// Whether the places rise strictly and stay below `bound`.
pub open spec fn rising_below(places: Seq<usize>, bound: nat) -> bool {
    &&& forall|p: int| 0 <= p < places.len() ==> #[trigger] places[p] < bound
    &&& forall|p: int, q: int| 0 <= p < q < places.len() ==> places[p] < places[q]
}

/// Where an account of a name is waiting, there is a first one.
pub proof fn lemma_first_awaited_exists(
    names: Seq<Seq<char>>,
    waiting: Seq<usize>,
    name: Seq<char>,
    k: int,
)
    requires
        0 <= k < waiting.len(),
        names[waiting[k] as int] == name,
    ensures
        exists|p: int| is_first_awaited(names, waiting, name, p),
    decreases k,
{
    if exists|q: int| 0 <= q < k && names[waiting[q] as int] == name {
        let q = choose|q: int| 0 <= q < k && names[waiting[q] as int] == name;
        lemma_first_awaited_exists(names, waiting, name, q);
    } else {
        assert(is_first_awaited(names, waiting, name, k));
    }
}

/// The place that [`waiting_after`] takes out for a member whose name is
/// awaited is the first with that name.
pub proof fn lemma_taken_is_first(names: Seq<Seq<char>>, waiting: Seq<usize>, name: Seq<char>) -> (p:
    int)
    requires
        awaited(names, waiting, name),
    ensures
        p == choose|p: int| is_first_awaited(names, waiting, name, p),
        is_first_awaited(names, waiting, name, p),
{
    let k = choose|k: int| 0 <= k < waiting.len() && names[waiting[k] as int] == name;
    lemma_first_awaited_exists(names, waiting, name, k);
    choose|p: int| is_first_awaited(names, waiting, name, p)
}

/// Those waiting are places in `names`, in rising order.
pub proof fn lemma_waiting_in_range(names: Seq<Seq<char>>, members: Seq<Seq<char>>)
    requires
        names.len() <= usize::MAX,
    ensures
        rising_below(waiting_after(names, members), names.len()),
    decreases members.len(),
{
    let w = waiting_after(names, members);
    if members.len() == 0 {
        assert forall|p: int| 0 <= p < w.len() implies #[trigger] w[p] < names.len() by {
            assert(w[p] == p as usize);
        }
        assert forall|p: int, q: int| 0 <= p < q < w.len() implies w[p] < w[q] by {
            assert(w[p] == p as usize);
            assert(w[q] == q as usize);
        }
    } else {
        let before = waiting_after(names, members.drop_last());
        lemma_waiting_in_range(names, members.drop_last());
        if awaited(names, before, members.last()) {
            let c = lemma_taken_is_first(names, before, members.last());
            assert(w == before.remove(c));
            assert forall|p: int| 0 <= p < w.len() implies #[trigger] w[p] < names.len() by {
                if p < c {
                    assert(w[p] == before[p]);
                } else {
                    assert(w[p] == before[p + 1]);
                }
            }
            assert forall|p: int, q: int| 0 <= p < q < w.len() implies w[p] < w[q] by {
                let pp = if p < c { p } else { p + 1 };
                let qq = if q < c { q } else { q + 1 };
                assert(w[p] == before[pp]);
                assert(w[q] == before[qq]);
            }
        } else {
            assert(w == before);
        }
    }
}

/// The places of the members who need an account are places in `members`,
/// in rising order.
pub proof fn lemma_missing_in_range(names: Seq<Seq<char>>, members: Seq<Seq<char>>)
    requires
        members.len() <= usize::MAX,
    ensures
        rising_below(missing_after(names, members), members.len()),
    decreases members.len(),
{
    let m = missing_after(names, members);
    if members.len() > 0 {
        let missed = missing_after(names, members.drop_last());
        lemma_missing_in_range(names, members.drop_last());
        let before = waiting_after(names, members.drop_last());
        if awaited(names, before, members.last()) {
            assert(m == missed);
        } else {
            assert(m == missed.push((members.len() - 1) as usize));
            assert forall|p: int| 0 <= p < m.len() implies #[trigger] m[p] < members.len() by {
                if p < missed.len() {
                    assert(m[p] == missed[p]);
                }
            }
            assert forall|p: int, q: int| 0 <= p < q < m.len() implies m[p] < m[q] by {
                assert(m[p] == missed[p]);
                if q < missed.len() {
                    assert(m[q] == missed[q]);
                }
            }
        }
    }
}

/// An account whose name no member has is still waiting at the end.
pub proof fn lemma_absent_stays_waiting(names: Seq<Seq<char>>, members: Seq<Seq<char>>, i: int)
    requires
        0 <= i < names.len() <= usize::MAX,
        forall|m: int| 0 <= m < members.len() ==> members[m] != names[i],
    ensures
        waiting_after(names, members).contains(i as usize),
    decreases members.len(),
{
    if members.len() == 0 {
        assert(waiting_after(names, members)[i] == i as usize);
    } else {
        let init = members.drop_last();
        assert forall|m: int| 0 <= m < init.len() implies init[m] != names[i] by {
            assert(init[m] == members[m]);
        }
        lemma_absent_stays_waiting(names, init, i);
        let before = waiting_after(names, init);
        let at = choose|at: int| 0 <= at < before.len() && before[at] == i as usize;
        if awaited(names, before, members.last()) {
            let p = lemma_taken_is_first(names, before, members.last());
            assert(members[members.len() - 1] != names[i]);
            assert(p != at);
            let after = before.remove(p);
            if at < p {
                assert(after[at] == i as usize);
            } else {
                assert(after[at - 1] == i as usize);
            }
        }
    }
}

/// An account whose name a member has, and which is the first of that name
/// among the accounts, is not waiting at the end: the first member of the
/// name has accounted for it.
pub proof fn lemma_listed_leaves_waiting(names: Seq<Seq<char>>, members: Seq<Seq<char>>, c: int)
    requires
        0 <= c < names.len() <= usize::MAX,
        exists|m: int| 0 <= m < members.len() && members[m] == names[c],
        forall|b: int| 0 <= b < c ==> names[b] != names[c],
    ensures
        !waiting_after(names, members).contains(c as usize),
    decreases members.len(),
{
    let init = members.drop_last();
    let before = waiting_after(names, init);
    let after = waiting_after(names, members);
    lemma_waiting_in_range(names, init);
    if exists|m: int| 0 <= m < init.len() && init[m] == names[c] {
        lemma_listed_leaves_waiting(names, init, c);
        if awaited(names, before, members.last()) {
            let p = lemma_taken_is_first(names, before, members.last());
            if after.contains(c as usize) {
                let q = choose|q: int| 0 <= q < after.len() && after[q] == c as usize;
                let qq = if q < p {
                    q
                } else {
                    q + 1
                };
                assert(before[qq] == c as usize);
            }
        }
    } else {
        let m = choose|m: int| 0 <= m < members.len() && members[m] == names[c];
        if m < init.len() {
            assert(init[m] == members[m]);
        }
        assert(members.last() == names[c]);
        assert forall|k: int| 0 <= k < init.len() implies init[k] != names[c] by {}
        lemma_absent_stays_waiting(names, init, c);
        let at = choose|at: int| 0 <= at < before.len() && before[at] == c as usize;
        assert(names[before[at] as int] == members.last());
        let p = lemma_taken_is_first(names, before, members.last());
        if p < at {
            assert(before[p] < before[at]);
            assert(names[before[p] as int] != names[c]);
        }
        assert(p == at);
        assert(after == before.remove(at));
        if after.contains(c as usize) {
            let q = choose|q: int| 0 <= q < after.len() && after[q] == c as usize;
            if q < at {
                assert(after[q] == before[q]);
                assert(before[q] < before[at]);
            } else {
                assert(after[q] == before[q + 1]);
                assert(before[at] < before[q + 1]);
            }
        }
    }
}

/// A member whose name no account has needs a new account.
pub proof fn lemma_unknown_is_missing(names: Seq<Seq<char>>, members: Seq<Seq<char>>, j: int)
    requires
        names.len() <= usize::MAX,
        0 <= j < members.len() <= usize::MAX,
        forall|i: int| 0 <= i < names.len() ==> names[i] != members[j],
    ensures
        missing_after(names, members).contains(j as usize),
    decreases members.len(),
{
    let init = members.drop_last();
    let before = waiting_after(names, init);
    let missed = missing_after(names, init);
    if j == members.len() - 1 {
        lemma_waiting_in_range(names, init);
        if awaited(names, before, members.last()) {
            let p = choose|p: int| 0 <= p < before.len() && names[before[p] as int] == members.last();
            assert(before[p] < names.len());
            assert(false);
        }
        assert(missing_after(names, members) == missed.push(j as usize));
        assert(missing_after(names, members)[missed.len() as int] == j as usize);
    } else {
        assert(init[j] == members[j]);
        lemma_unknown_is_missing(names, init, j);
        let at = choose|at: int| 0 <= at < missed.len() && missed[at] == j as usize;
        assert(missing_after(names, members)[at] == j as usize);
    }
}

/// Whether `origin` names, one by one, the places in `accounts` of the
/// accounts in `part`.
pub open spec fn places_of(origin: Seq<usize>, accounts: Seq<LocalAccount>, part: Seq<LocalAccount>) -> bool {
    &&& origin.len() == part.len()
    &&& forall|q: int|
        0 <= q < origin.len() ==> #[trigger] origin[q] < accounts.len() && accounts[origin[q] as int]
            == part[q]
}

/// The places, in `accounts`, of the accounts without a password.
fn candidate_places(accounts: &Vec<LocalAccount>) -> (origin: Vec<usize>)
    ensures
        places_of(origin@, accounts@, candidates(accounts@)),
{
    let ghost backed = |a: LocalAccount| a.directory_backed;
    let mut origin: Vec<usize> = Vec::new();
    let mut i: usize = 0;
    proof {
        crate::utils::seqs::lemma_filter_empty(accounts@.subrange(0, 0), backed);
    }
    while i < accounts.len()
        invariant
            i <= accounts@.len(),
            backed == (|a: LocalAccount| a.directory_backed),
            places_of(origin@, accounts@, accounts@.subrange(0, i as int).filter(backed)),
            forall|q: int| 0 <= q < origin@.len() ==> #[trigger] origin@[q] < i,
        decreases accounts@.len() - i,
    {
        let ghost part = accounts@.subrange(0, i as int).filter(backed);
        let ghost next = accounts@.subrange(0, i + 1).filter(backed);
        let ghost had = origin@;
        proof {
            lemma_filter_step(accounts@, backed, i as int);
            assert(backed(accounts@[i as int]) == accounts@[i as int].directory_backed);
        }
        if accounts[i].directory_backed {
            origin.push(i);
            proof {
                assert(next == part.push(accounts@[i as int]));
                assert forall|q: int| 0 <= q < origin@.len() implies #[trigger] origin@[q]
                    < accounts@.len() && accounts@[origin@[q] as int] == next[q] by {
                    if q < had.len() {
                        assert(origin@[q] == had[q]);
                        assert(next[q] == part[q]);
                    }
                }
                assert forall|q: int| 0 <= q < origin@.len() implies #[trigger] origin@[q] < i
                    + 1 by {
                    if q < had.len() {
                        assert(origin@[q] == had[q]);
                    }
                }
            }
        } else {
            assert(next == part);
        }
        i += 1;
    }
    assert(accounts@.subrange(0, accounts@.len() as int) == accounts@);
    origin
}

/// The place, among those waiting, of the first account named like
/// `member`.
fn find_waiting(
    accounts: &Vec<LocalAccount>,
    origin: &Vec<usize>,
    waiting: &Vec<usize>,
    member: &LdapUser,
) -> (found: Option<usize>)
    requires
        places_of(origin@, accounts@, candidates(accounts@)),
        forall|q: int| 0 <= q < waiting@.len() ==> #[trigger] waiting@[q] < origin@.len(),
    ensures
        match found {
            Some(p) => is_first_awaited(
                account_names(candidates(accounts@)),
                waiting@,
                member.username@,
                p as int,
            ),
            None => !awaited(account_names(candidates(accounts@)), waiting@, member.username@),
        },
{
    let ghost cand = candidates(accounts@);
    let ghost names = account_names(cand);
    let mut p: usize = 0;
    while p < waiting.len()
        invariant
            p <= waiting@.len(),
            cand == candidates(accounts@),
            names == account_names(cand),
            places_of(origin@, accounts@, cand),
            forall|q: int| 0 <= q < waiting@.len() ==> #[trigger] waiting@[q] < origin@.len(),
            forall|q: int| 0 <= q < p ==> names[#[trigger] waiting@[q] as int] != member.username@,
        decreases waiting@.len() - p,
    {
        let at: usize = waiting[p];
        assert(waiting@[p as int] < origin@.len());
        let place: usize = origin[at];
        assert(origin@[at as int] < accounts@.len() && accounts@[origin@[at as int] as int]
            == cand[at as int]);
        assert(names[at as int] == cand[at as int].username@);
        if same_text(accounts[place].username.as_str(), member.username.as_str()) {
            return Some(p);
        }
        p += 1;
    }
    None
}

/// Compares the stored accounts with the members that the directory lists.
/// Accounts with a password of their own take no part.
pub fn diff_members(accounts: &Vec<LocalAccount>, members: &Vec<LdapUser>) -> (diff: MemberDiff)
    ensures
        diff.missing@ == missing_members(accounts@, members@),
        diff.stale@ == stale_accounts(accounts@, members@),
        rising_below(diff.missing@, members@.len()),
{
    let ghost cand = candidates(accounts@);
    let ghost names = account_names(cand);
    let ghost mnames = member_names(members@);
    let origin: Vec<usize> = candidate_places(accounts);
    assert(names.len() == origin.len());
    let mut waiting: Vec<usize> = Vec::new();
    let mut k: usize = 0;
    while k < origin.len()
        invariant
            k <= origin@.len(),
            waiting@ == Seq::new(k as nat, |i: int| i as usize),
        decreases origin@.len() - k,
    {
        waiting.push(k);
        k += 1;
        assert(waiting@ == Seq::new(k as nat, |i: int| i as usize));
    }
    let mut missing: Vec<usize> = Vec::new();
    let mut j: usize = 0;
    assert(mnames.subrange(0, 0) == Seq::<Seq<char>>::empty());
    assert(waiting@ == waiting_after(names, mnames.subrange(0, 0)));
    assert(missing@ == missing_after(names, mnames.subrange(0, 0)));
    while j < members.len()
        invariant
            j <= members@.len(),
            cand == candidates(accounts@),
            names == account_names(cand),
            mnames == member_names(members@),
            names.len() == origin@.len(),
            names.len() <= usize::MAX,
            places_of(origin@, accounts@, cand),
            waiting@ == waiting_after(names, mnames.subrange(0, j as int)),
            missing@ == missing_after(names, mnames.subrange(0, j as int)),
        decreases members@.len() - j,
    {
        let ghost taken = mnames.subrange(0, j + 1);
        let ghost name = members@[j as int].username@;
        proof {
            assert(taken.drop_last() == mnames.subrange(0, j as int));
            assert(taken.last() == name);
            lemma_waiting_in_range(names, mnames.subrange(0, j as int));
        }
        match find_waiting(accounts, &origin, &waiting, &members[j]) {
            Some(p) => {
                proof {
                    assert(awaited(names, waiting@, name));
                    let c = lemma_taken_is_first(names, waiting@, name);
                    if c < p {
                        assert(names[waiting@[c] as int] != name);
                    }
                    if p < c {
                        assert(names[waiting@[p as int] as int] != name);
                    }
                }
                let _ = waiting.remove(p);
            },
            None => {
                missing.push(j);
            },
        }
        j += 1;
    }
    assert(mnames.subrange(0, members@.len() as int) == mnames);
    let mut stale: Vec<String> = Vec::new();
    let mut q: usize = 0;
    proof {
        lemma_waiting_in_range(names, mnames);
        lemma_missing_in_range(names, mnames);
    }
    while q < waiting.len()
        invariant
            q <= waiting@.len(),
            names.len() == origin@.len(),
            places_of(origin@, accounts@, cand),
            rising_below(waiting@, names.len()),
            stale@ == ids_at(cand, waiting@.subrange(0, q as int)),
        decreases waiting@.len() - q,
    {
        let at: usize = waiting[q];
        assert(waiting@[q as int] < names.len());
        let place: usize = origin[at];
        assert(origin@[at as int] < accounts@.len() && accounts@[origin@[at as int] as int]
            == cand[at as int]);
        stale.push(accounts[place].id.clone());
        q += 1;
        assert(stale@ == ids_at(cand, waiting@.subrange(0, q as int)));
    }
    assert(waiting@.subrange(0, waiting@.len() as int) == waiting@);
    MemberDiff { missing, stale }
}

/// A stored account without a password whose user name no listed member has
/// is among the accounts to delete.
pub proof fn lemma_absent_account_is_stale(
    accounts: Seq<LocalAccount>,
    members: Seq<LdapUser>,
    i: int,
)
    requires
        0 <= i < accounts.len() <= usize::MAX,
        accounts[i].directory_backed,
        forall|m: int| 0 <= m < members.len() ==> members[m].username@ != accounts[i].username@,
    ensures
        stale_accounts(accounts, members).contains(accounts[i].id),
{
    let backed = |a: LocalAccount| a.directory_backed;
    let cand = candidates(accounts);
    let names = account_names(cand);
    let mnames = member_names(members);
    crate::utils::seqs::lemma_filter_members(accounts, backed);
    accounts.lemma_filter_len(backed);
    assert(accounts.contains(accounts[i]));
    assert(cand.contains(accounts[i]));
    let c = choose|c: int| 0 <= c < cand.len() && cand[c] == accounts[i];
    assert forall|m: int| 0 <= m < mnames.len() implies mnames[m] != names[c] by {
        assert(mnames[m] == members[m].username@);
    }
    lemma_absent_stays_waiting(names, mnames, c);
    let waiting = waiting_after(names, mnames);
    let at = choose|at: int| 0 <= at < waiting.len() && waiting[at] == c as usize;
    assert(ids_at(cand, waiting)[at] == accounts[i].id);
}

/// A stored account without a password whose user name a listed member
/// has stays: its identifier is not among those to delete. This holds of
/// the first account of that user name among the accounts without a
/// password (a second one waits for a second listing of the name), where
/// no other account bears its identifier.
pub proof fn lemma_listed_account_stays(
    accounts: Seq<LocalAccount>,
    members: Seq<LdapUser>,
    i: int,
)
    requires
        0 <= i < accounts.len() <= usize::MAX,
        accounts[i].directory_backed,
        exists|m: int| 0 <= m < members.len() && members[m].username@ == accounts[i].username@,
        forall|j: int|
            0 <= j < i && accounts[j].directory_backed ==> accounts[j].username@
                != accounts[i].username@,
        forall|j: int| 0 <= j < accounts.len() && j != i ==> accounts[j].id != accounts[i].id,
    ensures
        !stale_accounts(accounts, members).contains(accounts[i].id),
{
    let backed = |a: LocalAccount| a.directory_backed;
    let cand = candidates(accounts);
    let names = account_names(cand);
    let mnames = member_names(members);
    let front = accounts.subrange(0, i);
    let one = seq![accounts[i]];
    let back = accounts.subrange(i + 1, accounts.len() as int);
    assert(accounts == front + one + back);
    Seq::filter_distributes_over_add(front + one, back, backed);
    Seq::filter_distributes_over_add(front, one, backed);
    crate::utils::seqs::lemma_filter_empty(one.subrange(0, 0), backed);
    lemma_filter_step(one, backed, 0);
    assert(one.subrange(0, 1) == one);
    assert(one.filter(backed) == one);
    let a = front.filter(backed);
    let b = back.filter(backed);
    assert(cand == a + one + b);
    let c = a.len() as int;
    assert(cand[c] == accounts[i]);
    accounts.lemma_filter_len(backed);
    crate::utils::seqs::lemma_filter_members(front, backed);
    crate::utils::seqs::lemma_filter_members(back, backed);
    // No candidate before the account has its name.
    assert forall|k: int| 0 <= k < c implies names[k] != names[c] by {
        assert(cand[k] == a[k]);
        assert(a.contains(a[k]));
        assert(front.contains(a[k]));
        let j = choose|j: int| 0 <= j < front.len() && front[j] == a[k];
        assert(accounts[j] == a[k]);
        assert(backed(a[k]));
    }
    let m = choose|m: int| 0 <= m < members.len() && members[m].username@ == accounts[i].username@;
    assert(mnames[m] == names[c]);
    lemma_listed_leaves_waiting(names, mnames, c);
    lemma_waiting_in_range(names, mnames);
    let waiting = waiting_after(names, mnames);
    let stale = stale_accounts(accounts, members);
    if stale.contains(accounts[i].id) {
        let q = choose|q: int| 0 <= q < stale.len() && stale[q] == accounts[i].id;
        let w = waiting[q] as int;
        assert(w < cand.len());
        assert(stale[q] == cand[w].id);
        assert(waiting.contains(waiting[q]));
        assert(w != c);
        if w < c {
            assert(cand[w] == a[w]);
            assert(a.contains(a[w]));
            assert(front.contains(a[w]));
            let j = choose|j: int| 0 <= j < front.len() && front[j] == a[w];
            assert(accounts[j] == a[w]);
            assert(j != i);
        } else {
            assert(cand[w] == b[w - c - 1]);
            assert(b.contains(b[w - c - 1]));
            assert(back.contains(b[w - c - 1]));
            let j = choose|j: int| 0 <= j < back.len() && back[j] == b[w - c - 1];
            assert(accounts[j + i + 1] == b[w - c - 1]);
            assert(j + i + 1 != i);
        }
    }
}

/// Only accounts without a password are ever to be deleted: each
/// identifier among the stale ones is that of a stored account that stands
/// for a member of the directory.
pub proof fn lemma_stale_are_directory_backed(
    accounts: Seq<LocalAccount>,
    members: Seq<LdapUser>,
    q: int,
)
    requires
        accounts.len() <= usize::MAX,
        0 <= q < stale_accounts(accounts, members).len(),
    ensures
        exists|i: int|
            0 <= i < accounts.len() && accounts[i].directory_backed && accounts[i].id
                == stale_accounts(accounts, members)[q],
{
    let backed = |a: LocalAccount| a.directory_backed;
    let cand = candidates(accounts);
    let names = account_names(cand);
    let mnames = member_names(members);
    crate::utils::seqs::lemma_filter_members(accounts, backed);
    accounts.lemma_filter_len(backed);
    lemma_waiting_in_range(names, mnames);
    let waiting = waiting_after(names, mnames);
    let c = waiting[q] as int;
    assert(c < cand.len());
    assert(cand.contains(cand[c]));
    assert(accounts.contains(cand[c]));
    let i = choose|i: int| 0 <= i < accounts.len() && accounts[i] == cand[c];
    assert(accounts[i].directory_backed);
    assert(stale_accounts(accounts, members)[q] == cand[c].id);
}

/// A listed member whose user name no stored account without a password has
/// is among the members who get a new account.
pub proof fn lemma_unknown_member_is_missing(
    accounts: Seq<LocalAccount>,
    members: Seq<LdapUser>,
    j: int,
)
    requires
        accounts.len() <= usize::MAX,
        0 <= j < members.len() <= usize::MAX,
        forall|i: int|
            0 <= i < accounts.len() && accounts[i].directory_backed ==> accounts[i].username@
                != members[j].username@,
    ensures
        missing_members(accounts, members).contains(j as usize),
{
    let backed = |a: LocalAccount| a.directory_backed;
    let cand = candidates(accounts);
    let names = account_names(cand);
    let mnames = member_names(members);
    crate::utils::seqs::lemma_filter_members(accounts, backed);
    accounts.lemma_filter_len(backed);
    assert forall|c: int| 0 <= c < names.len() implies names[c] != mnames[j] by {
        assert(cand.contains(cand[c]));
        assert(accounts.contains(cand[c]));
        let i = choose|i: int| 0 <= i < accounts.len() && accounts[i] == cand[c];
        assert(accounts[i].directory_backed);
    }
    lemma_unknown_is_missing(names, mnames, j);
}

} // verus!
