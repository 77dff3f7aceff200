//! Approval codes: issuing one to an approver, and finding the approver
//! whose code somebody presents.
//!
//! A code is looked for by going through the approvers one by one, so a
//! validation costs time in proportion to their number.

use crate::model::entity::approver::{validity_for, Approver};
use crate::security::hashing::{hash_secret, is_marked, matches_hash, verify_secret, HashError};
use crate::utils::clock::{midnight_days_ahead, Timestamp, MAX_DAYS};
use crate::utils::generator::{generator_code, is_code, lemma_code_has_no_dollar};
use crate::utils::text::same_text;
use vstd::prelude::*;

verus! {

/// The kind of access asked for, as text.
pub open spec fn scope_of(required_scope: Option<&str>) -> Option<Seq<char>> {
    match required_scope {
        Some(s) => Some(s@),
        None => None,
    }
}

/// Whether `code` is the code that `approver` holds: compared with the hash
/// where codes are stored hashed, else letter by letter.
pub open spec fn holds_code(approver: Approver, code: Seq<char>, encrypted: bool) -> bool {
    if encrypted {
        matches_hash(code, approver.secret_code@)
    } else {
        code == approver.secret_code@
    }
}

/// Whether `approver` stands behind `code` at `now` for access of the kind
/// `scope`: the approver may grant that kind of access, the code has not run
/// out, and it is the approver's code.
pub open spec fn answers(
    approver: Approver,
    code: Seq<char>,
    scope: Option<Seq<char>>,
    encrypted: bool,
    now: Timestamp,
) -> bool {
    &&& approver.covers(scope)
    &&& approver.usable_at(now)
    &&& holds_code(approver, code, encrypted)
}

/// The user name of the first approver who stands behind `code`, if any
/// does.
pub open spec fn validated(
    approvers: Seq<Approver>,
    code: Seq<char>,
    scope: Option<Seq<char>>,
    encrypted: bool,
    now: Timestamp,
) -> Option<Seq<char>>
    decreases approvers.len(),
{
    if approvers.len() == 0 {
        None
    } else if answers(approvers[0], code, scope, encrypted, now) {
        Some(approvers[0].username@)
    } else {
        validated(approvers.subrange(1, approvers.len() as int), code, scope, encrypted, now)
    }
}

/// A validation names only an approver who stands behind the code: one who
/// may grant the kind of access asked for and whose code has not run out.
/// Where it names nobody, no approver stands behind the code.
pub proof fn lemma_validated_answers(
    approvers: Seq<Approver>,
    code: Seq<char>,
    scope: Option<Seq<char>>,
    encrypted: bool,
    now: Timestamp,
)
    ensures
        match validated(approvers, code, scope, encrypted, now) {
            Some(name) => exists|i: int|
                0 <= i < approvers.len() && #[trigger] answers(
                    approvers[i],
                    code,
                    scope,
                    encrypted,
                    now,
                ) && approvers[i].username@ == name && approvers[i].covers(scope)
                    && approvers[i].usable_at(now),
            None => forall|i: int|
                0 <= i < approvers.len() ==> !#[trigger] answers(
                    approvers[i],
                    code,
                    scope,
                    encrypted,
                    now,
                ),
        },
    decreases approvers.len(),
{
    if approvers.len() == 0 {
    } else if answers(approvers[0], code, scope, encrypted, now) {
    } else {
        let rest = approvers.subrange(1, approvers.len() as int);
        lemma_validated_answers(rest, code, scope, encrypted, now);
        match validated(rest, code, scope, encrypted, now) {
            Some(name) => {
                let i = choose|i: int|
                    0 <= i < rest.len() && #[trigger] answers(rest[i], code, scope, encrypted, now)
                        && rest[i].username@ == name;
                assert(rest[i] == approvers[i + 1]);
                assert(answers(approvers[i + 1], code, scope, encrypted, now));
            },
            None => {
                assert forall|i: int| 0 <= i < approvers.len() implies !#[trigger] answers(
                    approvers[i],
                    code,
                    scope,
                    encrypted,
                    now,
                ) by {
                    if i > 0 {
                        assert(rest[i - 1] == approvers[i]);
                    }
                }
            },
        }
    }
}

/// Of two approvers who hold the same code, a validation for a kind of
/// access that only one of them may grant names that one, in whichever
/// order the two are gone through; a validation for a kind that neither may
/// grant names nobody.
pub proof fn lemma_scope_selects(
    first: Approver,
    second: Approver,
    code: Seq<char>,
    scope: Seq<char>,
    encrypted: bool,
    now: Timestamp,
)
    requires
        holds_code(first, code, encrypted),
        holds_code(second, code, encrypted),
        first.usable_at(now),
        second.usable_at(now),
    ensures
        first.has_scope(scope) && !second.has_scope(scope) ==> validated(
            seq![first, second],
            code,
            Some(scope),
            encrypted,
            now,
        ) == Some(first.username@) && validated(
            seq![second, first],
            code,
            Some(scope),
            encrypted,
            now,
        ) == Some(first.username@),
        !first.has_scope(scope) && !second.has_scope(scope) ==> validated(
            seq![first, second],
            code,
            Some(scope),
            encrypted,
            now,
        ) is None,
{
    let both = seq![first, second];
    let swapped = seq![second, first];
    assert(both.subrange(1, 2) == seq![second]);
    assert(swapped.subrange(1, 2) == seq![first]);
    assert(seq![first].subrange(1, 1) == Seq::<Approver>::empty());
    assert(seq![second].subrange(1, 1) == Seq::<Approver>::empty());
    assert(both[0] == first);
    assert(swapped[0] == second);
    assert(seq![first][0] == first);
    assert(seq![second][0] == second);
    reveal_with_fuel(validated, 3);
}

/// A code issued at `issued` for `days` days, with `days` above 0, is good
/// at every moment before midnight at the start of the day `days` days
/// later, and at none from that midnight on.
pub proof fn lemma_code_window(approver: Approver, days: int, issued: Timestamp, now: Timestamp)
    requires
        days > 0,
        issued.in_clock_range(),
        days <= MAX_DAYS,
        approver.validity == validity_for(days, issued),
    ensures
        approver.usable_at(now) <==> now.secs < midnight_days_ahead(issued.secs as int, days),
        now.secs <= issued.secs ==> approver.usable_at(now),
{
    let end = midnight_days_ahead(issued.secs as int, days);
    let moved = issued.secs + days * 86_400;
    assert(end == (moved / 86_400) * 86_400);
    assert(moved - 86_400 < end <= moved) by (nonlinear_arith)
        requires
            end == (moved / 86_400) * 86_400,
    ;
    assert(end as i64 == end);
}

/// The user name of the first approver who stands behind `code` at `now`:
/// who may grant access of the kind `required_scope`, where one is named,
/// whose code has not run out, and whose code `code` is. `None` where there
/// is no such approver.
pub fn validate_code_at(
    code: &str,
    approvers: &Vec<Approver>,
    required_scope: Option<&str>,
    encrypted: bool,
    now: Timestamp,
) -> (found: Option<String>)
    ensures
        match found {
            Some(name) => validated(
                approvers@,
                code@,
                scope_of(required_scope),
                encrypted,
                now,
            ) == Some(name@),
            None => validated(approvers@, code@, scope_of(required_scope), encrypted, now)
                is None,
        },
{
    let ghost scope = scope_of(required_scope);
    let mut i: usize = 0;
    assert(approvers@.subrange(0, approvers@.len() as int) == approvers@);
    while i < approvers.len()
        invariant
            i <= approvers.len(),
            scope == scope_of(required_scope),
            validated(approvers@, code@, scope, encrypted, now) == validated(
                approvers@.subrange(i as int, approvers@.len() as int),
                code@,
                scope,
                encrypted,
                now,
            ),
        decreases approvers.len() - i,
    {
        let ghost rest = approvers@.subrange(i as int, approvers@.len() as int);
        assert(rest[0] == approvers@[i as int]);
        assert(rest.subrange(1, rest.len() as int) == approvers@.subrange(
            i + 1,
            approvers@.len() as int,
        ));
        let ap: &Approver = &approvers[i];
        let in_scope: bool = match required_scope {
            Some(s) => ap.allows(s),
            None => true,
        };
        if in_scope && ap.is_usable_at(now) {
            let same: bool = if encrypted {
                verify_secret(code, ap.secret_code.as_str())
            } else {
                same_text(code, ap.secret_code.as_str())
            };
            if same {
                return Some(ap.username.clone());
            }
        }
        i += 1;
    }
    None
}

/// The user name of the first approver who stands behind `code` at the
/// present moment.
pub fn validate_code(
    code: String,
    approvers: &Vec<Approver>,
    required_scope: Option<&str>,
    encrypted: bool,
) -> (found: Option<String>)
    ensures
        exists|now: Timestamp|
            now.in_clock_range() && match found {
                Some(name) => validated(
                    approvers@,
                    code@,
                    scope_of(required_scope),
                    encrypted,
                    now,
                ) == Some(name@),
                None => validated(approvers@, code@, scope_of(required_scope), encrypted, now)
                    is None,
            },
        found matches Some(name) ==> exists|i: int|
            0 <= i < approvers@.len() && approvers@[i].username@ == name@
                && #[trigger] approvers@[i].covers(scope_of(required_scope)) && holds_code(
                approvers@[i],
                code@,
                encrypted,
            ),
{
    let now: Timestamp = Timestamp::now();
    let found = validate_code_at(code.as_str(), approvers, required_scope, encrypted, now);
    proof {
        lemma_validated_answers(approvers@, code@, scope_of(required_scope), encrypted, now);
        if found is Some {
            let name = found->0;
            let i = choose|i: int|
                0 <= i < approvers@.len() && #[trigger] answers(
                    approvers@[i],
                    code@,
                    scope_of(required_scope),
                    encrypted,
                    now,
                ) && approvers@[i].username@ == name@;
            assert(approvers@[i].covers(scope_of(required_scope)));
        }
    }
    found
}

impl Approver {
    /// The record once it holds `hashed` as its code, issued at `now` for
    /// `days` days.
    pub open spec fn with_code(self, hashed: String, days: int, now: Timestamp) -> Approver {
        Approver { secret_code: hashed, validity: validity_for(days, now), ..self }
    }

    /// Stores `hashed` as the approver's code, issued at `now` for `days`
    /// days.
    pub fn store_code(&mut self, hashed: String, days: i64, now: Timestamp)
        requires
            now.in_clock_range(),
            -MAX_DAYS <= days <= MAX_DAYS,
        ensures
            *final(self) == old(self).with_code(hashed, days as int, now),
    {
        self.secret_code = hashed;
        self.create_validity_at(days, now);
    }

    /// Takes the outcome of hashing the code `code`, drawn at `now` for
    /// `days` days: with a hash the record holds it and the code goes back
    /// to whoever asked; without one the record stays as it is and the
    /// error goes back.
    pub fn accept_code(
        &mut self,
        code: String,
        hashed: Result<String, HashError>,
        days: i64,
        now: Timestamp,
    ) -> (r: Result<String, HashError>)
        requires
            now.in_clock_range(),
            -MAX_DAYS <= days <= MAX_DAYS,
        ensures
            match hashed {
                Ok(h) => r == Ok::<String, HashError>(code) && *final(self) == old(
                    self,
                ).with_code(h, days as int, now),
                Err(e) => r == Err::<String, HashError>(e) && *final(self) == *old(self),
            },
    {
        match hashed {
            Ok(h) => {
                self.store_code(h, days, now);
                Ok(code)
            },
            Err(e) => Err(e),
        }
    }
}

/// What holds of an approver and the code just issued to it: the code has
/// the asked shape, the record holds its hash, which is not the code
/// itself, and the validity of a code issued at `now`, and nothing else of
/// the record has changed.
pub open spec fn issued(
    before: Approver,
    after: Approver,
    code: Seq<char>,
    size: nat,
    just_numbers: bool,
    days: int,
    now: Timestamp,
) -> bool {
    &&& is_code(code, size, just_numbers)
    &&& matches_hash(code, after.secret_code@)
    &&& is_marked(after.secret_code@)
    &&& after.secret_code@ != code
    &&& after == before.with_code(after.secret_code, days, now)
}

/// Issues a code at `now`: draws `size` random characters, stores their hash
/// in the record, and sets the validity to midnight at the start of the day
/// `validity_days` days after `now`, or to none for 0 days. The code comes
/// back in plain text this once. Where no hash can be made the record stays
/// as it is.
pub fn issue_code_at(
    approver: &mut Approver,
    size: usize,
    just_numbers: bool,
    validity_days: i64,
    now: Timestamp,
) -> (r: Result<String, HashError>)
    requires
        now.in_clock_range(),
        -MAX_DAYS <= validity_days <= MAX_DAYS,
    ensures
        match r {
            Ok(code) => issued(
                *old(approver),
                *final(approver),
                code@,
                size as nat,
                just_numbers,
                validity_days as int,
                now,
            ),
            Err(_) => *final(approver) == *old(approver),
        },
{
    let code: String = generator_code(size, just_numbers);
    let hashed: Result<String, HashError> = hash_secret(code.as_str());
    proof {
        lemma_code_has_no_dollar(code@, size as nat, just_numbers);
        if hashed is Ok && code@.len() > 0 {
            assert(code@[0] != hashed->Ok_0@[0]);
        }
    }
    approver.accept_code(code, hashed, validity_days, now)
}

/// Issues a code at the present moment.
pub fn issue_code(approver: &mut Approver, size: usize, just_numbers: bool, validity_days: i64) -> (r:
    Result<String, HashError>)
    requires
        -MAX_DAYS <= validity_days <= MAX_DAYS,
    ensures
        match r {
            Ok(code) => exists|now: Timestamp|
                now.in_clock_range() && issued(
                    *old(approver),
                    *final(approver),
                    code@,
                    size as nat,
                    just_numbers,
                    validity_days as int,
                    now,
                ),
            Err(_) => *final(approver) == *old(approver),
        },
        r is Ok ==> (validity_days == 0 <==> final(approver).validity is None),
{
    let now: Timestamp = Timestamp::now();
    issue_code_at(approver, size, just_numbers, validity_days, now)
}

} // verus!
