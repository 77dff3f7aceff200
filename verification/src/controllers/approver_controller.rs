//! Requests on approvers.

use crate::configurations::config::ApproversConfig;
use crate::configurations::config::replaced_by;
use crate::model::entity::approver::{
    validity_for, Approver, ApproverCode, ApproverData, ApproverLogin, ApproverUpdate,
};
use crate::security::approval_code::{issue_code_at, issued};
use crate::security::credential::{LocalCredential, LoginDecision};
use crate::security::hashing::{hash_optional, hash_secret, matches_hash, HashError};
use crate::utils::clock::{Timestamp, MAX_DAYS};
use vstd::prelude::*;

verus! {

/// Why no code was issued.
#[derive(Debug, PartialEq, Eq, Structural, Clone, Copy)]
pub enum CodeRequestError {
    /// The login of the approver was not accepted.
    InvalidLogin,
    /// No hash of the code could be made.
    HashUnavailable,
}

/// Why no approver was created.
#[derive(Debug, PartialEq, Eq, Structural, Clone, Copy)]
pub enum CreateApproverError {
    /// An approver of that user name exists.
    UsernameTaken,
    /// No hash of the password or of the code could be made.
    HashUnavailable,
}

/// What becomes of an approver's login, given the approver stored under the
/// user name.
pub open spec fn approver_login_decided(
    approver: Option<Approver>,
    presented: Seq<char>,
    directory: bool,
) -> LoginDecision {
    match approver {
        Some(a) => if a.password@.len() == 0 {
            if directory {
                LoginDecision::AskDirectory
            } else {
                LoginDecision::Rejected
            }
        } else if matches_hash(presented, a.password@) {
            LoginDecision::Accepted
        } else {
            LoginDecision::Rejected
        },
        None => LoginDecision::Rejected,
    }
}

/// Decides on the login of an approver who asks for a new code. `approver`
/// is the record stored under the user name of `data`, `directory` says
/// whether a directory is set up.
pub fn approver_login(approver: Option<&Approver>, data: &ApproverLogin, directory: bool) -> (decision:
    LoginDecision)
    ensures
        decision == approver_login_decided(
            match approver {
                Some(a) => Some(*a),
                None => None,
            },
            data.password@,
            directory,
        ),
{
    match approver {
        Some(a) => {
            let credential: LocalCredential = LocalCredential::from_password(a.password.as_str());
            credential.decide(data.password.as_str(), directory)
        },
        None => LoginDecision::Rejected,
    }
}

/// Issues a new code at `now` to an approver whose login was decided as
/// `decision`: only an accepted login gets one. The code has the size and
/// the characters that the settings ask for, the record holds its hash and
/// the validity that the settings give; the plain code goes back to the
/// approver. In every other case the record stays as it is.
pub fn generator_approver_code_at(
    approver: &mut Approver,
    decision: LoginDecision,
    config: &ApproversConfig,
    now: Timestamp,
) -> (r: Result<ApproverCode, CodeRequestError>)
    requires
        now.in_clock_range(),
        config.validity_days_code <= MAX_DAYS,
    ensures
        match r {
            Ok(code) => {
                &&& decision == LoginDecision::Accepted
                &&& code.days == Some(config.validity_days_code)
                &&& issued(
                    *old(approver),
                    *final(approver),
                    code.new_code@,
                    config.code_size as nat,
                    config.just_numbers,
                    config.validity_days_code as int,
                    now,
                )
            },
            Err(e) => {
                &&& *final(approver) == *old(approver)
                &&& e == CodeRequestError::InvalidLogin <==> decision != LoginDecision::Accepted
            },
        },
{
    match decision {
        LoginDecision::Accepted => {},
        _ => {
            return Err(CodeRequestError::InvalidLogin);
        },
    }
    let days: i64 = config.validity_days_code as i64;
    match issue_code_at(approver, config.code_size, config.just_numbers, days, now) {
        Ok(code) => Ok(ApproverCode::new(code, config.validity_days_code)),
        Err(_) => Err(CodeRequestError::HashUnavailable),
    }
}

/// Issues a new code at the present moment to an approver whose login was
/// decided as `decision`.
pub fn generator_approver_code(
    approver: &mut Approver,
    decision: LoginDecision,
    config: &ApproversConfig,
) -> (r: Result<ApproverCode, CodeRequestError>)
    requires
        config.validity_days_code <= MAX_DAYS,
    ensures
        match r {
            Ok(code) => {
                &&& decision == LoginDecision::Accepted
                &&& code.days == Some(config.validity_days_code)
                &&& exists|now: Timestamp|
                    now.in_clock_range() && issued(
                        *old(approver),
                        *final(approver),
                        code.new_code@,
                        config.code_size as nat,
                        config.just_numbers,
                        config.validity_days_code as int,
                        now,
                    )
            },
            Err(e) => {
                &&& *final(approver) == *old(approver)
                &&& e == CodeRequestError::InvalidLogin <==> decision != LoginDecision::Accepted
            },
        },
{
    let now: Timestamp = Timestamp::now();
    generator_approver_code_at(approver, decision, config, now)
}

/// The approver to store at `now` for the request `data`; `taken` says
/// whether an approver of that user name exists. The record holds the
/// hashes of the password and of the code, and the validity that the
/// settings give to a code.
pub fn create_approver_at(data: ApproverData, taken: bool, config: &ApproversConfig, now: Timestamp) -> (r:
    Result<Approver, CreateApproverError>)
    requires
        now.in_clock_range(),
        config.validity_days_code <= MAX_DAYS,
    ensures
        match r {
            Ok(approver) => {
                &&& !taken
                &&& approver.id@.len() == 0
                &&& approver.username == data.username
                &&& approver.email == data.email
                &&& matches_hash(data.password@, approver.password@)
                &&& matches_hash(data.secret_code@, approver.secret_code@)
                &&& approver.approved_types@.len() == 0
                &&& approver.validity == validity_for(config.validity_days_code as int, now)
            },
            Err(e) => e == CreateApproverError::UsernameTaken <==> taken,
        },
{
    if taken {
        return Err(CreateApproverError::UsernameTaken);
    }
    let code: Result<String, HashError> = hash_secret(data.secret_code.as_str());
    let password: Result<String, HashError> = hash_secret(data.password.as_str());
    approver_with_hashes(data, code, password, config.validity_days_code as i64, now)
}

/// The approver of the request `data`, given the outcomes of hashing the
/// code and the password: with both hashes the record that holds them, not
/// yet stored, without any kind of access to grant, and with the validity
/// of a code issued at `now` for `days` days; without one of them the
/// error.
pub fn approver_with_hashes(
    data: ApproverData,
    code: Result<String, HashError>,
    password: Result<String, HashError>,
    days: i64,
    now: Timestamp,
) -> (r: Result<Approver, CreateApproverError>)
    requires
        now.in_clock_range(),
        -MAX_DAYS <= days <= MAX_DAYS,
    ensures
        match (code, password) {
            (Ok(c), Ok(p)) => {
                &&& r matches Ok(approver)
                &&& approver.id@.len() == 0
                &&& approver.username == data.username
                &&& approver.email == data.email
                &&& approver.password == p
                &&& approver.secret_code == c
                &&& approver.approved_types@.len() == 0
                &&& approver.validity == validity_for(days as int, now)
            },
            _ => r == Err::<Approver, CreateApproverError>(CreateApproverError::HashUnavailable),
        },
{
    let code: String = match code {
        Ok(h) => h,
        Err(_) => {
            return Err(CreateApproverError::HashUnavailable);
        },
    };
    let password: String = match password {
        Ok(h) => h,
        Err(_) => {
            return Err(CreateApproverError::HashUnavailable);
        },
    };
    let mut approver = Approver {
        id: String::new(),
        username: data.username,
        email: data.email,
        password,
        secret_code: code,
        approved_types: Vec::new(),
        validity: None,
    };
    approver.create_validity_at(days, now);
    Ok(approver)
}

/// The approver to store at the present moment for the request `data`.
pub fn create_approver(data: ApproverData, taken: bool, config: &ApproversConfig) -> (r: Result<
    Approver,
    CreateApproverError,
>)
    requires
        config.validity_days_code <= MAX_DAYS,
    ensures
        match r {
            Ok(approver) => {
                &&& !taken
                &&& approver.id@.len() == 0
                &&& approver.username == data.username
                &&& approver.email == data.email
                &&& matches_hash(data.password@, approver.password@)
                &&& matches_hash(data.secret_code@, approver.secret_code@)
                &&& approver.approved_types@.len() == 0
                &&& exists|now: Timestamp|
                    now.in_clock_range() && approver.validity == validity_for(
                        config.validity_days_code as int,
                        now,
                    )
            },
            Err(e) => e == CreateApproverError::UsernameTaken <==> taken,
        },
{
    let now: Timestamp = Timestamp::now();
    create_approver_at(data, taken, config, now)
}

/// What a change `update` makes of the approver `before` at `now`: the
/// address, the password and the code that the change gives replace the old
/// ones, the password and the code as hashes, and a new code gets the
/// validity that the settings give.
pub open spec fn approver_updated(
    before: Approver,
    after: Approver,
    update: ApproverUpdate,
    days: int,
    now: Timestamp,
) -> bool {
    &&& after.id == before.id
    &&& after.username == before.username
    &&& after.approved_types == before.approved_types
    &&& after.email == replaced_by(before.email, update.email)
    &&& match update.password {
        Some(p) => matches_hash(p@, after.password@),
        None => after.password == before.password,
    }
    &&& match update.secret_code {
        Some(c) => matches_hash(c@, after.secret_code@) && after.validity == validity_for(
            days,
            now,
        ),
        None => after.secret_code == before.secret_code && after.validity == before.validity,
    }
}

/// Changes a stored approver at `now`. A change that gives neither a
/// password nor a code needs no hash and always goes through. Where a hash
/// is needed and none can be made the record stays as it is.
pub fn update_approver_at(
    approver: &mut Approver,
    update: ApproverUpdate,
    config: &ApproversConfig,
    now: Timestamp,
) -> (r: Result<(), HashError>)
    requires
        now.in_clock_range(),
        config.validity_days_code <= MAX_DAYS,
    ensures
        match r {
            Ok(()) => approver_updated(
                *old(approver),
                *final(approver),
                update,
                config.validity_days_code as int,
                now,
            ),
            Err(_) => *final(approver) == *old(approver),
        },
        update.password is None && update.secret_code is None ==> r is Ok,
{
    let password: Option<Result<String, HashError>> = hash_optional(&update.password);
    let code: Option<Result<String, HashError>> = hash_optional(&update.secret_code);
    change_approver(approver, update, password, code, config.validity_days_code as i64, now)
}

/// The hash in an outcome of hashing, where there is one.
pub open spec fn hash_in(outcome: Option<Result<String, HashError>>) -> Option<String> {
    match outcome {
        Some(Ok(h)) => Some(h),
        _ => None,
    }
}

/// Whether an outcome of hashing is a failure.
pub open spec fn hash_failed(outcome: Option<Result<String, HashError>>) -> bool {
    outcome matches Some(Err(_))
}

/// Changes a stored approver at `now`, given the outcomes of hashing the new
/// password and the new code, each `None` where the change gives none.
/// Where one of them failed the record stays as it is. Else the record
/// takes the new address, the hash of the password where there is one, and
/// the hash of the code where there is one, with the validity of a code
/// issued at `now` for `days` days.
pub fn change_approver(
    approver: &mut Approver,
    update: ApproverUpdate,
    password: Option<Result<String, HashError>>,
    code: Option<Result<String, HashError>>,
    days: i64,
    now: Timestamp,
) -> (r: Result<(), HashError>)
    requires
        now.in_clock_range(),
        -MAX_DAYS <= days <= MAX_DAYS,
    ensures
        if hash_failed(password) || hash_failed(code) {
            r is Err && *final(approver) == *old(approver)
        } else {
            r is Ok && *final(approver) == (Approver {
                email: replaced_by(old(approver).email, update.email),
                password: replaced_by(old(approver).password, hash_in(password)),
                secret_code: replaced_by(old(approver).secret_code, hash_in(code)),
                validity: if code is Some {
                    validity_for(days as int, now)
                } else {
                    old(approver).validity
                },
                ..*old(approver)
            })
        },
{
    let password: Option<String> = match password {
        Some(Ok(h)) => Some(h),
        Some(Err(e)) => {
            return Err(e);
        },
        None => None,
    };
    let code: Option<String> = match code {
        Some(Ok(h)) => Some(h),
        Some(Err(e)) => {
            return Err(e);
        },
        None => None,
    };
    if let Some(email) = update.email {
        approver.email = email;
    }
    if let Some(h) = password {
        approver.password = h;
    }
    if let Some(h) = code {
        approver.store_code(h, days, now);
    }
    Ok(())
}

/// Changes a stored approver at the present moment.
pub fn update_approver(approver: &mut Approver, update: ApproverUpdate, config: &ApproversConfig) -> (r:
    Result<(), HashError>)
    requires
        config.validity_days_code <= MAX_DAYS,
    ensures
        match r {
            Ok(()) => exists|now: Timestamp|
                now.in_clock_range() && approver_updated(
                    *old(approver),
                    *final(approver),
                    update,
                    config.validity_days_code as int,
                    now,
                ),
            Err(_) => *final(approver) == *old(approver),
        },
        update.password is None && update.secret_code is None ==> r is Ok && final(approver).email
            == replaced_by(old(approver).email, update.email) && *final(approver) == (Approver {
            email: final(approver).email,
            ..*old(approver)
        }),
{
    let now: Timestamp = Timestamp::now();
    update_approver_at(approver, update, config, now)
}

/// The approvers as they are shown: without their passwords and codes.
pub fn get_approvers(approvers: Vec<Approver>) -> (shown: Vec<Approver>)
    ensures
        shown@.len() == approvers@.len(),
        forall|i: int|
            0 <= i < approvers@.len() ==> (#[trigger] shown@[i]).password@.len() == 0
                && shown@[i].secret_code@.len() == 0 && shown@[i] == (Approver {
                password: shown@[i].password,
                secret_code: shown@[i].secret_code,
                ..approvers@[i]
            }),
{
    let mut shown: Vec<Approver> = approvers;
    let mut i: usize = 0;
    while i < shown.len()
        invariant
            i <= shown@.len(),
            shown@.len() == approvers@.len(),
            forall|j: int|
                0 <= j < i ==> (#[trigger] shown@[j]).password@.len() == 0
                    && shown@[j].secret_code@.len() == 0 && shown@[j] == (Approver {
                    password: shown@[j].password,
                    secret_code: shown@[j].secret_code,
                    ..approvers@[j]
                }),
            forall|j: int| i <= j < shown@.len() ==> shown@[j] == approvers@[j],
        decreases shown@.len() - i,
    {
        shown[i].password = String::new();
        shown[i].secret_code = String::new();
        i += 1;
    }
    shown
}

} // verus!
