//! What a login token says: for whom it stands and when it runs out.

use crate::utils::clock::{unix_now, CLOCK_LIMIT};
use vstd::prelude::*;
use vstd::string::*;

verus! {

/// Seconds in one hour.
pub const HOUR: u64 = 3_600;

/// The greatest number of hours that a token may be good for.
pub const MAX_TOKEN_HOURS: u64 = 0xffff_ffff;

/// The claims of a token: the identifier of the record that it stands for,
/// and the moment at which it runs out, in seconds since 1970-01-01
/// 00:00:00 UTC.
#[derive(Debug)]
pub struct Claims {
    pub sub: String,
    pub exp: u64,
}

/// The claims of a token made at `now` for the record `user_id` and good
/// for `hours` hours.
pub fn create_claims_at(user_id: &str, hours: u64, now: u64) -> (claims: Claims)
    requires
        now + hours * HOUR <= u64::MAX,
    ensures
        claims.sub@ == user_id@,
        claims.exp == now + hours * HOUR,
{
    Claims { sub: String::from_str(user_id), exp: now + hours * HOUR }
}

/// The claims of a token made at the present moment for the record
/// `user_id` and good for `hours` hours.
pub fn create_claims(user_id: &str, hours: u64) -> (claims: Claims)
    requires
        hours <= MAX_TOKEN_HOURS,
    ensures
        claims.sub@ == user_id@,
        hours * HOUR <= claims.exp < hours * HOUR + CLOCK_LIMIT,
{
    let now: u64 = unix_now();
    create_claims_at(user_id, hours, now)
}

} // verus!
