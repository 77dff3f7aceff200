//! What the portal answers when it turns a request down.

use crate::utils::clock::now_text;
use vstd::prelude::*;
use vstd::string::*;

verus! {

/// An answer that turns a request down: what went wrong, when, and the
/// status to answer with.
#[derive(Debug)]
pub struct Error {
    pub err: String,
    pub time: String,
    pub status: u16,
}

impl Error {
    pub fn new_with_custom(msg: &str, time: String, status: u16) -> (error: Error)
        ensures
            error.err@ == msg@,
            error.time == time,
            error.status == status,
    {
        Error { err: String::from_str(msg), time, status }
    }

    /// The answer to a request that nobody has logged in for: status 401.
    pub fn new_unauthorized(msg: &str) -> (error: Error)
        ensures
            error.err@ == msg@,
            error.status == 401,
    {
        Self::new_with_custom(msg, now_text(), 401)
    }

    /// The answer to a request that makes no sense: status 400.
    pub fn new_bad_request(msg: &str) -> (error: Error)
        ensures
            error.err@ == msg@,
            error.status == 400,
    {
        Self::new_with_custom(msg, now_text(), 400)
    }

    /// The answer to a request for what is not there: status 404.
    pub fn new_not_found(msg: &str) -> (error: Error)
        ensures
            error.err@ == msg@,
            error.status == 404,
    {
        Self::new_with_custom(msg, now_text(), 404)
    }
}

} // verus!
