//! What the portal answers when it has done what was asked: a status and a
//! body.

use vstd::prelude::*;

verus! {

pub struct Response;

impl Response {
    pub fn new_custom<B>(status: u16, body: B) -> (answer: (u16, B))
        ensures
            answer == (status, body),
    {
        (status, body)
    }

    /// The answer with status 200.
    pub fn new_ok<B>(body: B) -> (answer: (u16, B))
        ensures
            answer == (200u16, body),
    {
        Self::new_custom(200, body)
    }

    /// The answer with status 201.
    pub fn new_created<B>(body: B) -> (answer: (u16, B))
        ensures
            answer == (201u16, body),
    {
        Self::new_custom(201, body)
    }

    /// An answer that is a status and nothing else.
    pub fn new_custom_status(status: u16) -> (answer: u16)
        ensures
            answer == status,
    {
        status
    }

    /// The answer with status 202.
    pub fn new_accepted<B>(body: B) -> (answer: (u16, B))
        ensures
            answer == (202u16, body),
    {
        Self::new_custom(202, body)
    }
}

} // verus!
