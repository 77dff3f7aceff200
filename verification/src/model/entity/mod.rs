//! The records that the portal keeps.

pub mod admin;
pub mod approver;
pub mod client;
pub mod guest;
pub mod user;

use vstd::prelude::*;

verus! {

/// A record that is stored under an identifier of type `I`, in a collection
/// that its type names.
pub trait Entity<I>: Sized {
    /// The identifier of the record.
    spec fn id_of(&self) -> I;

    /// The record with `id` as its identifier and nothing else changed.
    spec fn with_id(self, id: I) -> Self;

    /// The name of the collection that holds the records of this type.
    spec fn collection_name() -> Seq<char>;

    fn get_id(&self) -> (id: I)
        ensures
            id == self.id_of(),
    ;

    fn set_id(&mut self, new_id: I)
        ensures
            *final(self) == old(self).with_id(new_id),
    ;

    fn get_name() -> (name: String)
        ensures
            name@ == Self::collection_name(),
    ;
}

} // verus!
