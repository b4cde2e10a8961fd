//! Identifiers of the catalogue's rows.

use vstd::prelude::*;

verus! {

/// Identifies one picture of the library.
#[derive(Clone, Copy, Debug, PartialEq, Eq, Structural, Hash)]
pub struct PictureId {
    id: i64,
}

impl PictureId {
    /// The identifier as the store keeps it.
    pub closed spec fn value(self) -> int {
        self.id as int
    }

    pub fn new(id: i64) -> (r: PictureId)
        ensures
            r.value() == id,
    {
        PictureId { id }
    }

    pub fn id(&self) -> (r: i64)
        ensures
            r == self.value(),
    {
        self.id
    }
}

/// Identifies one detected face.
#[derive(Clone, Copy, Debug, PartialEq, Eq, Structural, Hash)]
pub struct FaceId {
    id: i64,
}

impl FaceId {
    /// The identifier as the store keeps it.
    pub closed spec fn value(self) -> int {
        self.id as int
    }

    pub fn new(id: i64) -> (r: FaceId)
        ensures
            r.value() == id,
    {
        FaceId { id }
    }

    pub fn id(&self) -> (r: i64)
        ensures
            r == self.value(),
    {
        self.id
    }
}

/// Identifies one named person.
#[derive(Clone, Copy, Debug, PartialEq, Eq, Structural, Hash)]
pub struct PersonId {
    id: i64,
}

impl PersonId {
    /// The identifier as the store keeps it.
    pub closed spec fn value(self) -> int {
        self.id as int
    }

    pub fn new(id: i64) -> (r: PersonId)
        ensures
            r.value() == id,
    {
        PersonId { id }
    }

    pub fn id(&self) -> (r: i64)
        ensures
            r == self.value(),
    {
        self.id
    }
}

} // verus!
