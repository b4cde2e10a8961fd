//! What the repository takes in and hands out.

use vstd::prelude::*;
use crate::ids::FaceId;
use crate::ids::PersonId;
use rusqlite::types::Value;

verus! {

/// A stored face, as shown beside its picture.
#[derive(Debug, Clone, PartialEq)]
pub struct Face {
    pub face_id: FaceId,
    /// Absolute path of the face's thumbnail.
    pub thumbnail_path: String,
}

/// A named person that a face is linked to.
#[derive(Debug, Clone, PartialEq)]
pub struct Person {
    pub person_id: PersonId,
    pub name: String,
    /// Absolute path of the person's thumbnail.
    pub thumbnail_path: String,
}

/// The box around a detected face. The numbers are the detector's; this
/// library stores them and never reads them.
#[derive(Debug, Clone, PartialEq)]
pub struct Bounds {
    pub x: Value,
    pub y: Value,
    pub width: Value,
    pub height: Value,
}

/// One candidate face as the detector reports it.
#[derive(Debug, Clone, PartialEq)]
pub struct Observation {
    /// Absolute path of the generated thumbnail, under the cache root.
    pub thumbnail_path: String,
    /// Absolute path of the generated picture of the bounds, under the cache root.
    pub bounds_path: String,
    pub model_name: String,
    pub bounds: Bounds,
    pub right_eye: Option<(Value, Value)>,
    pub left_eye: Option<(Value, Value)>,
    pub nose: Option<(Value, Value)>,
    pub right_mouth_corner: Option<(Value, Value)>,
    pub left_mouth_corner: Option<(Value, Value)>,
    pub confidence: Value,
}

/// Why an operation of the repository failed.
#[derive(Debug)]
pub enum RepoError {
    /// The library root is not a directory.
    NotADirectory,
    /// A path to store does not lie under the cache root.
    PathNotUnderCache,
    /// A row of the store does not hold what a face needs.
    Decode,
    /// More faces than the store can count.
    TooManyFaces,
    /// Another holder of the connection panicked while it held the lock.
    Poisoned,
    /// The store refused a statement or a transaction.
    Storage(rusqlite::Error),
}

/// What a call on the store comes to: its value where the store gave one,
/// and the store's own error, kept as it came, where the store refused.
pub fn stored<T>(step: Result<T, rusqlite::Error>) -> (r: Result<T, RepoError>)
    ensures
        match step {
            Ok(v) => r == Ok::<T, RepoError>(v),
            Err(e) => r == Err::<T, RepoError>(RepoError::Storage(e)),
        },
{
    match step {
        Ok(v) => Ok(v),
        Err(e) => Err(RepoError::Storage(e)),
    }
}

/// What an attempt to take the connection's lock comes to: the lock where it
/// was had, `Poisoned` where it was not.
pub fn held<G>(guard: Option<G>) -> (r: Result<G, RepoError>)
    ensures
        match guard {
            Some(g) => r == Ok::<G, RepoError>(g),
            None => r == Err::<G, RepoError>(RepoError::Poisoned),
        },
{
    match guard {
        Some(g) => Ok(g),
        None => Err(RepoError::Poisoned),
    }
}

} // verus!
