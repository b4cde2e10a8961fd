//! Bookkeeping for face detection in a photo library: which pictures have
//! been scanned, what was found in them, and who the faces belong to.

pub mod encoding;
pub mod ids;
pub mod model;
pub mod paths;
pub mod plan;
pub mod repo;
pub mod sql;
pub mod store;
pub mod writes;

pub use ids::FaceId;
pub use ids::PersonId;
pub use ids::PictureId;
pub use model::Bounds;
pub use model::Face;
pub use model::Observation;
pub use model::Person;
pub use model::RepoError;
pub use repo::Repository;
pub use store::Cell;
pub use store::FaceRow;
pub use store::PictureRow;
