//! The statements that the repository runs.

use vstd::prelude::*;

verus! {

/// Pictures without a scan record that are not broken, newest first by the
/// first timestamp that is known.
pub const FIND_NEED_FACE_SCAN: &'static str = "SELECT
    pictures.picture_id,
    pictures.picture_path_b64,
    COALESCE(
        pictures.exif_created_ts,
        pictures.exif_modified_ts,
        pictures.fs_created_ts,
        pictures.fs_modified_ts,
        CURRENT_TIMESTAMP
    ) AS ordering_ts
FROM pictures
LEFT OUTER JOIN pictures_face_scans USING (picture_id)
WHERE pictures_face_scans.picture_id IS NULL
AND COALESCE(pictures.is_broken, FALSE) IS FALSE
ORDER BY ordering_ts DESC";

/// The faces of one picture that still count as faces, each with the person
/// it is linked to, in the order of their ids.
pub const FIND_FACES: &'static str = "SELECT
    pictures_faces.face_id AS face_id,
    pictures_faces.thumbnail_path AS face_thumbnail_path,
    people.person_id AS person_id,
    people.name AS person_name,
    people.thumbnail_path AS person_thumbnail_path
FROM pictures_faces
LEFT OUTER JOIN people USING (person_id)
WHERE picture_id = ?1 AND pictures_faces.is_face = TRUE
ORDER BY pictures_faces.face_id ASC";

/// Writes the scan record of a picture, over the one that is there.
pub const UPSERT_FACE_SCAN: &'static str = "INSERT INTO pictures_face_scans (
    picture_id,
    is_broken,
    face_count,
    scan_ts
) VALUES (
    ?1, ?2, ?3, CURRENT_TIMESTAMP
) ON CONFLICT (picture_id) DO UPDATE SET
    is_broken = ?2,
    face_count = ?3,
    scan_ts = CURRENT_TIMESTAMP";

/// Stores one face.
pub const INSERT_FACE: &'static str = "INSERT INTO pictures_faces (
    picture_id,
    thumbnail_path,
    bounds_path,
    model_name,
    bounds_x,
    bounds_y,
    bounds_width,
    bounds_height,
    right_eye_x,
    right_eye_y,
    left_eye_x,
    left_eye_y,
    nose_x,
    nose_y,
    right_mouth_corner_x,
    right_mouth_corner_y,
    left_mouth_corner_x,
    left_mouth_corner_y,
    confidence,
    is_face
) VALUES (
    ?1, ?2, ?3, ?4, ?5, ?6, ?7, ?8, ?9, ?10,
    ?11, ?12, ?13, ?14, ?15, ?16, ?17, ?18, ?19, TRUE
)";

/// Withdraws one face without deleting it.
pub const MARK_NOT_A_FACE: &'static str = "UPDATE pictures_faces
SET
    is_face = FALSE
WHERE face_id = ?1";

} // verus!
