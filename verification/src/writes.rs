//! The parameters of the statements that record a scan.

use vstd::prelude::*;
use crate::model::Observation;
use crate::model::RepoError;
use crate::paths::is_under;
use crate::paths::relative_to;
use crate::paths::stripped;
use crate::store::cells_view;
use crate::store::Cell;
use crate::store::CellView;
use rusqlite::types::Value;

verus! {

/// The two columns of a landmark: both numbers, or both null.
pub open spec fn pair_cells(p: Option<(Value, Value)>) -> (CellView, CellView) {
    match p {
        Some(xy) => (CellView::Number(xy.0), CellView::Number(xy.1)),
        None => (CellView::Null, CellView::Null),
    }
}

/// The scan record of a picture: its id, whether the scan failed, and the
/// number of faces found.
pub open spec fn scan_row(picture_id: int, is_broken: bool, face_count: int) -> Seq<CellView> {
    seq![
        CellView::Integer(picture_id),
        CellView::Integer(if is_broken { 1int } else { 0int }),
        CellView::Integer(face_count),
    ]
}

/// The row of one face: the picture, the two paths relative to the cache
/// root, the model, the bounds, the five landmarks as ten columns, and the
/// confidence.
pub open spec fn face_row(cache_root: Seq<char>, picture_id: int, o: Observation) -> Seq<CellView>
    recommends
        paths_under(cache_root, o),
{
    seq![
        CellView::Integer(picture_id),
        CellView::Text(stripped(o.thumbnail_path@, cache_root).unwrap()),
        CellView::Text(stripped(o.bounds_path@, cache_root).unwrap()),
        CellView::Text(o.model_name@),
        CellView::Number(o.bounds.x),
        CellView::Number(o.bounds.y),
        CellView::Number(o.bounds.width),
        CellView::Number(o.bounds.height),
        pair_cells(o.right_eye).0,
        pair_cells(o.right_eye).1,
        pair_cells(o.left_eye).0,
        pair_cells(o.left_eye).1,
        pair_cells(o.nose).0,
        pair_cells(o.nose).1,
        pair_cells(o.right_mouth_corner).0,
        pair_cells(o.right_mouth_corner).1,
        pair_cells(o.left_mouth_corner).0,
        pair_cells(o.left_mouth_corner).1,
        CellView::Number(o.confidence),
    ]
}

/// Both generated files of the observation lie under the cache root.
pub open spec fn paths_under(cache_root: Seq<char>, o: Observation) -> bool {
    is_under(o.thumbnail_path@, cache_root) && is_under(o.bounds_path@, cache_root)
}

/// Every observation's files lie under the cache root.
pub open spec fn all_under(cache_root: Seq<char>, faces: Seq<Observation>) -> bool {
    forall|i: int| 0 <= i < faces.len() ==> paths_under(cache_root, #[trigger] faces[i])
}

/// In the row of a face no landmark is stored by halves: of its two columns
/// either both are null or both hold the numbers of the pair, x before y.
pub proof fn lemma_landmarks_whole(cache_root: Seq<char>, picture_id: int, o: Observation, k: int)
    requires
        0 <= k < 5,
    ensures
        face_row(cache_root, picture_id, o).len() == 19,
        ({
            let row = face_row(cache_root, picture_id, o);
            let p = if k == 0 {
                o.right_eye
            } else if k == 1 {
                o.left_eye
            } else if k == 2 {
                o.nose
            } else if k == 3 {
                o.right_mouth_corner
            } else {
                o.left_mouth_corner
            };
            &&& row[8 + 2 * k] is Null <==> row[9 + 2 * k] is Null
            &&& row[8 + 2 * k] is Null <==> p is None
            &&& p matches Some(xy) ==> row[8 + 2 * k] == CellView::Number(xy.0) && row[9 + 2 * k]
                == CellView::Number(xy.1)
        }),
{
}

/// The one parameter of the statement that withdraws a face: the face's id.
pub open spec fn correction_row(face_id: int) -> Seq<CellView> {
    seq![CellView::Integer(face_id)]
}

/// The parameters of the statement that withdraws a face.
pub fn correction_cells(face_id: i64) -> (r: Vec<Cell>)
    ensures
        r.len() == 1,
        cells_view(r@) == correction_row(face_id as int),
{
    let mut cells: Vec<Cell> = Vec::new();
    cells.push(Cell::Integer(face_id));
    assert(cells_view(cells@) =~= correction_row(face_id as int));
    cells
}

/// The parameters of the statement that records a scan.
pub fn scan_cells(picture_id: i64, is_broken: bool, face_count: i64) -> (r: Vec<Cell>)
    ensures
        r.len() == 3,
        cells_view(r@) == scan_row(picture_id as int, is_broken, face_count as int),
{
    let flag: i64 = if is_broken { 1 } else { 0 };
    let mut cells: Vec<Cell> = Vec::new();
    cells.push(Cell::Integer(picture_id));
    cells.push(Cell::Integer(flag));
    cells.push(Cell::Integer(face_count));
    assert(cells_view(cells@) =~= scan_row(picture_id as int, is_broken, face_count as int));
    cells
}

fn landmark(p: &Option<(Value, Value)>) -> (r: (Cell, Cell))
    ensures
        r.0@ == pair_cells(*p).0,
        r.1@ == pair_cells(*p).1,
{
    match p {
        Some(xy) => (Cell::Number(xy.0.clone()), Cell::Number(xy.1.clone())),
        None => (Cell::Null, Cell::Null),
    }
}

/// The parameters of the statement that stores one face. Fails where one of
/// the observation's two files does not lie under the cache root, and only
/// there.
pub fn face_cells(cache_root: &str, picture_id: i64, o: &Observation) -> (r: Result<
    Vec<Cell>,
    RepoError,
>)
    ensures
        r is Ok <==> paths_under(cache_root@, *o),
        r matches Ok(cells) ==> cells.len() == 19 && cells_view(cells@) == face_row(
            cache_root@,
            picture_id as int,
            *o,
        ),
        r matches Err(e) ==> e is PathNotUnderCache,
{
    let thumbnail = match relative_to(cache_root, o.thumbnail_path.as_str()) {
        Some(p) => p,
        None => {
            return Err(RepoError::PathNotUnderCache);
        },
    };
    let bounds = match relative_to(cache_root, o.bounds_path.as_str()) {
        Some(p) => p,
        None => {
            return Err(RepoError::PathNotUnderCache);
        },
    };
    let right_eye = landmark(&o.right_eye);
    let left_eye = landmark(&o.left_eye);
    let nose = landmark(&o.nose);
    let right_mouth_corner = landmark(&o.right_mouth_corner);
    let left_mouth_corner = landmark(&o.left_mouth_corner);
    let mut cells: Vec<Cell> = Vec::new();
    cells.push(Cell::Integer(picture_id));
    cells.push(Cell::Text(thumbnail));
    cells.push(Cell::Text(bounds));
    cells.push(Cell::Text(o.model_name.clone()));
    cells.push(Cell::Number(o.bounds.x.clone()));
    cells.push(Cell::Number(o.bounds.y.clone()));
    cells.push(Cell::Number(o.bounds.width.clone()));
    cells.push(Cell::Number(o.bounds.height.clone()));
    cells.push(right_eye.0);
    cells.push(right_eye.1);
    cells.push(left_eye.0);
    cells.push(left_eye.1);
    cells.push(nose.0);
    cells.push(nose.1);
    cells.push(right_mouth_corner.0);
    cells.push(right_mouth_corner.1);
    cells.push(left_mouth_corner.0);
    cells.push(left_mouth_corner.1);
    cells.push(Cell::Number(o.confidence.clone()));
    assert(cells_view(cells@) =~= face_row(cache_root@, picture_id as int, *o));
    Ok(cells)
}

/// The rows of all faces of one scan, in the order of the observations.
/// Fails where any observation's file does not lie under the cache root, and
/// only there: then no row is handed out at all.
pub fn face_rows(cache_root: &str, picture_id: i64, faces: &Vec<Observation>) -> (r: Result<
    Vec<Vec<Cell>>,
    RepoError,
>)
    ensures
        r is Ok <==> all_under(cache_root@, faces@),
        r matches Ok(rows) ==> rows.len() == faces.len() && forall|i: int|
            0 <= i < rows.len() ==> cells_view(#[trigger] rows[i]@) == face_row(
                cache_root@,
                picture_id as int,
                faces[i],
            ),
        r matches Err(e) ==> e is PathNotUnderCache,
{
    let mut rows: Vec<Vec<Cell>> = Vec::new();
    let mut i: usize = 0;
    while i < faces.len()
        invariant
            i <= faces.len(),
            rows.len() == i,
            forall|j: int| 0 <= j < i ==> paths_under(cache_root@, #[trigger] faces[j]),
            forall|j: int|
                0 <= j < i ==> cells_view(#[trigger] rows[j]@) == face_row(
                    cache_root@,
                    picture_id as int,
                    faces[j],
                ),
        decreases faces.len() - i,
    {
        match face_cells(cache_root, picture_id, &faces[i]) {
            Ok(cells) => {
                rows.push(cells);
            },
            Err(e) => {
                assert(!paths_under(cache_root@, faces[i as int]));
                return Err(e);
            },
        }
        i = i + 1;
    }
    Ok(rows)
}

} // verus!
