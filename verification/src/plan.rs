//! What each operation hands to the store, and in which order a write is
//! carried out.

use vstd::prelude::*;
use crate::ids::PictureId;
use crate::model::Observation;
use crate::model::RepoError;
use crate::sql::FIND_FACES;
use crate::sql::FIND_NEED_FACE_SCAN;
use crate::sql::INSERT_FACE;
use crate::sql::MARK_NOT_A_FACE;
use crate::sql::UPSERT_FACE_SCAN;
use crate::store::cells_view;
use crate::store::Cell;
use crate::writes::all_under;
use crate::writes::correction_cells;
use crate::writes::correction_row;
use crate::writes::face_cells;
use crate::writes::face_row;
use crate::writes::scan_cells;
use crate::writes::scan_row;

verus! {

/// One statement of a write, with its parameters.
#[derive(Debug, Clone, PartialEq)]
pub struct Statement {
    pub sql: &'static str,
    pub cells: Vec<Cell>,
}

/// The statement has this text and these parameters.
pub open spec fn runs(s: Statement, sql: Seq<char>, cells: Seq<crate::store::CellView>) -> bool {
    s.sql@ == sql && cells_view(s.cells@) == cells
}

/// The write that marks a picture as not scannable: the scan record alone,
/// broken, with no faces.
pub open spec fn is_broken_scan_plan(picture_id: int, plan: Seq<Statement>) -> bool {
    &&& plan.len() == 1
    &&& runs(plan[0], UPSERT_FACE_SCAN@, scan_row(picture_id, true, 0))
}

/// The write that records a scan: first the scan record, not broken, with the
/// number of observations, then one face for each observation, in their
/// order.
pub open spec fn is_scan_plan(
    cache_root: Seq<char>,
    picture_id: int,
    faces: Seq<Observation>,
    plan: Seq<Statement>,
) -> bool {
    &&& plan.len() == faces.len() + 1
    &&& runs(plan[0], UPSERT_FACE_SCAN@, scan_row(picture_id, false, faces.len() as int))
    &&& forall|k: int|
        1 <= k < plan.len() ==> runs(
            #[trigger] plan[k],
            INSERT_FACE@,
            face_row(cache_root, picture_id, faces[k - 1]),
        )
}

/// The write that withdraws a face: one statement on the face of that id.
pub open spec fn is_correction_plan(face_id: int, plan: Seq<Statement>) -> bool {
    &&& plan.len() == 1
    &&& runs(plan[0], MARK_NOT_A_FACE@, correction_row(face_id))
}

/// What `mark_face_scan_broken` hands to the store.
pub fn broken_scan_plan(picture_id: i64) -> (r: Vec<Statement>)
    ensures
        is_broken_scan_plan(picture_id as int, r@),
{
    let mut plan: Vec<Statement> = Vec::new();
    plan.push(Statement { sql: UPSERT_FACE_SCAN, cells: scan_cells(picture_id, true, 0) });
    plan
}

/// What `mark_not_a_face` hands to the store.
pub fn correction_plan(face_id: i64) -> (r: Vec<Statement>)
    ensures
        is_correction_plan(face_id as int, r@),
{
    let mut plan: Vec<Statement> = Vec::new();
    plan.push(Statement { sql: MARK_NOT_A_FACE, cells: correction_cells(face_id) });
    plan
}

/// What `add_face_scans` hands to the store. There is a plan exactly where
/// every generated file lies under the cache root and the number of faces
/// fits the store's integers; a file outside the root is reported first.
pub fn scan_plan(cache_root: &str, picture_id: i64, faces: &Vec<Observation>) -> (r: Result<
    Vec<Statement>,
    RepoError,
>)
    ensures
        r is Ok <==> all_under(cache_root@, faces@) && faces.len() <= i64::MAX,
        r matches Ok(plan) ==> is_scan_plan(cache_root@, picture_id as int, faces@, plan@),
        r matches Err(e) ==> {
            &&& e is PathNotUnderCache || e is TooManyFaces
            &&& e is PathNotUnderCache <==> !all_under(cache_root@, faces@)
        },
{
    let count: u64 = faces.len() as u64;
    let fits = count <= 0x7fff_ffff_ffff_ffff;
    let stored_count: i64 = if fits {
        count as i64
    } else {
        0
    };
    let mut plan: Vec<Statement> = Vec::new();
    plan.push(Statement { sql: UPSERT_FACE_SCAN, cells: scan_cells(picture_id, false, stored_count) });
    let mut i: usize = 0;
    while i < faces.len()
        invariant
            i <= faces.len(),
            plan.len() == i + 1,
            runs(plan[0], UPSERT_FACE_SCAN@, scan_row(picture_id as int, false, stored_count as int)),
            forall|j: int| 0 <= j < i ==> crate::writes::paths_under(cache_root@, #[trigger] faces[j]),
            forall|k: int|
                1 <= k < plan.len() ==> runs(
                    #[trigger] plan[k],
                    INSERT_FACE@,
                    face_row(cache_root@, picture_id as int, faces[k - 1]),
                ),
        decreases faces.len() - i,
    {
        match face_cells(cache_root, picture_id, &faces[i]) {
            Ok(cells) => {
                plan.push(Statement { sql: INSERT_FACE, cells });
            },
            Err(e) => {
                assert(!crate::writes::paths_under(cache_root@, faces[i as int]));
                return Err(e);
            },
        }
        i = i + 1;
    }
    if !fits {
        return Err(RepoError::TooManyFaces);
    }
    Ok(plan)
}

/// What `find_faces` hands to the store: the statement and the picture's id.
pub fn faces_query(picture_id: &PictureId) -> (r: (&'static str, i64))
    ensures
        r.0@ == FIND_FACES@,
        r.1 == picture_id.value(),
{
    (FIND_FACES, picture_id.id())
}

/// What `find_need_face_scan` hands to the store: the statement alone.
pub fn scan_queue_query() -> (r: &'static str)
    ensures
        r@ == FIND_NEED_FACE_SCAN@,
{
    FIND_NEED_FACE_SCAN
}

/// One move of a write inside its transaction.
#[derive(Debug)]
pub enum Action {
    /// Run the statement at this place of the plan.
    Execute(usize),
    /// Every statement has run: commit.
    Commit,
    /// End with this error, without a commit.
    GiveUp(RepoError),
}

/// The move that follows, given how many statements have run and what the
/// last step came to: after a failure nothing more is run and nothing is
/// committed; otherwise the statements run in their order, and the commit
/// comes after the last.
pub open spec fn next_step(total: usize, done: usize, last: Result<(), RepoError>) -> Action {
    match last {
        Err(e) => Action::GiveUp(e),
        Ok(_) => if done < total {
            Action::Execute(done)
        } else {
            Action::Commit
        },
    }
}

/// Decides the next move of a write.
pub fn next_action(total: usize, done: usize, last: Result<(), RepoError>) -> (r: Action)
    ensures
        r == next_step(total, done, last),
{
    match last {
        Err(e) => Action::GiveUp(e),
        Ok(_) => if done < total {
            Action::Execute(done)
        } else {
            Action::Commit
        },
    }
}

} // verus!
