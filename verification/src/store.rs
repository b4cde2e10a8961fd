//! The boundary to SQLite: the types of `rusqlite` that pass through the
//! library, and one function for each call that is made on them.

use vstd::prelude::*;
use std::sync::Arc;
use std::sync::Mutex;
use std::sync::MutexGuard;
use rusqlite::types::Value;

verus! {

/// `rusqlite::Connection`, an open SQLite database. Nothing is known of what
/// it holds.
#[verifier::external_type_specification]
#[verifier::external_body]
pub struct ExConnection(rusqlite::Connection);

/// `rusqlite::Error`, carried to the caller as it came.
#[verifier::external_type_specification]
#[verifier::external_body]
pub struct ExStorageError(rusqlite::Error);

/// `rusqlite::Transaction`, an open transaction on a connection.
#[verifier::external_type_specification]
#[verifier::external_body]
pub struct ExTransaction<'a>(rusqlite::Transaction<'a>);

/// `rusqlite::types::Value`, one value of a column. The library carries the
/// detector's numbers in it and never looks inside.
#[verifier::external_type_specification]
#[verifier::external_body]
pub struct ExValue(rusqlite::types::Value);

/// `std::sync::Mutex`.
#[verifier::external_type_specification]
#[verifier::external_body]
#[verifier::reject_recursive_types(T)]
pub struct ExMutex<T: ?Sized>(Mutex<T>);

/// `std::sync::MutexGuard`, the held lock of a mutex.
#[verifier::external_type_specification]
#[verifier::external_body]
#[verifier::reject_recursive_types(T)]
pub struct ExMutexGuard<'a, T: ?Sized + 'a>(MutexGuard<'a, T>);

/// One bound parameter of a statement.
#[derive(Debug, Clone, PartialEq)]
pub enum Cell {
    Null,
    Integer(i64),
    Text(String),
    /// A number of the detector, carried through as it came.
    Number(Value),
}

/// A `Cell` with its text as a sequence.
pub enum CellView {
    Null,
    Integer(int),
    Text(Seq<char>),
    Number(Value),
}

impl View for Cell {
    type V = CellView;

    open spec fn view(&self) -> CellView {
        match *self {
            Cell::Null => CellView::Null,
            Cell::Integer(i) => CellView::Integer(i as int),
            Cell::Text(s) => CellView::Text(s@),
            Cell::Number(v) => CellView::Number(v),
        }
    }
}

/// The parameters of one statement, each by its view.
pub open spec fn cells_view(cells: Seq<Cell>) -> Seq<CellView> {
    Seq::new(cells.len(), |i: int| cells[i]@)
}

/// A row of the scan queue as the store returned it. A column that is null or
/// of another type than expected is `None`.
#[derive(Debug, Clone, PartialEq)]
pub struct PictureRow {
    pub picture_id: Option<i64>,
    /// The picture's path below the library root, encoded as base64.
    pub picture_path_b64: Option<String>,
}

/// A face joined with the person it is linked to, as the store returned it.
#[derive(Debug, Clone, PartialEq)]
pub struct FaceRow {
    pub face_id: Option<i64>,
    pub face_thumbnail_path: Option<String>,
    pub person_id: Option<i64>,
    pub person_name: Option<String>,
    pub person_thumbnail_path: Option<String>,
}

/// `clone` of `rusqlite::types::Value`, which `rusqlite` derives: the copy
/// equals the value it was made from.
pub assume_specification[ <rusqlite::types::Value as Clone>::clone ](v: &Value) -> (r: Value)
    ensures
        r == *v,
;

/// Calls `std::path::Path::is_dir`, which asks the file system. Nothing is
/// claimed of the answer.
#[verifier::external_body]
pub(crate) fn is_dir(path: &str) -> (r: bool) {
    std::path::Path::new(path).is_dir()
}

/// Calls `std::sync::Mutex::lock`. `None` where the mutex is poisoned.
#[verifier::external_body]
pub(crate) fn lock<'a>(con: &'a Arc<Mutex<rusqlite::Connection>>) -> (r: Option<
    MutexGuard<'a, rusqlite::Connection>,
>) {
    con.lock().ok()
}

/// Calls `rusqlite::Connection::transaction`. A transaction that is dropped
/// without `commit` rolls back. Nothing is claimed of the result.
#[verifier::external_body]
pub(crate) fn begin<'a, 'b>(guard: &'a mut MutexGuard<'b, rusqlite::Connection>) -> (r: Result<
    rusqlite::Transaction<'a>,
    rusqlite::Error,
>) {
    guard.transaction()
}

/// Calls `rusqlite::Connection::prepare_cached` and
/// `rusqlite::Statement::execute` with the cells as positional parameters.
/// Nothing is claimed of the result: the store decides.
#[verifier::external_body]
pub(crate) fn execute(tx: &rusqlite::Transaction<'_>, sql: &str, cells: &Vec<Cell>) -> (r: Result<
    usize,
    rusqlite::Error,
>) {
    let values = cells.iter().map(|c| match c {
        Cell::Null => Value::Null,
        Cell::Integer(i) => Value::Integer(*i),
        Cell::Text(s) => Value::Text(s.clone()),
        Cell::Number(v) => v.clone(),
    });
    tx.prepare_cached(sql)?.execute(rusqlite::params_from_iter(values))
}

/// Calls `rusqlite::Transaction::commit`. Nothing is claimed of the result.
#[verifier::external_body]
pub(crate) fn commit(tx: rusqlite::Transaction<'_>) -> (r: Result<(), rusqlite::Error>) {
    tx.commit()
}

/// Calls `rusqlite::Connection::prepare` and `rusqlite::Statement::query_map`
/// for the scan queue and picks the two columns of each row. Nothing is
/// claimed of the rows: they are what the store holds.
#[verifier::external_body]
pub(crate) fn query_pictures(con: &MutexGuard<'_, rusqlite::Connection>, sql: &str) -> (r: Result<
    Vec<PictureRow>,
    rusqlite::Error,
>) {
    let mut stmt = con.prepare(sql)?;
    let rows = stmt.query_map([], |row| {
        Ok(PictureRow {
            picture_id: row.get("picture_id").ok(),
            picture_path_b64: row.get("picture_path_b64").ok(),
        })
    })?;
    rows.collect()
}

/// Calls `rusqlite::Connection::prepare` and `rusqlite::Statement::query_map`
/// for the faces of one picture and picks the five columns of each row.
/// Nothing is claimed of the rows: they are what the store holds.
#[verifier::external_body]
pub(crate) fn query_faces(
    con: &MutexGuard<'_, rusqlite::Connection>,
    sql: &str,
    picture_id: i64,
) -> (r: Result<Vec<FaceRow>, rusqlite::Error>) {
    let mut stmt = con.prepare(sql)?;
    let rows = stmt.query_map([picture_id], |row| {
        Ok(FaceRow {
            face_id: row.get("face_id").ok(),
            face_thumbnail_path: row.get("face_thumbnail_path").ok(),
            person_id: row.get("person_id").ok(),
            person_name: row.get("person_name").ok(),
            person_thumbnail_path: row.get("person_thumbnail_path").ok(),
        })
    })?;
    rows.collect()
}

} // verus!
