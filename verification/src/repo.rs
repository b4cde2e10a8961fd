//! The repository of faces and people.

use vstd::prelude::*;
use std::sync::Arc;
use std::sync::Mutex;
use crate::encoding::decode_path;
use crate::encoding::decoded_path;
use crate::ids::FaceId;
use crate::ids::PersonId;
use crate::ids::PictureId;
use crate::model::Face;
use crate::model::Observation;
use crate::model::Person;
use crate::model::held;
use crate::model::stored;
use crate::model::RepoError;
use crate::paths::absolute_from;
use crate::paths::joined;
use crate::plan::broken_scan_plan;
use crate::plan::correction_plan;
use crate::plan::faces_query;
use crate::plan::next_action;
use crate::plan::scan_plan;
use crate::plan::scan_queue_query;
use crate::plan::Action;
use crate::plan::Statement;
use crate::store::begin;
use crate::store::commit;
use crate::store::execute;
use crate::store::is_dir;
use crate::store::lock;
use crate::store::query_faces;
use crate::store::query_pictures;
use crate::store::FaceRow;
use crate::store::PictureRow;
use crate::writes::all_under;

verus! {

/// What a row of the scan queue lists: the picture and its absolute path.
/// Nothing, where a column is missing or the path does not decode.
pub open spec fn entry_of(library_root: Seq<char>, row: PictureRow) -> Option<(int, Seq<char>)> {
    match (row.picture_id, row.picture_path_b64) {
        (Some(id), Some(text)) => match decoded_path(text@) {
            Some(rel) => Some((id as int, joined(library_root, rel))),
            None => None,
        },
        _ => None,
    }
}

/// What the rows of the scan queue list, in their order.
pub open spec fn entries_of(library_root: Seq<char>, rows: Seq<PictureRow>) -> Seq<
    (int, Seq<char>),
>
    decreases rows.len(),
{
    if rows.len() == 0 {
        Seq::empty()
    } else {
        let rest = entries_of(library_root, rows.drop_last());
        match entry_of(library_root, rows.last()) {
            Some(e) => rest.push(e),
            None => rest,
        }
    }
}

/// A listing of the scan queue, each picture by its number and each path by
/// its text.
pub open spec fn entries_view(v: Seq<(PictureId, String)>) -> Seq<(int, Seq<char>)> {
    Seq::new(v.len(), |i: int| (v[i].0.value(), v[i].1@))
}

/// The row names a face: its id and its thumbnail are there.
pub open spec fn face_readable(row: FaceRow) -> bool {
    row.face_id is Some && row.face_thumbnail_path is Some
}

/// The row names a person in full: id, name and thumbnail are all there.
pub open spec fn person_known(row: FaceRow) -> bool {
    row.person_id is Some && row.person_name is Some && row.person_thumbnail_path is Some
}

/// `out` is what the row shows: its face with the thumbnail under the cache
/// root, and its person where the row names one in full, else none.
pub open spec fn shows(cache_root: Seq<char>, row: FaceRow, out: (Face, Option<Person>)) -> bool {
    &&& face_readable(row)
    &&& out.0.face_id.value() == row.face_id.unwrap()
    &&& out.0.thumbnail_path@ == joined(cache_root, row.face_thumbnail_path.unwrap()@)
    &&& out.1 is Some <==> person_known(row)
    &&& out.1 matches Some(person) ==> {
        &&& person.person_id.value() == row.person_id.unwrap()
        &&& person.name@ == row.person_name.unwrap()@
        &&& person.thumbnail_path@ == joined(cache_root, row.person_thumbnail_path.unwrap()@)
    }
}

/// Every row names a face.
pub open spec fn all_readable(rows: Seq<FaceRow>) -> bool {
    forall|i: int| 0 <= i < rows.len() ==> face_readable(#[trigger] rows[i])
}

/// `out` lists what the rows show, one entry for each row, in their order.
pub open spec fn lists(
    cache_root: Seq<char>,
    rows: Seq<FaceRow>,
    out: Seq<(Face, Option<Person>)>,
) -> bool {
    &&& out.len() == rows.len()
    &&& forall|i: int| 0 <= i < out.len() ==> shows(cache_root, rows[i], #[trigger] out[i])
}

/// `out` is what some rows of the store show: each entry a face with its
/// thumbnail under the cache root, and a person only where a row names one in
/// full.
pub open spec fn is_listing(cache_root: Seq<char>, out: Seq<(Face, Option<Person>)>) -> bool {
    exists|rows: Seq<FaceRow>| #[trigger] lists(cache_root, rows, out)
}

/// A listing names a person only where the row behind the entry holds the
/// person's id, name and thumbnail: a link to a person whose name or
/// thumbnail is missing shows as no person.
pub proof fn lemma_person_only_in_full(
    cache_root: Seq<char>,
    rows: Seq<FaceRow>,
    out: Seq<(Face, Option<Person>)>,
    i: int,
)
    requires
        lists(cache_root, rows, out),
        0 <= i < out.len(),
    ensures
        i < rows.len(),
        out[i].1 is Some <==> person_known(rows[i]),
        rows[i].person_name is None || rows[i].person_thumbnail_path is None ==> out[i].1 is None,
{
}

/// Repository of people data, backed by a SQLite database.
#[derive(Debug, Clone)]
pub struct Repository {
    /// Base path of the picture library.
    library_base_path: String,
    /// Base path of the thumbnails and other generated files.
    cache_dir_base_path: String,
    /// Connection to the database.
    con: Arc<Mutex<rusqlite::Connection>>,
}

impl Repository {
    /// The library root.
    pub closed spec fn library_root(&self) -> Seq<char> {
        self.library_base_path@
    }

    /// The cache root.
    pub closed spec fn cache_root(&self) -> Seq<char> {
        self.cache_dir_base_path@
    }

    /// The connection that the repository works on.
    pub closed spec fn connection(&self) -> Arc<Mutex<rusqlite::Connection>> {
        self.con
    }

    /// Builds a repository over an open connection. Fails where the library
    /// root is not a directory at the time of the call.
    pub fn open(
        library_base_path: &str,
        cache_dir_base_path: &str,
        con: Arc<Mutex<rusqlite::Connection>>,
    ) -> (r: Result<Repository, RepoError>)
        ensures
            r matches Ok(repo) ==> {
                &&& repo.library_root() == library_base_path@
                &&& repo.cache_root() == cache_dir_base_path@
                &&& repo.connection() == con
            },
            r matches Err(e) ==> e is NotADirectory,
    {
        let found = is_dir(library_base_path);
        Repository::with_roots(library_base_path, cache_dir_base_path, con, found)
    }

    /// Builds a repository, given whether the library root was found to be a
    /// directory.
    pub fn with_roots(
        library_base_path: &str,
        cache_dir_base_path: &str,
        con: Arc<Mutex<rusqlite::Connection>>,
        library_is_dir: bool,
    ) -> (r: Result<Repository, RepoError>)
        ensures
            r is Ok <==> library_is_dir,
            r matches Ok(repo) ==> {
                &&& repo.library_root() == library_base_path@
                &&& repo.cache_root() == cache_dir_base_path@
                &&& repo.connection() == con
            },
            r matches Err(e) ==> e is NotADirectory,
    {
        if !library_is_dir {
            return Err(RepoError::NotADirectory);
        }
        Ok(
            Repository {
                library_base_path: library_base_path.to_owned(),
                cache_dir_base_path: cache_dir_base_path.to_owned(),
                con,
            },
        )
    }

    /// The pictures that have not been scanned for faces, newest first, each
    /// with its absolute path. Rows whose path does not decode are left out.
    /// Paths are held as text: a stored path whose bytes are no UTF-8 does not
    /// decode, and its picture is left out of the listing too.
    pub fn find_need_face_scan(&self) -> (r: Result<Vec<(PictureId, String)>, RepoError>)
        ensures
            r matches Ok(v) ==> exists|rows: Seq<PictureRow>|
                entries_view(v@) == #[trigger] entries_of(self.library_root(), rows),
            r matches Err(e) ==> e is Poisoned || e is Storage,
    {
        let guard = match lock(&self.con) {
            Some(g) => g,
            None => {
                return Err(RepoError::Poisoned);
            },
        };
        match query_pictures(&guard, scan_queue_query()) {
            Ok(rows) => {
                let v = self.picture_entries(&rows);
                assert(entries_view(v@) == entries_of(self.library_root(), rows@));
                Ok(v)
            },
            Err(e) => Err(RepoError::Storage(e)),
        }
    }

    /// The faces of a picture that still count as faces, each with the person
    /// it is linked to, if that person is known by name and thumbnail. Fails
    /// where the store returns a row without a face id or a thumbnail.
    pub fn find_faces(&self, picture_id: &PictureId) -> (r: Result<
        Vec<(Face, Option<Person>)>,
        RepoError,
    >)
        ensures
            r matches Ok(v) ==> is_listing(self.cache_root(), v@),
            r matches Err(e) ==> e is Poisoned || e is Storage || e is Decode,
    {
        let guard = match lock(&self.con) {
            Some(g) => g,
            None => {
                return Err(RepoError::Poisoned);
            },
        };
        let query = faces_query(picture_id);
        match query_faces(&guard, query.0, query.1) {
            Ok(rows) => {
                match self.faces_and_people(&rows) {
                    Ok(v) => {
                        assert(lists(self.cache_root(), rows@, v@));
                        Ok(v)
                    },
                    Err(e) => Err(e),
                }
            },
            Err(e) => Err(RepoError::Storage(e)),
        }
    }

    /// Records that a picture cannot be scanned: its scan record says broken,
    /// with no faces. The store is handed `broken_scan_plan` of the picture;
    /// whether the write succeeds is the store's to decide.
    pub fn mark_face_scan_broken(&mut self, picture_id: &PictureId) -> (r: Result<(), RepoError>)
        ensures
            *final(self) == *old(self),
            r matches Err(e) ==> e is Poisoned || e is Storage,
    {
        let plan = broken_scan_plan(picture_id.id());
        self.write(&plan)
    }

    /// Records a scan of a picture and the faces found in it, all or nothing.
    /// Fails before anything is written where a generated file of an
    /// observation does not lie under the cache root. Otherwise the store is
    /// handed `scan_plan` of the picture and the observations.
    pub fn add_face_scans(&mut self, picture_id: &PictureId, faces: &Vec<Observation>) -> (r:
        Result<(), RepoError>)
        ensures
            *final(self) == *old(self),
            r is Ok ==> all_under(old(self).cache_root(), faces@) && faces.len() <= i64::MAX,
            !all_under(old(self).cache_root(), faces@) ==> r matches Err(RepoError::PathNotUnderCache),
            r matches Err(e) ==> {
                &&& e is PathNotUnderCache || e is TooManyFaces || e is Poisoned || e is Storage
                &&& e is PathNotUnderCache <==> !all_under(old(self).cache_root(), faces@)
                &&& e is TooManyFaces <==> all_under(old(self).cache_root(), faces@) && faces.len()
                    > i64::MAX
            },
    {
        match scan_plan(self.cache_dir_base_path.as_str(), picture_id.id(), faces) {
            Ok(plan) => self.write(&plan),
            Err(e) => Err(e),
        }
    }

    /// Withdraws a detection: the face stays stored and is no longer listed.
    /// An id that no face has changes nothing and is no error. The store is
    /// handed `correction_plan` of the face.
    pub fn mark_not_a_face(&mut self, face_id: FaceId) -> (r: Result<(), RepoError>)
        ensures
            *final(self) == *old(self),
            r matches Err(e) ==> e is Poisoned || e is Storage,
    {
        let plan = correction_plan(face_id.id());
        self.write(&plan)
    }

    /// Carries out a write: the statements of the plan in one transaction
    /// under the connection's lock, each move as `next_action` decides it. A
    /// transaction that ends without a commit is rolled back by the store.
    fn write(&self, plan: &Vec<Statement>) -> (r: Result<(), RepoError>)
        ensures
            r matches Err(e) ==> e is Poisoned || e is Storage,
    {
        let mut guard = match held(lock(&self.con)) {
            Ok(g) => g,
            Err(e) => {
                return Err(e);
            },
        };
        let tx = match stored(begin(&mut guard)) {
            Ok(tx) => tx,
            Err(e) => {
                return Err(e);
            },
        };
        let mut done: usize = 0;
        let mut last: Result<(), RepoError> = Ok(());
        loop
            invariant
                done <= plan.len(),
                last matches Err(e) ==> e is Storage,
            decreases
                    2 * (plan.len() - done) + (if last is Ok {
                        1int
                    } else {
                        0int
                    }),
        {
            match next_action(plan.len(), done, last) {
                Action::Execute(i) => {
                    match stored(execute(&tx, plan[i].sql, &plan[i].cells)) {
                        Ok(_) => {
                            last = Ok(());
                            done = done + 1;
                        },
                        Err(e) => {
                            last = Err(e);
                        },
                    }
                },
                Action::Commit => {
                    return stored(commit(tx));
                },
                Action::GiveUp(e) => {
                    return Err(e);
                },
            }
        }
    }

    /// The picture and absolute path that a row of the scan queue lists.
    pub fn to_picture_id_path_tuple(&self, row: &PictureRow) -> (r: Option<(PictureId, String)>)
        ensures
            r is Some <==> entry_of(self.library_root(), *row) is Some,
            r matches Some(e) ==> entry_of(self.library_root(), *row) == Some(
                (e.0.value(), e.1@),
            ),
    {
        let id = match row.picture_id {
            Some(id) => id,
            None => {
                return None;
            },
        };
        let text = match &row.picture_path_b64 {
            Some(t) => t,
            None => {
                return None;
            },
        };
        match decode_path(text.as_str()) {
            Some(rel) => Some(
                (
                    PictureId::new(id),
                    absolute_from(self.library_base_path.as_str(), rel.as_str()),
                ),
            ),
            None => None,
        }
    }

    /// What the rows of the scan queue list, in their order, without the
    /// rows that list nothing.
    pub fn picture_entries(&self, rows: &Vec<PictureRow>) -> (r: Vec<(PictureId, String)>)
        ensures
            entries_view(r@) == entries_of(self.library_root(), rows@),
    {
        let mut out: Vec<(PictureId, String)> = Vec::new();
        let mut i: usize = 0;
        assert(rows@.take(0) =~= Seq::<PictureRow>::empty());
        assert(entries_view(out@) =~= entries_of(self.library_root(), rows@.take(0)));
        while i < rows.len()
            invariant
                i <= rows.len(),
                entries_view(out@) == entries_of(self.library_root(), rows@.take(i as int)),
            decreases rows.len() - i,
        {
            let ghost before = entries_view(out@);
            let entry = self.to_picture_id_path_tuple(&rows[i]);
            proof {
                assert(rows@.take(i + 1).drop_last() =~= rows@.take(i as int));
                assert(rows@.take(i + 1).last() == rows[i as int]);
            }
            match entry {
                Some(e) => {
                    out.push(e);
                    assert(entries_view(out@) =~= before.push((e.0.value(), e.1@)));
                },
                None => {},
            }
            i = i + 1;
        }
        assert(rows@.take(rows.len() as int) =~= rows@);
        out
    }

    /// The face of a joined row, and the person it is linked to where id,
    /// name and thumbnail of that person are all there. Fails where the row
    /// does not name a face, and only there.
    pub fn to_face_and_person(&self, row: &FaceRow) -> (r: Result<
        (Face, Option<Person>),
        RepoError,
    >)
        ensures
            r is Ok <==> face_readable(*row),
            r matches Ok(out) ==> shows(self.cache_root(), *row, out),
            r matches Err(e) ==> e is Decode,
    {
        let face_id = match row.face_id {
            Some(id) => id,
            None => {
                return Err(RepoError::Decode);
            },
        };
        let face_thumbnail = match &row.face_thumbnail_path {
            Some(p) => p,
            None => {
                return Err(RepoError::Decode);
            },
        };
        let face = Face {
            face_id: FaceId::new(face_id),
            thumbnail_path: absolute_from(
                self.cache_dir_base_path.as_str(),
                face_thumbnail.as_str(),
            ),
        };
        let person = match (row.person_id, &row.person_name, &row.person_thumbnail_path) {
            (Some(person_id), Some(name), Some(thumbnail)) => Some(
                Person {
                    person_id: PersonId::new(person_id),
                    name: name.clone(),
                    thumbnail_path: absolute_from(
                        self.cache_dir_base_path.as_str(),
                        thumbnail.as_str(),
                    ),
                },
            ),
            _ => None,
        };
        Ok((face, person))
    }

    /// What the joined rows show, one entry for each row, in their order.
    /// Fails where a row does not name a face, and only there.
    pub fn faces_and_people(&self, rows: &Vec<FaceRow>) -> (r: Result<
        Vec<(Face, Option<Person>)>,
        RepoError,
    >)
        ensures
            r is Ok <==> all_readable(rows@),
            r matches Ok(out) ==> lists(self.cache_root(), rows@, out@),
            r matches Err(e) ==> e is Decode,
    {
        let mut out: Vec<(Face, Option<Person>)> = Vec::new();
        let mut i: usize = 0;
        while i < rows.len()
            invariant
                i <= rows.len(),
                out.len() == i,
                forall|j: int| 0 <= j < i ==> face_readable(#[trigger] rows[j]),
                forall|j: int| 0 <= j < i ==> shows(self.cache_root(), rows[j], #[trigger] out[j]),
            decreases rows.len() - i,
        {
            match self.to_face_and_person(&rows[i]) {
                Ok(entry) => {
                    out.push(entry);
                },
                Err(e) => {
                    assert(!face_readable(rows[i as int]));
                    return Err(e);
                },
            }
            i = i + 1;
        }
        Ok(out)
    }
}

} // verus!
