use people_repo::encoding::decode_path;
use people_repo::paths::absolute_from;
use people_repo::paths::relative_to;
use people_repo::paths::same_location;
use people_repo::model::held;
use people_repo::model::stored;
use people_repo::plan::broken_scan_plan;
use people_repo::plan::correction_plan;
use people_repo::plan::faces_query;
use people_repo::plan::next_action;
use people_repo::plan::scan_plan;
use people_repo::plan::scan_queue_query;
use people_repo::plan::Action;
use people_repo::plan::Statement;
use people_repo::sql::FIND_FACES;
use people_repo::sql::FIND_NEED_FACE_SCAN;
use people_repo::sql::INSERT_FACE;
use people_repo::sql::MARK_NOT_A_FACE;
use people_repo::sql::UPSERT_FACE_SCAN;
use people_repo::writes::correction_cells;
use people_repo::writes::face_cells;
use people_repo::writes::face_rows;
use people_repo::writes::scan_cells;
use people_repo::Bounds;
use people_repo::Cell;
use people_repo::Face;
use people_repo::FaceId;
use people_repo::FaceRow;
use people_repo::Observation;
use people_repo::Person;
use people_repo::PersonId;
use people_repo::PictureId;
use people_repo::PictureRow;
use people_repo::RepoError;
use people_repo::Repository;
use rusqlite::types::Value;
use rusqlite::Connection;
use std::sync::Arc;
use std::sync::Mutex;

fn bare_repo() -> Repository {
    let con = Arc::new(Mutex::new(Connection::open_in_memory().unwrap()));
    Repository::with_roots("/library", "/cache", con, true).unwrap()
}

fn sample(landmarks: bool) -> Observation {
    Observation {
        thumbnail_path: String::from("/cache/f/1/thumb.png"),
        bounds_path: String::from("/cache/f/1/bounds.png"),
        model_name: String::from("blaze"),
        bounds: Bounds {
            x: Value::Real(0.5),
            y: Value::Real(1.5),
            width: Value::Real(2.5),
            height: Value::Real(3.5),
        },
        right_eye: if landmarks { Some((Value::Real(1.0), Value::Real(2.0))) } else { None },
        left_eye: if landmarks { Some((Value::Real(3.0), Value::Real(4.0))) } else { None },
        nose: if landmarks { Some((Value::Real(5.0), Value::Real(6.0))) } else { None },
        right_mouth_corner: if landmarks {
            Some((Value::Real(7.0), Value::Real(8.0)))
        } else {
            None
        },
        left_mouth_corner: if landmarks {
            Some((Value::Real(9.0), Value::Real(10.0)))
        } else {
            None
        },
        confidence: Value::Real(0.25),
    }
}

fn reading(x: f64) -> Cell {
    Cell::Number(Value::Real(x))
}

#[test]
fn ids_keep_their_number() {
    assert_eq!(PictureId::new(42).id(), 42);
    assert_eq!(FaceId::new(-1).id(), -1);
    assert_eq!(PersonId::new(i64::MAX).id(), i64::MAX);
    assert_eq!(PictureId::new(3), PictureId::new(3));
    assert_ne!(FaceId::new(3), FaceId::new(4));
}

#[test]
fn relative_to_strips_the_root() {
    assert_eq!(relative_to("/cache", "/cache/a/b/c.png"), Some(String::from("a/b/c.png")));
    assert_eq!(relative_to("/cache/", "/cache/a.png"), Some(String::from("a.png")));
    assert_eq!(relative_to("/cache", "/cache"), Some(String::new()));
}

#[test]
fn relative_to_refuses_a_path_outside_the_root() {
    assert_eq!(relative_to("/cache", "/elsewhere/a.png"), None);
    assert_eq!(relative_to("/cache", "/cachet/a.png"), None);
    assert_eq!(relative_to("/cache", "cache/a.png"), None);
}

#[test]
fn absolute_from_joins_onto_the_root() {
    assert_eq!(absolute_from("/cache", "a/b.png"), "/cache/a/b.png");
    assert_eq!(absolute_from("/cache/", "a.png"), "/cache/a.png");
}

#[test]
fn rebasing_round_trips_for_nested_suffixes() {
    let suffixes = ["a.png", "a/b.png", "a/b/c/d/e.png", "with space/x.png", "2024/05/17/f.png"];
    let mut k = 0;
    while k < suffixes.len() {
        let full = format!("/cache/root/{}", suffixes[k]);
        let rel = relative_to("/cache/root", &full).unwrap();
        assert_eq!(rel, suffixes[k]);
        let back = absolute_from("/cache/root", &rel);
        assert_eq!(back, full);
        assert!(same_location(&back, &full));
        k += 1;
    }
}

#[test]
fn same_location_ignores_repeated_separators() {
    assert!(same_location("/cache//a/b", "/cache/a/b"));
    assert!(same_location("/cache/a/b/", "/cache/a/b"));
    assert!(!same_location("/cache/a/b", "/cache/a/c"));
    assert!(!same_location("/cache/a", "cache/a"));
}

#[test]
fn scan_cells_hold_id_flag_and_count() {
    assert_eq!(
        scan_cells(5, false, 3),
        vec![Cell::Integer(5), Cell::Integer(0), Cell::Integer(3)]
    );
    assert_eq!(
        scan_cells(6, true, 0),
        vec![Cell::Integer(6), Cell::Integer(1), Cell::Integer(0)]
    );
}

#[test]
fn face_cells_with_all_landmarks() {
    let cells = face_cells("/cache", 9, &sample(true)).unwrap();
    let expected = vec![
        Cell::Integer(9),
        Cell::Text(String::from("f/1/thumb.png")),
        Cell::Text(String::from("f/1/bounds.png")),
        Cell::Text(String::from("blaze")),
        reading(0.5),
        reading(1.5),
        reading(2.5),
        reading(3.5),
        reading(1.0),
        reading(2.0),
        reading(3.0),
        reading(4.0),
        reading(5.0),
        reading(6.0),
        reading(7.0),
        reading(8.0),
        reading(9.0),
        reading(10.0),
        reading(0.25),
    ];
    assert_eq!(cells, expected);
}

#[test]
fn face_cells_without_landmarks_are_null_in_pairs() {
    let cells = face_cells("/cache", 9, &sample(false)).unwrap();
    assert_eq!(cells.len(), 19);
    let mut k = 8;
    while k < 18 {
        assert_eq!(cells[k], Cell::Null);
        k += 1;
    }
    assert_eq!(cells[18], reading(0.25));
}

#[test]
fn face_cells_refuse_either_path_outside_the_cache() {
    let mut a = sample(true);
    a.thumbnail_path = String::from("/other/thumb.png");
    assert!(matches!(face_cells("/cache", 1, &a), Err(RepoError::PathNotUnderCache)));
    let mut b = sample(true);
    b.bounds_path = String::from("/other/bounds.png");
    assert!(matches!(face_cells("/cache", 1, &b), Err(RepoError::PathNotUnderCache)));
}

#[test]
fn face_rows_fail_as_a_whole() {
    let mut stray = sample(false);
    stray.thumbnail_path = String::from("/other/thumb.png");
    let r = face_rows("/cache", 1, &vec![sample(true), sample(false), stray]);
    assert!(matches!(r, Err(RepoError::PathNotUnderCache)));
    let rows = face_rows("/cache", 1, &vec![sample(true), sample(false)]).unwrap();
    assert_eq!(rows.len(), 2);
    assert_eq!(rows[0], face_cells("/cache", 1, &sample(true)).unwrap());
    assert_eq!(rows[1], face_cells("/cache", 1, &sample(false)).unwrap());
    assert!(face_rows("/cache", 1, &Vec::new()).unwrap().is_empty());
}

#[test]
fn picture_row_gives_id_and_absolute_path() {
    let repo = bare_repo();
    let row = PictureRow { picture_id: Some(1), picture_path_b64: Some(String::from("YS9iLmpwZw==")) };
    assert_eq!(
        repo.to_picture_id_path_tuple(&row),
        Some((PictureId::new(1), String::from("/library/a/b.jpg")))
    );
}

#[test]
fn picture_row_that_does_not_decode_gives_nothing() {
    let repo = bare_repo();
    let bad = PictureRow { picture_id: Some(1), picture_path_b64: Some(String::from("***")) };
    assert_eq!(repo.to_picture_id_path_tuple(&bad), None);
    let not_text = PictureRow { picture_id: Some(1), picture_path_b64: Some(String::from("//4=")) };
    assert_eq!(repo.to_picture_id_path_tuple(&not_text), None);
    let no_path = PictureRow { picture_id: Some(1), picture_path_b64: None };
    assert_eq!(repo.to_picture_id_path_tuple(&no_path), None);
    let no_id = PictureRow { picture_id: None, picture_path_b64: Some(String::from("YS9iLmpwZw==")) };
    assert_eq!(repo.to_picture_id_path_tuple(&no_id), None);
}

#[test]
fn picture_entries_keep_order_and_drop_unreadable_rows() {
    let repo = bare_repo();
    let rows = vec![
        PictureRow { picture_id: Some(3), picture_path_b64: Some(String::from("bmV3LmpwZw==")) },
        PictureRow { picture_id: Some(2), picture_path_b64: Some(String::from("!")) },
        PictureRow { picture_id: Some(1), picture_path_b64: Some(String::from("b2xkLmpwZw==")) },
    ];
    assert_eq!(
        repo.picture_entries(&rows),
        vec![
            (PictureId::new(3), String::from("/library/new.jpg")),
            (PictureId::new(1), String::from("/library/old.jpg")),
        ]
    );
    assert!(repo.picture_entries(&Vec::new()).is_empty());
}

fn face_row(id: Option<i64>, name: Option<&str>, thumbnail: Option<&str>) -> FaceRow {
    FaceRow {
        face_id: Some(4),
        face_thumbnail_path: Some(String::from("faces/4.png")),
        person_id: id,
        person_name: name.map(String::from),
        person_thumbnail_path: thumbnail.map(String::from),
    }
}

#[test]
fn joined_row_with_a_full_person() {
    let repo = bare_repo();
    let out = repo.to_face_and_person(&face_row(Some(7), Some("Ada"), Some("people/7.png")));
    let face = Face { face_id: FaceId::new(4), thumbnail_path: String::from("/cache/faces/4.png") };
    let person = Person {
        person_id: PersonId::new(7),
        name: String::from("Ada"),
        thumbnail_path: String::from("/cache/people/7.png"),
    };
    assert_eq!(out.unwrap(), (face, Some(person)));
}

#[test]
fn joined_row_with_a_partial_person_shows_no_person() {
    let repo = bare_repo();
    let face = Face { face_id: FaceId::new(4), thumbnail_path: String::from("/cache/faces/4.png") };
    let rows = [
        face_row(None, None, None),
        face_row(Some(7), None, Some("people/7.png")),
        face_row(Some(7), Some("Ada"), None),
        face_row(None, Some("Ada"), Some("people/7.png")),
        face_row(Some(7), None, None),
    ];
    let mut k = 0;
    while k < rows.len() {
        assert_eq!(repo.to_face_and_person(&rows[k]).unwrap(), (face.clone(), None));
        k += 1;
    }
}

#[test]
fn joined_row_without_a_face_is_a_decode_error() {
    let repo = bare_repo();
    let mut no_id = face_row(Some(7), Some("Ada"), Some("people/7.png"));
    no_id.face_id = None;
    assert!(matches!(repo.to_face_and_person(&no_id), Err(RepoError::Decode)));
    let mut no_thumbnail = face_row(None, None, None);
    no_thumbnail.face_thumbnail_path = None;
    assert!(matches!(repo.to_face_and_person(&no_thumbnail), Err(RepoError::Decode)));
}

#[test]
fn faces_and_people_list_every_row_in_order() {
    let repo = bare_repo();
    let mut second = face_row(Some(7), Some("Ada"), Some("people/7.png"));
    second.face_id = Some(5);
    second.face_thumbnail_path = Some(String::from("faces/5.png"));
    let out = repo.faces_and_people(&vec![face_row(Some(8), None, None), second]).unwrap();
    assert_eq!(out.len(), 2);
    assert_eq!(out[0].0.face_id, FaceId::new(4));
    assert!(out[0].1.is_none());
    assert_eq!(out[1].0.face_id, FaceId::new(5));
    assert_eq!(out[1].0.thumbnail_path, "/cache/faces/5.png");
    assert_eq!(out[1].1.clone().unwrap().name, "Ada");
    assert!(repo.faces_and_people(&Vec::new()).unwrap().is_empty());
}

#[test]
fn faces_and_people_fail_on_a_row_without_a_face() {
    let repo = bare_repo();
    let mut broken = face_row(None, None, None);
    broken.face_id = None;
    let r = repo.faces_and_people(&vec![face_row(None, None, None), broken]);
    assert!(matches!(r, Err(RepoError::Decode)));
}

#[test]
fn decode_path_reads_base64_as_text() {
    assert_eq!(decode_path("YS9iLmpwZw=="), Some(String::from("a/b.jpg")));
    assert_eq!(
        decode_path("MjAyNC8wNS9ob2xpZGF5L2ltZyAxLmpwZw=="),
        Some(String::from("2024/05/holiday/img 1.jpg"))
    );
    assert_eq!(decode_path(""), Some(String::new()));
}

#[test]
fn decode_path_refuses_what_is_no_base64_or_no_text() {
    assert_eq!(decode_path("YS9iLmpwZw"), None);
    assert_eq!(decode_path("a b"), None);
    assert_eq!(decode_path("//4="), None);
}

#[test]
fn correction_cells_hold_the_face_id() {
    assert_eq!(correction_cells(17), vec![Cell::Integer(17)]);
    assert_eq!(correction_cells(-3), vec![Cell::Integer(-3)]);
}

#[test]
fn stored_keeps_the_value_and_wraps_the_error() {
    let ok: Result<usize, rusqlite::Error> = Ok(3);
    assert!(matches!(stored(ok), Ok(3)));
    let refused: Result<usize, rusqlite::Error> = Err(rusqlite::Error::InvalidQuery);
    assert!(matches!(stored(refused), Err(RepoError::Storage(rusqlite::Error::InvalidQuery))));
    let none: Result<usize, rusqlite::Error> = Err(rusqlite::Error::QueryReturnedNoRows);
    assert!(matches!(
        stored(none),
        Err(RepoError::Storage(rusqlite::Error::QueryReturnedNoRows))
    ));
}

#[test]
fn held_gives_the_lock_or_poisoned() {
    assert!(matches!(held(Some(5)), Ok(5)));
    let missing: Option<i64> = None;
    assert!(matches!(held(missing), Err(RepoError::Poisoned)));
}

#[test]
fn broken_scan_plan_is_the_scan_record_alone() {
    let expected = vec![Statement {
        sql: UPSERT_FACE_SCAN,
        cells: vec![Cell::Integer(5), Cell::Integer(1), Cell::Integer(0)],
    }];
    assert_eq!(broken_scan_plan(5), expected);
}

#[test]
fn correction_plan_is_one_update_of_the_face() {
    let expected = vec![Statement { sql: MARK_NOT_A_FACE, cells: vec![Cell::Integer(17)] }];
    assert_eq!(correction_plan(17), expected);
}

#[test]
fn scan_plan_is_the_scan_record_and_one_insert_for_each_face() {
    let faces = vec![sample(true), sample(false)];
    let plan = scan_plan("/cache", 9, &faces).unwrap();
    let expected = vec![
        Statement {
            sql: UPSERT_FACE_SCAN,
            cells: vec![Cell::Integer(9), Cell::Integer(0), Cell::Integer(2)],
        },
        Statement { sql: INSERT_FACE, cells: face_cells("/cache", 9, &faces[0]).unwrap() },
        Statement { sql: INSERT_FACE, cells: face_cells("/cache", 9, &faces[1]).unwrap() },
    ];
    assert_eq!(plan, expected);
}

#[test]
fn scan_plan_without_faces_is_the_scan_record_with_count_zero() {
    let plan = scan_plan("/cache", 4, &Vec::new()).unwrap();
    let expected = vec![Statement {
        sql: UPSERT_FACE_SCAN,
        cells: vec![Cell::Integer(4), Cell::Integer(0), Cell::Integer(0)],
    }];
    assert_eq!(plan, expected);
}

#[test]
fn scan_plan_refuses_a_path_outside_the_cache() {
    let mut stray = sample(true);
    stray.bounds_path = String::from("/other/bounds.png");
    let r = scan_plan("/cache", 4, &vec![sample(true), stray]);
    assert!(matches!(r, Err(RepoError::PathNotUnderCache)));
}

#[test]
fn queries_name_their_statement_and_picture() {
    assert_eq!(faces_query(&PictureId::new(12)), (FIND_FACES, 12));
    assert_eq!(scan_queue_query(), FIND_NEED_FACE_SCAN);
}

#[test]
fn next_action_runs_statements_in_order_then_commits() {
    assert!(matches!(next_action(3, 0, Ok(())), Action::Execute(0)));
    assert!(matches!(next_action(3, 1, Ok(())), Action::Execute(1)));
    assert!(matches!(next_action(3, 2, Ok(())), Action::Execute(2)));
    assert!(matches!(next_action(3, 3, Ok(())), Action::Commit));
    assert!(matches!(next_action(0, 0, Ok(())), Action::Commit));
}

#[test]
fn next_action_gives_up_after_a_failure() {
    let refused = Err(RepoError::Storage(rusqlite::Error::InvalidQuery));
    assert!(matches!(
        next_action(3, 1, refused),
        Action::GiveUp(RepoError::Storage(rusqlite::Error::InvalidQuery))
    ));
    assert!(matches!(
        next_action(3, 3, Err(RepoError::Poisoned)),
        Action::GiveUp(RepoError::Poisoned)
    ));
}
