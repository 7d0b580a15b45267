use lake::config::Guards;
use lake::db::Db;
use lake::error::StatusCode;
use lake::rules::{allows_class_a, check_link, check_upload, grant_download};
use lake::share::{NewFile, OfferedFile};
use rusqlite::Connection;

const WEEK: i64 = 604_800;
const MAY: &str = "2024-05";
const JUNE: &str = "2024-06";

fn guarded(limit: i64, ratio: f64) -> i64 {
    ((limit as f64) * ratio).floor() as i64
}

fn test_file(id: &str, size_bytes: i64) -> NewFile {
    NewFile {
        id: id.into(),
        key: format!("shares/{id}"),
        name: id.into(),
        content_type: "application/octet-stream".into(),
        size_bytes,
        created_at: lake::clock::now(),
        expires_at: lake::clock::now() + WEEK,
        max_downloads: 20,
    }
}

fn file_at(id: &str, created_at: i64, expires_at: i64, max_downloads: i64) -> NewFile {
    NewFile {
        id: id.into(),
        key: format!("shares/{id}"),
        name: format!("{id}.txt"),
        content_type: "text/plain".into(),
        size_bytes: 10,
        created_at,
        expires_at,
        max_downloads,
    }
}

fn guards(storage: i64, class_a: i64, class_b: i64) -> Guards {
    Guards { storage, class_a, class_b }
}

fn records() -> Db {
    Db::from_connection(Connection::open_in_memory().unwrap()).unwrap()
}

/// An upload that is complete.
fn offer(db: &mut Db, file: &NewFile) {
    db.begin_upload_in(MAY, file, &guards(1000, 100, 100)).unwrap();
    db.mark_ready(&file.id).unwrap();
}

#[test]
fn upload_guard_stops_before_storage_limit() {
    let mut db = Db::from_connection(Connection::open_in_memory().unwrap()).unwrap();
    let limits = Guards {
        storage: guarded(100, 0.8),
        class_a: guarded(10, 0.8),
        class_b: guarded(10, 0.8),
    };

    let first = test_file("a", 70);
    db.begin_upload(&first, &limits).unwrap();

    let second = test_file("b", 11);
    let err = db.begin_upload(&second, &limits).unwrap_err();
    assert_eq!(err.status, StatusCode::ServiceUnavailable);
    assert!(err.message.contains("storage guard"));
}

#[test]
fn upload_may_fill_storage_up_to_the_guard() {
    let mut db = records();
    let limits = guards(80, 8, 8);
    db.begin_upload_in(MAY, &test_file("a", 70), &limits).unwrap();
    db.begin_upload_in(MAY, &test_file("b", 10), &limits).unwrap();
    let err = db.begin_upload_in(MAY, &test_file("c", 1), &limits).unwrap_err();
    assert_eq!(err.message, "upload disabled: storage guard reached");
}

#[test]
fn upload_stops_at_class_a_guard_of_its_month() {
    let mut db = records();
    let limits = guards(1000, 2, 8);
    db.begin_upload_in(MAY, &test_file("a", 1), &limits).unwrap();
    db.begin_upload_in(MAY, &test_file("b", 1), &limits).unwrap();
    let err = db.begin_upload_in(MAY, &test_file("c", 1), &limits).unwrap_err();
    assert_eq!(err.status, StatusCode::ServiceUnavailable);
    assert_eq!(err.message, "upload disabled: Class A guard reached");
    db.begin_upload_in(JUNE, &test_file("c", 1), &limits).unwrap();
}

#[test]
fn upload_and_download_stop_at_class_b_guard() {
    let mut db = records();
    offer(&mut db, &file_at("a", 0, 100, 20));
    let limits = guards(1000, 100, 2);
    assert!(db.begin_download_in(MAY, "a", 50, &limits).is_ok());
    assert!(db.begin_download_in(MAY, "a", 50, &limits).is_ok());
    let err = db.begin_download_in(MAY, "a", 50, &limits).unwrap_err();
    assert_eq!(err.status, StatusCode::ServiceUnavailable);
    assert_eq!(err.message, "download disabled: Class B guard reached");
    let err = db.begin_upload_in(MAY, &test_file("b", 1), &limits).unwrap_err();
    assert_eq!(err.message, "upload disabled: Class B guard reached");
    assert!(db.begin_download_in(JUNE, "a", 50, &limits).is_ok());
}

#[test]
fn refused_upload_changes_nothing() {
    let mut db = records();
    let limits = guards(80, 1, 8);
    assert!(db.begin_upload_in(MAY, &test_file("a", 81), &limits).is_err());
    db.begin_upload_in(MAY, &test_file("a", 80), &limits).unwrap();
}

#[test]
fn id_and_key_are_taken_once() {
    let mut db = records();
    let limits = guards(1000, 2, 8);
    db.begin_upload_in(MAY, &test_file("a", 1), &limits).unwrap();
    let err = db.begin_upload_in(MAY, &test_file("a", 1), &limits).unwrap_err();
    assert_eq!(err.status, StatusCode::InternalServerError);
    assert!(err.message.starts_with("database failed: UNIQUE constraint failed"));
    let mut other = test_file("b", 1);
    other.key = "shares/a".into();
    assert!(db.begin_upload_in(MAY, &other, &limits).is_err());
    assert_eq!(db.reserve_class_a_in(MAY, &limits).unwrap(), true);
}

#[test]
fn uploaded_file_is_served() {
    let mut db = records();
    let limits = guards(1000, 100, 100);
    let file = file_at("a", 0, 100, 2);
    db.begin_upload_in(MAY, &file, &limits).unwrap();
    let err = db.begin_download_in(MAY, "a", 50, &limits).unwrap_err();
    assert_eq!(err.status, StatusCode::NotFound);
    assert_eq!(err.message, "link not found");
    db.mark_ready("a").unwrap();

    let ticket = db.begin_download_in(MAY, "a", 99, &limits).unwrap();
    assert_eq!(ticket.id, "a");
    assert_eq!(ticket.key, "shares/a");
    assert_eq!(ticket.name, "a.txt");
    assert_eq!(ticket.content_type, "text/plain");
    assert!(!ticket.delete_after);
}

#[test]
fn link_serves_its_downloads_and_no_more() {
    let mut db = records();
    let limits = guards(1000, 100, 100);
    offer(&mut db, &file_at("a", 0, 100, 20));
    for i in 1..21 {
        let ticket = db.begin_download_in(MAY, "a", 50, &limits).unwrap();
        assert_eq!(ticket.delete_after, i == 20);
    }
    let err = db.begin_download_in(MAY, "a", 50, &limits).unwrap_err();
    assert_eq!(err.status, StatusCode::Gone);
    assert_eq!(err.message, "link expired");
}

#[test]
fn link_expires_at_its_time() {
    let mut db = records();
    let limits = guards(1000, 100, 100);
    offer(&mut db, &file_at("a", 0, 100, 20));
    assert!(db.begin_download_in(MAY, "a", 99, &limits).is_ok());
    let err = db.begin_download_in(MAY, "a", 100, &limits).unwrap_err();
    assert_eq!(err.status, StatusCode::Gone);
    let err = db.begin_download_in(MAY, "a", 101, &limits).unwrap_err();
    assert_eq!(err.status, StatusCode::Gone);
}

#[test]
fn download_now_goes_by_the_clock() {
    let mut db = records();
    let limits = guards(1000, 100, 100);
    let now = lake::clock::now();
    offer(&mut db, &file_at("a", now, now + WEEK, 1));
    offer(&mut db, &file_at("b", now - WEEK, now, 1));
    assert!(db.begin_download("a", &limits).unwrap().delete_after);
    assert_eq!(db.begin_download("b", &limits).unwrap_err().status, StatusCode::Gone);
    assert_eq!(db.begin_download("c", &limits).unwrap_err().status, StatusCode::NotFound);
}

#[test]
fn removed_file_frees_its_bytes_and_its_link() {
    let mut db = records();
    let limits = guards(15, 100, 100);
    offer(&mut db, &file_at("a", 0, 100, 20));
    assert!(db.begin_upload_in(MAY, &file_at("b", 0, 100, 20), &limits).is_err());
    db.mark_removed_at("a", 60).unwrap();
    assert_eq!(
        db.begin_download_in(MAY, "a", 50, &limits).unwrap_err().status,
        StatusCode::NotFound
    );
    assert!(db.begin_upload_in(MAY, &file_at("b", 0, 100, 20), &limits).is_ok());
    assert_eq!(db.expired_files_at(-1, 1_000_000).unwrap().len(), 1);
    db.mark_removed("b").unwrap();
    assert!(db.expired_files_at(-1, 1_000_000).unwrap().is_empty());
}

#[test]
fn other_requests_leave_a_link_alone() {
    let mut db = records();
    let limits = guards(1000, 100, 100);
    offer(&mut db, &file_at("a", 0, 100, 2));
    offer(&mut db, &file_at("b", 0, 100, 1));
    assert!(!db.begin_download_in(MAY, "a", 10, &limits).unwrap().delete_after);
    assert!(db.begin_download_in(MAY, "b", 20, &limits).unwrap().delete_after);
    db.mark_removed_at("b", 30).unwrap();
    assert!(db.begin_upload_in(MAY, &file_at("a", 40, 900, 9), &limits).is_err());
    db.mark_ready("b").unwrap();
    assert!(db.reserve_class_a_in(JUNE, &limits).unwrap());
    let ticket = db.begin_download_in(JUNE, "a", 99, &limits).unwrap();
    assert_eq!((ticket.name.as_str(), ticket.delete_after), ("a.txt", true));
    assert_eq!(
        db.begin_download_in(MAY, "a", 99, &limits).unwrap_err().status,
        StatusCode::Gone
    );
    assert_eq!(
        db.begin_download_in(MAY, "b", 50, &limits).unwrap_err().status,
        StatusCode::NotFound
    );
    db.mark_removed_at("a", 99).unwrap();
    assert_eq!(
        db.begin_download_in(MAY, "a", 99, &limits).unwrap_err().status,
        StatusCode::NotFound
    );
}

#[test]
fn statements_take_part_in_a_transaction_in_progress() {
    let conn = Connection::open_in_memory().unwrap();
    conn.execute_batch(lake::sql::SCHEMA).unwrap();
    conn.execute_batch(
        "BEGIN; INSERT INTO files \
        (id, key, name, content_type, size_bytes, created_at, expires_at, max_downloads) \
        VALUES ('a', 'shares/a', 'n', 't', 1, 0, 100, 1);",
    )
    .unwrap();
    let mut db = Db::from_connection(conn).unwrap();
    let limits = guards(1000, 100, 100);
    db.mark_ready("a").unwrap();
    let listed: Vec<(String, String)> = vec![("a".into(), "shares/a".into())];
    assert_eq!(db.expired_files_at(-1, 100).unwrap(), listed);
    let err = db.begin_download_in(MAY, "a", 50, &limits).unwrap_err();
    assert!(err.message.contains("cannot start a transaction within a transaction"));
    assert!(db.begin_upload_in(MAY, &test_file("b", 1), &limits).is_err());
    assert!(db.reserve_class_a_in(MAY, &limits).is_err());
    db.mark_removed_at("a", 60).unwrap();
    assert!(db.expired_files_at(-1, 100).unwrap().is_empty());
}

#[test]
fn every_request_ends_its_transaction() {
    let mut conn = Connection::open_in_memory().unwrap();
    conn.set_transaction_behavior(rusqlite::TransactionBehavior::Immediate);
    let mut db = Db::from_connection(conn).unwrap();
    let limits = guards(10, 2, 0);
    assert!(db.begin_upload_in(MAY, &test_file("a", 11), &limits).is_err());
    assert!(db.begin_download_in(MAY, "a", 0, &limits).is_err());
    assert!(db.reserve_class_a_in(MAY, &limits).unwrap());
    assert!(db.reserve_class_a_in(MAY, &limits).unwrap());
    assert!(!db.reserve_class_a_in(MAY, &limits).unwrap());
    assert!(db.expired_files_at(-1, 0).unwrap().is_empty());
    let open = guards(10, 3, 1);
    db.begin_upload_in(MAY, &test_file("a", 1), &open).unwrap();
    let err = db.begin_upload_in(JUNE, &test_file("a", 1), &open).unwrap_err();
    assert!(err.message.starts_with("database failed: UNIQUE"));
    assert!(db.begin_upload_in(JUNE, &test_file("b", 1), &open).is_ok());
}

#[test]
fn cleanup_takes_exactly_the_ended_links() {
    let limits = guards(1000, 100, 100);
    for now in [99, 100, 101] {
        let mut db = records();
        offer(&mut db, &file_at("a", 0, 100, 20));
        let list = db.expired_files_at(1, now).unwrap();
        let gone = match db.begin_download_in(MAY, "a", now, &limits) {
            Ok(_) => false,
            Err(e) => e.status == StatusCode::Gone,
        };
        assert_eq!(list.contains(&("a".into(), "shares/a".into())), gone);
        assert_eq!(gone, now >= 100);
    }
}

#[test]
fn removal_frees_bytes_once() {
    let mut db = records();
    offer(&mut db, &file_at("a", 0, 100, 20));
    offer(&mut db, &file_at("b", 0, 100, 20));
    let full = guards(20, 100, 100);
    db.mark_removed_at("unknown", 50).unwrap();
    assert!(db.begin_upload_in(MAY, &file_at("c", 0, 100, 20), &full).is_err());
    db.mark_removed_at("a", 50).unwrap();
    db.mark_removed_at("a", 60).unwrap();
    db.begin_upload_in(MAY, &file_at("c", 0, 100, 20), &full).unwrap();
    assert!(db.begin_upload_in(MAY, &test_file("d", 1), &full).is_err());
}

#[test]
fn marking_an_unknown_file_changes_nothing() {
    let mut db = records();
    db.mark_ready("a").unwrap();
    db.mark_removed("a").unwrap();
    let file = file_at("a", 0, 100, 20);
    db.begin_upload_in(MAY, &file, &guards(1000, 100, 100)).unwrap();
    assert!(db.begin_download_in(MAY, "a", 50, &guards(1000, 100, 100)).is_err());
}

#[test]
fn files_are_listed_when_they_have_ended_or_are_stale() {
    let mut db = records();
    let limits = guards(1000, 100, 100);
    offer(&mut db, &file_at("expired", 0, 5000, 20));
    offer(&mut db, &file_at("serving", 0, 6001, 20));
    offer(&mut db, &file_at("spent", 0, 9000, 1));
    db.begin_download_in(MAY, "spent", 10, &limits).unwrap();
    db.begin_upload_in(MAY, &file_at("stale", 2400, 9000, 20), &limits).unwrap();
    db.begin_upload_in(MAY, &file_at("fresh", 2401, 9000, 20), &limits).unwrap();

    let mut list = db.expired_files_at(100, 6000).unwrap();
    list.sort();
    let expected: Vec<(String, String)> = vec![
        ("expired".into(), "shares/expired".into()),
        ("spent".into(), "shares/spent".into()),
        ("stale".into(), "shares/stale".into()),
    ];
    assert_eq!(list, expected);
    assert_eq!(db.expired_files_at(2, 6000).unwrap().len(), 2);
    assert_eq!(db.expired_files_at(0, 6000).unwrap().len(), 0);
    assert_eq!(db.expired_files_at(-1, 6000).unwrap().len(), 3);
    assert_eq!(db.expired_files(100).unwrap().len(), 5);
}

#[test]
fn class_a_is_reserved_up_to_the_guard() {
    let mut db = records();
    let limits = guards(0, 2, 0);
    assert_eq!(db.reserve_class_a_in(MAY, &limits).unwrap(), true);
    assert_eq!(db.reserve_class_a_in(MAY, &limits).unwrap(), true);
    assert_eq!(db.reserve_class_a_in(MAY, &limits).unwrap(), false);
    assert_eq!(db.reserve_class_a_in(JUNE, &limits).unwrap(), true);
    assert_eq!(db.reserve_class_a(&limits).unwrap(), true);
}

#[test]
fn records_are_those_of_the_path() {
    let limits = guards(1000, 100, 100);
    let path = "file:lake_records?mode=memory&cache=shared";
    let mut first = Db::open(path).unwrap();
    offer(&mut first, &file_at("a", 0, 100, 20));
    let mut second = Db::open(path).unwrap();
    assert_eq!(second.begin_download_in(MAY, "a", 50, &limits).unwrap().key, "shares/a");
    let mut other = Db::open("file:lake_others?mode=memory&cache=shared").unwrap();
    assert!(other.begin_download_in(MAY, "a", 50, &limits).is_err());
    second.mark_removed("a").unwrap();
    assert_eq!(
        first.begin_download_in(MAY, "a", 50, &limits).unwrap_err().status,
        StatusCode::NotFound
    );
}

#[test]
fn database_that_cannot_be_opened_says_why() {
    let message = Db::open("/nonexistent/directory/lake.sqlite3").err().unwrap();
    assert!(message.contains("unable to open database file"));
}

#[test]
fn statements_fail_without_the_right_tables() {
    let conn = Connection::open_in_memory().unwrap();
    conn.execute_batch("CREATE TABLE files (id TEXT, removed_at INTEGER, expires_at INTEGER, downloads INTEGER)")
        .unwrap();
    let mut db = Db::from_connection(conn).unwrap();
    let err = db.begin_download_in(MAY, "a", 0, &guards(1, 1, 1)).unwrap_err();
    assert_eq!(err.status, StatusCode::InternalServerError);
    assert!(err.message.starts_with("database failed: no such column"));
}

#[test]
fn total_that_does_not_fit_fails() {
    let conn = Connection::open_in_memory().unwrap();
    conn.execute_batch(lake::sql::SCHEMA).unwrap();
    for id in ["a", "b"] {
        conn.execute(
            "INSERT INTO files \
            (id, key, name, content_type, size_bytes, created_at, expires_at, max_downloads) \
            VALUES (?, ?, 'n', 't', 9223372036854775807, 0, 100, 1)",
            (id, id),
        )
        .unwrap();
    }
    let mut db = Db::from_connection(conn).unwrap();
    let limits = guards(i64::MAX, 100, 100);
    let err = db.begin_upload_in(MAY, &test_file("c", 1), &limits).unwrap_err();
    assert_eq!(err.status, StatusCode::InternalServerError);
    assert!(err.message.starts_with("database failed: integer overflow"));
}

#[test]
fn upload_that_goes_over_every_number_is_refused() {
    let mut db = records();
    let limits = guards(i64::MAX, 100, 100);
    db.begin_upload_in(MAY, &test_file("a", i64::MAX), &limits).unwrap();
    let err = db.begin_upload_in(MAY, &test_file("b", 1), &limits).unwrap_err();
    assert_eq!(err.message, "upload disabled: storage guard reached");
}

#[test]
fn decisions_at_the_edges() {
    let limits = guards(100, 5, 5);
    assert!(check_upload(90, 4, 4, 10, &limits).is_ok());
    assert!(check_upload(91, 4, 4, 10, &limits).is_err());
    assert!(check_upload(i64::MAX, 0, 0, i64::MAX, &limits).is_err());
    assert!(check_upload(0, 5, 0, 1, &limits).is_err());
    assert!(check_upload(0, 0, 5, 1, &limits).is_err());
    assert!(allows_class_a(4, &limits));
    assert!(!allows_class_a(5, &limits));
    assert!(!allows_class_a(i64::MAX, &guards(0, i64::MAX, 0)));

    let offered = || OfferedFile {
        key: "k".into(),
        name: "n".into(),
        content_type: "t".into(),
        expires_at: 10,
        downloads: 1,
        max_downloads: 3,
    };
    assert_eq!(check_link(None, 0).unwrap_err().status, StatusCode::NotFound);
    assert_eq!(check_link(Some(offered()), 10).unwrap_err().status, StatusCode::Gone);
    assert_eq!(check_link(Some(offered()), 9).unwrap().downloads, 1);
    let (downloads, ticket) = grant_download("id", offered(), 4, &limits).unwrap();
    assert_eq!((downloads, ticket.delete_after), (2, false));
    assert_eq!(ticket.key, "k");
    assert!(grant_download("id", offered(), 5, &limits).is_err());
}
