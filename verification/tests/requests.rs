use axum::http::{HeaderMap, HeaderValue};
use lake::config::{Guards, Limits};
use lake::db::Db;
use lake::error::{ApiError, StatusCode};
use lake::headers::{
    base_url, content_length, content_type, download_headers, filename, header_value,
};
use lake::service::{
    accept_body, after_fetch, check_body, check_size, files_to_delete, finish_delete,
    finish_upload, index, may_delete, new_file, prepare_upload, start_upload, FetchFailure,
};
use lake::share::DownloadTicket;
use lake::text::escape_html;
use rusqlite::Connection;

fn request(lines: &[(&'static str, &str)]) -> HeaderMap {
    let mut headers = HeaderMap::new();
    for (name, value) in lines {
        headers.append(*name, HeaderValue::from_bytes(value.as_bytes()).unwrap());
    }
    headers
}

fn limits() -> Limits {
    Limits {
        storage_bytes: 1000,
        class_a_ops: 10,
        class_b_ops: 10,
        max_upload_bytes: 100,
        ttl_seconds: 604_800,
        max_downloads: 20,
    }
}

fn guards() -> Guards {
    Guards { storage: 800, class_a: 8, class_b: 8 }
}

fn records() -> Db {
    Db::from_connection(Connection::open_in_memory().unwrap()).unwrap()
}

fn ticket(content_type: &str, name: &str) -> DownloadTicket {
    DownloadTicket {
        id: "a".into(),
        key: "shares/a".into(),
        name: name.into(),
        content_type: content_type.into(),
        delete_after: true,
    }
}

#[test]
fn length_is_read_from_its_header() {
    assert_eq!(content_length(&request(&[("content-length", "42")])).unwrap(), 42);
    assert_eq!(content_length(&request(&[("Content-Length", "0")])).unwrap(), 0);
    assert_eq!(content_length(&request(&[("content-length", "+7")])).unwrap(), 7);
    assert_eq!(content_length(&request(&[("content-length", "-0")])).unwrap(), 0);
    assert_eq!(
        content_length(&request(&[("content-length", "1"), ("content-length", "2")])).unwrap(),
        1
    );
    assert_eq!(
        content_length(&request(&[("content-length", "9223372036854775807")])).unwrap(),
        i64::MAX
    );
    for bad in ["-1", "", "+", "-", " 1", "1 ", "1.0", "9223372036854775808", "\u{e9}"] {
        let err = content_length(&request(&[("content-length", bad)])).unwrap_err();
        assert_eq!(err.status, StatusCode::LengthRequired);
        assert_eq!(err.message, "content-length required");
    }
    assert!(content_length(&request(&[])).is_err());
}

#[test]
fn type_is_read_from_its_header() {
    let fallback = "application/octet-stream";
    assert_eq!(content_type(&request(&[("content-type", "text/plain")])), "text/plain");
    assert_eq!(content_type(&request(&[])), fallback);
    assert_eq!(content_type(&request(&[("content-type", "a\tb")])), fallback);
    assert_eq!(content_type(&request(&[("content-type", "\u{e9}")])), fallback);
    let long = "x".repeat(127);
    assert_eq!(content_type(&request(&[("content-type", &long)])), long);
    assert_eq!(content_type(&request(&[("content-type", &"x".repeat(128))])), fallback);
}

#[test]
fn names_are_cleaned() {
    assert_eq!(filename(&request(&[("x-filename", "my file (1).txt")]), "id"), "myfile1.txt");
    assert_eq!(filename(&request(&[("x-filename", "../a_b-c")]), "id"), "..a_b-c");
    assert_eq!(filename(&request(&[("x-filename", "///")]), "id"), "download");
    assert_eq!(filename(&request(&[]), "id"), "id");
    assert_eq!(filename(&request(&[("x-filename", "\u{e9}")]), "i d"), "id");
    let long = "a/".repeat(200);
    assert_eq!(filename(&request(&[("x-filename", &long)]), "id"), "a".repeat(120));
}

#[test]
fn base_url_is_configured_or_the_one_that_was_used() {
    let configured = Some("https://share.example".to_string());
    assert_eq!(base_url(&configured, &request(&[("host", "h")])), "https://share.example");
    assert_eq!(base_url(&None, &request(&[])), "http://localhost:3000");
    assert_eq!(base_url(&None, &request(&[("host", "h:1")])), "http://h:1");
    let proto = |value: &str| base_url(&None, &request(&[("host", "h"), ("x-forwarded-proto", value)]));
    assert_eq!(proto("https"), "https://h");
    assert_eq!(proto("https,http"), "https://h");
    assert_eq!(proto("http,https"), "http://h");
    assert_eq!(proto("ftp"), "http://h");
    assert_eq!(proto("https ,http"), "http://h");
}

#[test]
fn header_values_hold_no_control_characters() {
    assert_eq!(header_value("a\tb").unwrap(), "a\tb");
    assert_eq!(header_value("\u{e9}").unwrap().as_bytes(), "\u{e9}".as_bytes());
    for bad in ["a\nb", "\0", "\u{7f}"] {
        let err = header_value(bad).unwrap_err();
        assert_eq!(err.status, StatusCode::InternalServerError);
        assert_eq!(err.message, "invalid response header");
    }
}

#[test]
fn download_is_announced() {
    let headers = download_headers(&ticket("text/plain", "a.txt")).unwrap();
    assert_eq!(headers.len(), 2);
    assert_eq!(headers["content-type"], "text/plain");
    assert_eq!(headers["content-disposition"], "attachment; filename=\"a.txt\"");
    assert!(download_headers(&ticket("a\nb", "a")).is_err());
    assert!(download_headers(&ticket("a", "a\nb")).is_err());
}

#[test]
fn html_is_escaped() {
    assert_eq!(
        escape_html("<a href=\"x\">Tom & 'Jerry' &amp;</a>"),
        "&lt;a href=&quot;x&quot;&gt;Tom &amp; &#39;Jerry&#39; &amp;amp;&lt;/a&gt;"
    );
    assert_eq!(escape_html(""), "");
    assert_eq!(escape_html("\u{e9}\u{1f600}"), "\u{e9}\u{1f600}");
    let text = "&<>\"'x";
    let in_turn = text
        .replace('&', "&amp;")
        .replace('<', "&lt;")
        .replace('>', "&gt;")
        .replace('"', "&quot;")
        .replace('\'', "&#39;");
    assert_eq!(escape_html(text), in_turn);
}

#[test]
fn start_page_shows_the_command() {
    let page = index(&None, &request(&[("host", "a<b")]));
    assert!(page.starts_with("<!doctype html>\n<html lang=\"en\">\n"));
    assert!(page.contains(
        "<code>curl -fsS -H \"X-Filename: file\" --data-binary @file http://a&lt;b/upload</code>"
    ));
    assert!(page.contains(":root{font:16px/1.45 system-ui,sans-serif;color:#111;background:#fafafa}"));
    assert!(page.ends_with("</html>"));
}

#[test]
fn size_is_checked_before_an_upload() {
    let check = |n: &str| check_size(&request(&[("content-length", n)]), &limits());
    assert_eq!(check("1").unwrap(), 1);
    assert_eq!(check("100").unwrap(), 100);
    let err = check("0").unwrap_err();
    assert_eq!((err.status, err.message.as_str()), (StatusCode::BadRequest, "empty uploads are not useful"));
    let err = check("101").unwrap_err();
    assert_eq!((err.status, err.message.as_str()), (StatusCode::PayloadTooLarge, "file is too large"));
    assert_eq!(check("x").unwrap_err().status, StatusCode::LengthRequired);
    let mut wide = limits();
    wide.max_upload_bytes = usize::MAX;
    let err = check_size(&request(&[("content-length", "1")]), &wide).unwrap_err();
    assert_eq!(err.status, StatusCode::PayloadTooLarge);
}

#[test]
fn record_of_an_upload() {
    let request = request(&[("x-filename", "a b.txt"), ("content-type", "text/plain")]);
    let file = new_file(&request, "id".into(), 5, 1000, &limits());
    assert_eq!(file.id, "id");
    assert_eq!(file.key, "shares/id");
    assert_eq!(file.name, "ab.txt");
    assert_eq!(file.content_type, "text/plain");
    assert_eq!((file.size_bytes, file.created_at, file.expires_at), (5, 1000, 605_800));
    assert_eq!(file.max_downloads, 20);
}

#[test]
fn ids_are_random_and_times_current() {
    let request = request(&[("content-length", "5")]);
    let before = lake::clock::now();
    let a = prepare_upload(&request, &limits()).unwrap();
    let b = prepare_upload(&request, &limits()).unwrap();
    assert!(before > 1_700_000_000);
    assert!(a.created_at >= before && a.created_at <= lake::clock::now());
    assert_ne!(a.id, b.id);
    assert_eq!(a.id.len(), 32);
    assert!(a.id.chars().all(|c| matches!(c, '0'..='9' | 'a'..='f')));
    assert_eq!(&a.id[12..13], "4");
    assert!("89ab".contains(&a.id[16..17]));
    assert_eq!(a.name, a.id);
}

#[test]
fn clock_before_the_epoch_shows_zero() {
    assert_eq!(lake::clock::epoch_seconds(None), 0);
    assert_eq!(lake::clock::epoch_seconds(Some(5)), 5);
}

#[test]
fn body_is_the_one_that_was_announced() {
    assert!(check_body(5, Some(5)).is_ok());
    let err = check_body(5, Some(4)).unwrap_err();
    assert_eq!((err.status, err.message.as_str()), (StatusCode::BadRequest, "content-length mismatch"));
    let err = check_body(5, None).unwrap_err();
    assert_eq!((err.status, err.message.as_str()), (StatusCode::PayloadTooLarge, "file is too large"));
}

#[test]
fn upload_from_start_to_download() {
    let mut db = records();
    let request = request(&[("content-length", "5"), ("x-filename", "a.txt")]);
    let file = start_upload(&mut db, &request, &limits(), &guards()).unwrap();
    accept_body(&mut db, &file, Some(5)).unwrap();
    let reply = finish_upload(&mut db, &file, None, "https://share.example").unwrap();
    assert_eq!(reply.status, StatusCode::Created);
    assert_eq!(reply.status.as_u16(), 201);
    assert_eq!(reply.body, format!("https://share.example/f/{}\n", file.id));

    let ticket = db.begin_download(&file.id, &guards()).unwrap();
    assert_eq!(ticket.name, "a.txt");
    assert_eq!(ticket.key, file.key);
    assert_eq!(after_fetch(&ticket, None).unwrap(), false);
    assert!(files_to_delete(&mut db).is_empty());
}

#[test]
fn upload_is_given_up_when_its_body_is_wrong() {
    let mut db = records();
    let request = request(&[("content-length", "5")]);
    let file = start_upload(&mut db, &request, &limits(), &guards()).unwrap();
    let err = accept_body(&mut db, &file, Some(6)).unwrap_err();
    assert_eq!(err.message, "content-length mismatch");
    db.mark_ready(&file.id).unwrap();
    assert_eq!(db.begin_download(&file.id, &guards()).unwrap_err().status, StatusCode::NotFound);
}

#[test]
fn upload_is_given_up_when_the_store_fails() {
    let mut db = records();
    let request = request(&[("content-length", "5")]);
    let file = start_upload(&mut db, &request, &limits(), &guards()).unwrap();
    let err = finish_upload(&mut db, &file, Some("timeout".into()), "b").unwrap_err();
    assert_eq!(err.status, StatusCode::BadGateway);
    assert_eq!(err.message, "r2 upload failed: timeout");
    db.mark_ready(&file.id).unwrap();
    assert_eq!(db.begin_download(&file.id, &guards()).unwrap_err().status, StatusCode::NotFound);
}

#[test]
fn upload_takes_its_size_or_nothing() {
    let mut db = records();
    let exact = Guards { storage: 10, class_a: 100, class_b: 8 };
    let six = request(&[("content-length", "6")]);
    let file = start_upload(&mut db, &six, &limits(), &exact).unwrap();
    assert!(accept_body(&mut db, &file, None).is_err());
    let file = start_upload(&mut db, &six, &limits(), &exact).unwrap();
    accept_body(&mut db, &file, Some(6)).unwrap();
    assert!(finish_upload(&mut db, &file, Some("x".into()), "b").is_err());
    let file = start_upload(&mut db, &six, &limits(), &exact).unwrap();
    accept_body(&mut db, &file, Some(6)).unwrap();
    assert!(finish_upload(&mut db, &file, None, "b").is_ok());
    assert!(start_upload(&mut db, &six, &limits(), &exact).is_err());
    let four = request(&[("content-length", "4")]);
    assert!(start_upload(&mut db, &four, &limits(), &exact).is_ok());
}

#[test]
fn other_headers_make_no_difference() {
    let plain = request(&[("content-length", "5"), ("x-filename", "a"), ("host", "h")]);
    let other = request(&[
        ("authorization", "Basic x"),
        ("content-length", "5"),
        ("cookie", "c=1"),
        ("x-filename", "a"),
        ("host", "h"),
    ]);
    let a = new_file(&plain, "id".into(), 5, 7, &limits());
    let b = new_file(&other, "id".into(), 5, 7, &limits());
    assert_eq!(format!("{a:?}"), format!("{b:?}"));
    assert_eq!(check_size(&plain, &limits()).unwrap(), check_size(&other, &limits()).unwrap());
    assert_eq!(base_url(&None, &plain), base_url(&None, &other));
}

#[test]
fn upload_comes_back_under_its_name_and_type() {
    let mut db = records();
    let headers = request(&[
        ("content-length", "5"),
        ("x-filename", "my report.txt"),
        ("content-type", "text/csv"),
    ]);
    let file = start_upload(&mut db, &headers, &limits(), &guards()).unwrap();
    accept_body(&mut db, &file, Some(5)).unwrap();
    finish_upload(&mut db, &file, None, "b").unwrap();
    let ticket = db.begin_download(&file.id, &guards()).unwrap();
    assert_eq!(ticket.key, file.key);
    let announced = download_headers(&ticket).unwrap();
    assert_eq!(announced["content-type"], "text/csv");
    assert_eq!(announced["content-disposition"], "attachment; filename=\"myreport.txt\"");
}

#[test]
fn upload_is_refused_before_it_is_recorded() {
    let mut db = records();
    let strict = Guards { storage: 4, class_a: 1, class_b: 1 };
    let err = start_upload(&mut db, &request(&[]), &limits(), &strict).unwrap_err();
    assert_eq!(err.status, StatusCode::LengthRequired);
    let five = request(&[("content-length", "5")]);
    let err = start_upload(&mut db, &five, &limits(), &strict).unwrap_err();
    assert_eq!(err.status, StatusCode::ServiceUnavailable);
    let four = request(&[("content-length", "4")]);
    assert!(start_upload(&mut db, &four, &limits(), &strict).is_ok());
}

#[test]
fn failed_fetch_is_reported() {
    let last = ticket("t", "n");
    assert_eq!(after_fetch(&last, None).unwrap(), true);
    let err = after_fetch(&last, Some(FetchFailure::Request("x".into()))).unwrap_err();
    assert_eq!((err.status, err.message.as_str()), (StatusCode::BadGateway, "r2 download failed: x"));
    let err = after_fetch(&last, Some(FetchFailure::Body("x".into()))).unwrap_err();
    assert_eq!((err.status, err.message.as_str()), (StatusCode::BadGateway, "r2 body failed: x"));
}

#[test]
fn deletion_spends_class_a_and_is_recorded() {
    let mut db = records();
    let mut short = limits();
    short.ttl_seconds = 0;
    let five = request(&[("content-length", "5")]);
    let file = start_upload(&mut db, &five, &short, &guards()).unwrap();
    assert_eq!(files_to_delete(&mut db), vec![(file.id.clone(), file.key.clone())]);

    let strict = Guards { storage: 0, class_a: 2, class_b: 0 };
    assert!(may_delete(&mut db, &strict));
    assert!(!may_delete(&mut db, &strict));
    finish_delete(&mut db, &file.id, false);
    assert_eq!(files_to_delete(&mut db).len(), 1);
    finish_delete(&mut db, &file.id, true);
    assert!(files_to_delete(&mut db).is_empty());
}

#[test]
fn errors_are_answered_with_their_message() {
    let reply = ApiError::new(StatusCode::Gone, "link expired").into_response();
    assert_eq!(reply.status.as_u16(), 410);
    assert_eq!(reply.body, "link expired\n");
    let err = ApiError::db(rusqlite::Error::QueryReturnedNoRows);
    assert_eq!(err.status.as_u16(), 500);
    assert_eq!(err.message, "database failed: Query returned no rows");
    let numbers: Vec<u16> = vec![
        StatusCode::BadRequest.as_u16(),
        StatusCode::NotFound.as_u16(),
        StatusCode::LengthRequired.as_u16(),
        StatusCode::PayloadTooLarge.as_u16(),
        StatusCode::BadGateway.as_u16(),
        StatusCode::ServiceUnavailable.as_u16(),
    ];
    assert_eq!(numbers, vec![400, 404, 411, 413, 502, 503]);
}
