use csv_share_hub::errors::ServiceError;
use csv_share_hub::filename::is_csv_filename;
use csv_share_hub::ids::make_stored_path;
use csv_share_hub::models::NewFile;
use csv_share_hub::response::{
    make_bad_extension_response, make_insert_failed_response, make_missing_filename_response,
    make_no_file_response, make_not_found_response, make_success_response,
};
use csv_share_hub::upload::UploadSession;

fn bytes(s: &str) -> Vec<u8> {
    s.as_bytes().to_vec()
}

#[test]
fn extension_check_cases() {
    assert!(is_csv_filename(&bytes("test.csv")));
    assert!(is_csv_filename(&bytes(".csv")));
    assert!(is_csv_filename(&bytes("report.CSV")));
    assert!(is_csv_filename(&bytes("a.cSv")));
    assert!(!is_csv_filename(&bytes("notes.txt")));
    assert!(!is_csv_filename(&bytes("csv")));
    assert!(!is_csv_filename(&bytes("x.csvv")));
    assert!(!is_csv_filename(&bytes("")));
    assert!(!is_csv_filename(&bytes("data.csv.bak")));
}

#[test]
fn stored_path_is_dir_id_csv() {
    let path = make_stored_path(&bytes("/up"), &bytes("abc"));
    assert_eq!(path, bytes("/up/abc.csv"));
}

#[test]
fn new_file_row_fields() {
    let row = NewFile::new(bytes("id-1"), bytes("n.csv"), bytes("/up/id-1.csv"), 3);
    assert_eq!(row.id, bytes("id-1"));
    assert_eq!(row.original_name, bytes("n.csv"));
    assert_eq!(row.file_path, bytes("/up/id-1.csv"));
    assert_eq!(row.content_type, bytes("text/csv"));
    assert_eq!(row.size, 3);
    let full = row.inserted(42);
    assert_eq!(full.created_at, 42);
    assert_eq!(full.updated_at, 42);
    assert_eq!(full.size, 3);
}

#[test]
fn success_body_is_exact_json() {
    let response = make_success_response(&bytes("the-id"), 14, &bytes("/up/the-id.csv"));
    assert_eq!(response.status, 200);
    assert_eq!(
        response.body,
        bytes(
            "{\"id\":\"the-id\",\"message\":\"File uploaded successfully\",\"size\":14,\
             \"path\":\"/up/the-id.csv\"}"
        )
    );
}

#[test]
fn success_body_renders_large_size_and_zero() {
    let response = make_success_response(&bytes("i"), 1234567890, &bytes("/p"));
    let text = String::from_utf8(response.body).unwrap();
    assert!(text.contains("\"size\":1234567890"), "body was {}", text);
    let response = make_success_response(&bytes("i"), 0, &bytes("/p"));
    let text = String::from_utf8(response.body).unwrap();
    assert!(text.contains("\"size\":0"), "body was {}", text);
}

#[test]
fn success_body_escapes_path() {
    let response = make_success_response(&bytes("i"), 1, &bytes("/a\"b\\c\nd"));
    let text = String::from_utf8(response.body).unwrap();
    assert!(
        text.contains("\"path\":\"/a\\\"b\\\\c\\nd\""),
        "body was {}",
        text
    );
}

#[test]
fn fixed_responses() {
    let r = make_bad_extension_response();
    assert_eq!(r.status, 400);
    assert_eq!(r.body, bytes("{\"error\":\"Only CSV files are allowed\"}"));
    let r = make_not_found_response();
    assert_eq!(r.status, 404);
    assert_eq!(r.body, bytes("File not found"));
    let r = make_no_file_response();
    assert_eq!(r.status, 500);
    assert_eq!(r.body, bytes("No file provided"));
    let r = make_missing_filename_response();
    assert_eq!(r.status, 500);
    assert_eq!(r.body, bytes("No filename provided"));
    let r = make_insert_failed_response();
    assert_eq!(r.status, 500);
    assert_eq!(r.body, bytes("Failed to save file"));
}

#[test]
fn error_kinds_map_to_statuses() {
    assert_eq!(ServiceError::ClientInput.status(), 400);
    assert_eq!(ServiceError::NotFound.status(), 404);
    assert_eq!(ServiceError::Storage.status(), 500);
    assert_eq!(ServiceError::Database.status(), 500);
    assert_eq!(ServiceError::Protocol.status(), 500);
}

#[test]
fn session_counts_streamed_chunks() {
    let dir = bytes("/up");
    let mut session = UploadSession::begin(&dir, &bytes("s.csv"), bytes("id-9")).ok().unwrap();
    assert_eq!(session.size, 0);
    assert_eq!(session.file_path, bytes("/up/id-9.csv"));
    session.note_chunk(&bytes("test,")).unwrap();
    session.note_chunk(&bytes("data\n")).unwrap();
    session.note_chunk(&bytes("1,2\n")).unwrap();
    let (row, response) = session.finish();
    assert_eq!(row.size, 14);
    assert_eq!(row.content_type, bytes("text/csv"));
    assert_eq!(row.original_name, bytes("s.csv"));
    assert_eq!(response.status, 200);
    let text = String::from_utf8(response.body).unwrap();
    assert!(text.contains("\"size\":14"), "body was {}", text);
}

#[test]
fn session_rejects_bad_extension() {
    let dir = bytes("/up");
    let rejected = UploadSession::begin(&dir, &bytes("s.txt"), bytes("id-9"));
    let response = rejected.err().unwrap();
    assert_eq!(response.status, 400);
    assert_eq!(response.body, bytes("{\"error\":\"Only CSV files are allowed\"}"));
    let rejected = UploadSession::begin_fresh(&dir, &bytes("s.txt"));
    assert_eq!(rejected.err().unwrap().status, 400);
}

#[test]
fn fresh_session_draws_uuid_identifier() {
    let dir = bytes("/up");
    let session = UploadSession::begin_fresh(&dir, &bytes("s.csv")).ok().unwrap();
    assert_eq!(session.id.len(), 36);
    for (i, b) in session.id.iter().enumerate() {
        if i == 8 || i == 13 || i == 18 || i == 23 {
            assert_eq!(*b, b'-');
        } else {
            assert!(b.is_ascii_digit() || (b'a'..=b'f').contains(b));
        }
    }
}
