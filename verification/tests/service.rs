use csv_share_hub::store::Hub;

fn bytes(s: &str) -> Vec<u8> {
    s.as_bytes().to_vec()
}

fn upload_dir() -> Vec<u8> {
    bytes("/srv/csv-share/uploads")
}

/// Extracts the assigned id from a success body, which always starts
/// `{"id":"` followed by the 36-byte identifier.
fn id_of_success_body(body: &[u8]) -> Vec<u8> {
    assert!(body.len() >= 43);
    assert_eq!(&body[..7], b"{\"id\":\"");
    body[7..43].to_vec()
}

fn assert_uuid_shape(id: &[u8]) {
    assert_eq!(id.len(), 36);
    for (i, b) in id.iter().enumerate() {
        if i == 8 || i == 13 || i == 18 || i == 23 {
            assert_eq!(*b, b'-', "hyphen expected at offset {}", i);
        } else {
            assert!(
                b.is_ascii_digit() || (b'a'..=b'f').contains(b),
                "lowercase hex expected at offset {}",
                i
            );
        }
    }
}

#[test]
fn test_upload_endpoint() {
    let mut hub = Hub::new(upload_dir());
    let response = hub.upload(&bytes("test.csv"), bytes("test,data\n1,2\n"), 1_700_000_000);
    assert_eq!(response.status, 200);
    assert_eq!(hub.file_count(), 1);
}

#[test]
fn test_csv_endpoint() {
    let mut hub = Hub::new(upload_dir());
    let content = "test,data\n1,2\n";
    let response = hub.upload(&bytes("test.csv"), bytes(content), 1_700_000_000);
    assert_eq!(response.status, 200);
    let id = id_of_success_body(&response.body);
    let fetched = hub.csv(&id);
    assert_eq!(fetched.status, 200);
    assert_eq!(fetched.body, bytes(content));
}

#[test]
fn test_upload_invalid_extension() {
    let mut hub = Hub::new(upload_dir());
    let response = hub.upload(&bytes("test.txt"), bytes("test data"), 1_700_000_000);
    assert_eq!(response.status, 400);
}

#[test]
fn upload_reports_size_and_round_trips() {
    let mut hub = Hub::new(upload_dir());
    let content = "test,data\n1,2\n";
    let response = hub.upload(&bytes("test.csv"), bytes(content), 7);
    assert_eq!(response.status, 200);
    assert_eq!(response.content_type, Some(bytes("application/json")));
    let text = String::from_utf8(response.body.clone()).unwrap();
    assert!(text.contains("\"size\":14"), "body was {}", text);
    assert!(text.contains("\"message\":\"File uploaded successfully\""));

    let id = id_of_success_body(&response.body);
    assert_uuid_shape(&id);
    let mut expected_path = upload_dir();
    expected_path.push(b'/');
    expected_path.extend_from_slice(&id);
    expected_path.extend_from_slice(b".csv");
    assert!(text.contains(&format!(
        "\"path\":\"{}\"",
        String::from_utf8(expected_path).unwrap()
    )));

    let fetched = hub.csv(&id);
    assert_eq!(fetched.status, 200);
    assert_eq!(fetched.body, bytes(content));
    assert_eq!(fetched.content_type, Some(bytes("text/csv")));
    assert_eq!(
        fetched.content_disposition,
        Some(bytes("attachment; filename=\"test.csv\""))
    );
}

#[test]
fn rejected_extension_body_and_no_state_change() {
    let mut hub = Hub::new(upload_dir());
    let response = hub.upload(&bytes("notes.txt"), bytes("a,b\n"), 7);
    assert_eq!(response.status, 400);
    assert_eq!(response.body, bytes("{\"error\":\"Only CSV files are allowed\"}"));
    assert_eq!(response.content_type, Some(bytes("application/json")));
    assert_eq!(hub.file_count(), 0);
}

#[test]
fn unknown_id_is_not_found() {
    let hub = Hub::new(upload_dir());
    let fetched = hub.csv(&bytes("00000000-0000-0000-0000-000000000000"));
    assert_eq!(fetched.status, 404);
    assert_eq!(fetched.body, bytes("File not found"));
    assert_eq!(fetched.content_type, None);
}

#[test]
fn empty_body_uploads_with_size_zero() {
    let mut hub = Hub::new(upload_dir());
    let response = hub.upload(&bytes("empty.csv"), Vec::new(), 7);
    assert_eq!(response.status, 200);
    let text = String::from_utf8(response.body.clone()).unwrap();
    assert!(text.contains("\"size\":0"), "body was {}", text);
    let id = id_of_success_body(&response.body);
    let fetched = hub.csv(&id);
    assert_eq!(fetched.status, 200);
    assert_eq!(fetched.body, Vec::<u8>::new());
    assert_eq!(fetched.content_type, Some(bytes("text/csv")));
}

#[test]
fn uppercase_extension_is_accepted_and_name_preserved() {
    let mut hub = Hub::new(upload_dir());
    let response = hub.upload(&bytes("Report.CSV"), bytes("x,y\n"), 7);
    assert_eq!(response.status, 200);
    let id = id_of_success_body(&response.body);
    let fetched = hub.csv(&id);
    assert_eq!(fetched.status, 200);
    assert_eq!(fetched.body, bytes("x,y\n"));
    assert_eq!(
        fetched.content_disposition,
        Some(bytes("attachment; filename=\"Report.CSV\""))
    );
}

#[test]
fn two_uploads_get_distinct_ids_and_own_bodies() {
    let mut hub = Hub::new(upload_dir());
    let first = hub.upload(&bytes("a.csv"), bytes("A"), 1);
    let second = hub.upload(&bytes("b.csv"), bytes("B"), 2);
    assert_eq!(first.status, 200);
    assert_eq!(second.status, 200);
    let id_a = id_of_success_body(&first.body);
    let id_b = id_of_success_body(&second.body);
    assert_ne!(id_a, id_b);
    assert_eq!(hub.file_count(), 2);
    assert_eq!(hub.csv(&id_a).body, bytes("A"));
    assert_eq!(hub.csv(&id_b).body, bytes("B"));
    assert_eq!(
        hub.csv(&id_a).content_disposition,
        Some(bytes("attachment; filename=\"a.csv\""))
    );
    assert_eq!(
        hub.csv(&id_b).content_disposition,
        Some(bytes("attachment; filename=\"b.csv\""))
    );
}

#[test]
fn bare_extension_filename_is_accepted() {
    let mut hub = Hub::new(upload_dir());
    let response = hub.upload(&bytes(".csv"), bytes("k\n"), 7);
    assert_eq!(response.status, 200);
    let id = id_of_success_body(&response.body);
    assert_eq!(hub.csv(&id).body, bytes("k\n"));
}

#[test]
fn success_body_is_valid_json_even_with_odd_directory() {
    let mut hub = Hub::new(bytes("/odd \"dir\\with\nnoise"));
    let response = hub.upload(&bytes("test.csv"), bytes("1,2\n"), 7);
    assert_eq!(response.status, 200);
    let parsed: serde_json::Value = serde_json::from_slice(&response.body).unwrap();
    assert_eq!(parsed["message"], "File uploaded successfully");
    assert_eq!(parsed["size"], 4);
    let id = parsed["id"].as_str().unwrap();
    assert_eq!(id.len(), 36);
    let path = parsed["path"].as_str().unwrap();
    assert_eq!(path, format!("/odd \"dir\\with\nnoise/{}.csv", id));
}

#[test]
fn quote_in_filename_is_escaped_in_disposition() {
    let mut hub = Hub::new(upload_dir());
    let response = hub.upload(&bytes("we\"ird\\name.csv"), bytes("1\n"), 7);
    assert_eq!(response.status, 200);
    let id = id_of_success_body(&response.body);
    let fetched = hub.csv(&id);
    assert_eq!(
        fetched.content_disposition,
        Some(bytes("attachment; filename=\"we\\\"ird\\\\name.csv\""))
    );
}
