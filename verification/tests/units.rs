use file_store::client::{rest_delete, rest_list, rest_upload, Method};
use file_store::ids::stored_file_name;
use file_store::media::extension_for;
use file_store::paths::{full_path, join_lines};
use file_store::response::{rejection_response, Body, RejectionKind};
use file_store::store::FileStore;

fn message_of(body: Body) -> String {
    match body {
        Body::Text(t) => t,
        Body::Bytes(_) => panic!("expected a text body"),
    }
}

#[test]
fn extension_for_supported_types() {
    assert_eq!(extension_for(&String::from("application/pdf")), Some("pdf"));
    assert_eq!(extension_for(&String::from("image/png")), Some("png"));
    assert_eq!(extension_for(&String::from("text/plain")), Some("txt"));
}

#[test]
fn extension_for_unsupported_type() {
    assert_eq!(extension_for(&String::from("application/zip")), None);
    assert_eq!(extension_for(&String::from("")), None);
    assert_eq!(extension_for(&String::from("image/PNG")), None);
}

#[test]
fn rejection_responses_map_to_statuses() {
    let r = rejection_response(&RejectionKind::NotFoundRejection);
    assert_eq!(r.status, 404);
    assert_eq!(message_of(r.body), "Not Found");

    let r = rejection_response(&RejectionKind::PayloadTooLarge);
    assert_eq!(r.status, 400);
    assert_eq!(message_of(r.body), "Payload too large");

    let r = rejection_response(&RejectionKind::OtherRejection);
    assert_eq!(r.status, 500);
    assert_eq!(message_of(r.body), "Internal Server Error");
}

#[test]
fn join_lines_of_nothing_is_empty() {
    let paths: Vec<String> = Vec::new();
    assert_eq!(join_lines(&paths), "");
}

#[test]
fn join_lines_puts_each_path_on_its_own_line() {
    let paths = vec![String::from("x.txt"), String::from("y/z.pdf")];
    assert_eq!(join_lines(&paths), "x.txt\ny/z.pdf\n");
}

#[test]
fn full_path_joins_root_and_tail() {
    let r = full_path(&String::from("storage"), &String::from("a/b.txt"));
    assert_eq!(r, "storage/a/b.txt");
}

#[test]
fn stored_file_name_appends_extension() {
    let r = stored_file_name(&String::from("abc123"), "txt");
    assert_eq!(r, "abc123.txt");
}

#[test]
fn upload_request_is_a_post_with_the_bytes() {
    let r = rest_upload(&String::from("doc.pdf"), vec![5, 6]);
    assert_eq!(r.method, Method::Post);
    assert_eq!(r.url, "http://localhost:8080/files/doc.pdf");
    assert_eq!(r.body, Some(vec![5, 6]));
}

#[test]
fn delete_request_is_a_delete_without_body() {
    let r = rest_delete(&String::from("doc.pdf"));
    assert_eq!(r.method, Method::Delete);
    assert_eq!(r.url, "http://localhost:8080/files/doc.pdf");
    assert_eq!(r.body, None);
}

#[test]
fn list_request_is_a_get_of_list_files() {
    let r = rest_list();
    assert_eq!(r.method, Method::Get);
    assert_eq!(r.url, "http://localhost:8080/list_files");
    assert_eq!(r.body, None);
}

#[test]
fn store_reports_whether_a_delete_removed_anything() {
    let mut store = FileStore::new();
    store.upload(String::from("p"), vec![1]);
    assert!(store.delete(&String::from("p")));
    assert!(!store.delete(&String::from("p")));
}

#[test]
fn store_download_sees_latest_upload() {
    let mut store = FileStore::new();
    store.upload(String::from("p"), vec![1]);
    store.upload(String::from("p"), vec![2, 3]);
    assert_eq!(store.download(&String::from("p")), Some(&vec![2, 3]));
    assert_eq!(store.download(&String::from("q")), None);
}
