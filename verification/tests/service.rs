use file_store::response::Body;
use file_store::router::{handle, Request, MAX_UPLOAD_BYTES};
use file_store::store::FileStore;

fn text_of(body: Body) -> String {
    match body {
        Body::Text(t) => t,
        Body::Bytes(_) => panic!("expected a text body"),
    }
}

fn bytes_of(body: Body) -> Vec<u8> {
    match body {
        Body::Bytes(b) => b,
        Body::Text(_) => panic!("expected a byte body"),
    }
}

#[test]
fn upload_then_download_returns_same_bytes() {
    let mut store = FileStore::new();
    let resp = handle(
        &mut store,
        Request::UploadBody { path: String::from("notes.txt"), body: b"hello world".to_vec() },
    );
    assert_eq!(resp.status, 200);
    assert_eq!(text_of(resp.body), "Success");

    let resp = handle(&mut store, Request::Download { path: String::from("notes.txt") });
    assert_eq!(resp.status, 200);
    assert_eq!(bytes_of(resp.body), b"hello world".to_vec());
}

#[test]
fn delete_then_download_is_not_found() {
    let mut store = FileStore::new();
    handle(
        &mut store,
        Request::UploadBody { path: String::from("gone.txt"), body: vec![1, 2, 3] },
    );
    let resp = handle(&mut store, Request::DeleteFile { path: String::from("gone.txt") });
    assert_eq!(resp.status, 200);
    assert_eq!(text_of(resp.body), "File deleted!");

    let resp = handle(&mut store, Request::Download { path: String::from("gone.txt") });
    assert_eq!(resp.status, 404);
    assert_eq!(text_of(resp.body), "Not Found");
}

#[test]
fn listing_tracks_uploads_and_deletes() {
    let mut store = FileStore::new();
    handle(&mut store, Request::UploadBody { path: String::from("a.txt"), body: vec![1] });
    handle(&mut store, Request::UploadBody { path: String::from("b.txt"), body: vec![2] });

    let resp = handle(&mut store, Request::ListFiles);
    assert_eq!(resp.status, 200);
    assert_eq!(text_of(resp.body), "a.txt\nb.txt\n");

    handle(&mut store, Request::DeleteFile { path: String::from("a.txt") });
    let resp = handle(&mut store, Request::ListFiles);
    assert_eq!(resp.status, 200);
    assert_eq!(text_of(resp.body), "b.txt\n");
}

#[test]
fn oversized_multipart_payload_is_rejected() {
    let mut store = FileStore::new();
    let resp = handle(
        &mut store,
        Request::UploadMultipart {
            field_name: String::from("file"),
            content_type: Some(String::from("text/plain")),
            body: vec![7u8; MAX_UPLOAD_BYTES + 1],
        },
    );
    assert_eq!(resp.status, 400);
    assert_eq!(text_of(resp.body), "Payload too large");

    let resp = handle(&mut store, Request::ListFiles);
    assert_eq!(text_of(resp.body), "");
}

#[test]
fn concurrent_uploads_to_distinct_paths_are_independent() {
    let mut store = FileStore::new();
    handle(
        &mut store,
        Request::UploadBody { path: String::from("left.bin"), body: vec![1, 1, 1] },
    );
    handle(
        &mut store,
        Request::UploadBody { path: String::from("right.bin"), body: vec![2, 2] },
    );

    let resp = handle(&mut store, Request::Download { path: String::from("left.bin") });
    assert_eq!(resp.status, 200);
    assert_eq!(bytes_of(resp.body), vec![1, 1, 1]);

    let resp = handle(&mut store, Request::Download { path: String::from("right.bin") });
    assert_eq!(resp.status, 200);
    assert_eq!(bytes_of(resp.body), vec![2, 2]);
}

#[test]
fn root_route_answers() {
    let mut store = FileStore::new();
    let resp = handle(&mut store, Request::Root);
    assert_eq!(resp.status, 200);
    assert_eq!(text_of(resp.body), "what?");
}

#[test]
fn delete_of_missing_file_is_not_found() {
    let mut store = FileStore::new();
    let resp = handle(&mut store, Request::DeleteFile { path: String::from("absent") });
    assert_eq!(resp.status, 404);
    assert_eq!(text_of(resp.body), "Not Found");
}

#[test]
fn download_of_missing_file_is_not_found() {
    let mut store = FileStore::new();
    let resp = handle(&mut store, Request::Download { path: String::from("absent") });
    assert_eq!(resp.status, 404);
    assert_eq!(text_of(resp.body), "Not Found");
}

#[test]
fn upload_overwrites_existing_file() {
    let mut store = FileStore::new();
    handle(&mut store, Request::UploadBody { path: String::from("f"), body: vec![1] });
    handle(&mut store, Request::UploadBody { path: String::from("f"), body: vec![9, 9] });

    let resp = handle(&mut store, Request::Download { path: String::from("f") });
    assert_eq!(bytes_of(resp.body), vec![9, 9]);

    let resp = handle(&mut store, Request::ListFiles);
    assert_eq!(text_of(resp.body), "f\n");
}
