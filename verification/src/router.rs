//! The service's HTTP surface, one handler per route, each with an exact
//! contract over the store's map view: downloads read it, raw-body uploads
//! insert under the request path, deletes remove, the listing renders its
//! paths, and multipart uploads insert under a generated name after the
//! content type and the size limit have been checked.

use vstd::prelude::*;
use vstd::string::StringExecFns;

use crate::ids::{fresh_id, is_generated_id, spec_stored_name, stored_file_name};
use crate::media::{extension_for, spec_extension_for};
use crate::paths::{join_lines, spec_join_lines};
use crate::response::{body_is_bytes, body_is_text, rejection_response, Body, RejectionKind,
    Response};
use crate::store::FileStore;

verus! {

/// Largest multipart payload the service accepts, in bytes.
pub const MAX_UPLOAD_BYTES: usize = 5000000;

/// A request on the service's HTTP surface.
pub enum Request {
    /// `GET /`
    Root,
    /// `GET /files/<path>`
    Download { path: String },
    /// `POST /files/<path>` with the raw request body
    UploadBody { path: String, body: Vec<u8> },
    /// `DELETE /files/<path>`
    DeleteFile { path: String },
    /// `GET /list_files`
    ListFiles,
    /// `POST /upload` with one multipart part
    UploadMultipart { field_name: String, content_type: Option<String>, body: Vec<u8> },
}

/// The declared content type of a multipart part, as a sequence.
pub open spec fn content_type_view(ct: Option<&String>) -> Option<Seq<char>> {
    match ct {
        Some(s) => Some(s@),
        None => None,
    }
}

/// The declared content type of a multipart part, as a sequence.
pub open spec fn owned_content_type_view(ct: Option<String>) -> Option<Seq<char>> {
    match ct {
        Some(s) => Some(s@),
        None => None,
    }
}

/// What a multipart upload does, given the identifier `id` that was drawn:
/// an oversized payload is refused with 400 and nothing is stored; a part
/// not named `file` is ignored; a missing or unsupported content type is
/// refused with 404 and nothing is stored; otherwise the bytes are stored
/// under `<id>.<ext>` and the reply is 200 `success`.
pub open spec fn multipart_outcome(
    before: Map<Seq<char>, Seq<u8>>,
    after: Map<Seq<char>, Seq<u8>>,
    resp: Response,
    field_name: Seq<char>,
    content_type: Option<Seq<char>>,
    body: Seq<u8>,
    id: Seq<char>,
) -> bool {
    if body.len() > MAX_UPLOAD_BYTES as int {
        after == before && resp.status == 400 && body_is_text(resp.body, "Payload too large"@)
    } else if field_name != "file"@ {
        after == before && resp.status == 200 && body_is_text(resp.body, "success"@)
    } else {
        match content_type {
            Some(ct) => match spec_extension_for(ct) {
                Some(ext) => after == before.insert(spec_stored_name(id, ext), body)
                    && resp.status == 200 && body_is_text(resp.body, "success"@),
                None => after == before && resp.status == 404 && body_is_text(
                    resp.body,
                    "Not Found"@,
                ),
            },
            None => after == before && resp.status == 404 && body_is_text(resp.body, "Not Found"@),
        }
    }
}

/// Handles a multipart upload whose generated identifier is already drawn,
/// so the whole outcome is pinned down by the arguments.
pub fn handle_multipart_with_id(
    store: &mut FileStore,
    field_name: &String,
    content_type: Option<&String>,
    body: Vec<u8>,
    id: String,
) -> (resp: Response)
    requires
        old(store).wf(),
    ensures
        final(store).wf(),
        multipart_outcome(
            old(store)@,
            final(store)@,
            resp,
            field_name@,
            content_type_view(content_type),
            body@,
            id@,
        ),
{
    if body.len() > MAX_UPLOAD_BYTES {
        return rejection_response(&RejectionKind::PayloadTooLarge);
    }
    let is_file: bool = *field_name == String::from_str("file");
    if !is_file {
        return Response { status: 200, body: Body::Text(String::from_str("success")) };
    }
    match content_type {
        Some(ct) => match extension_for(ct) {
            Some(ext) => {
                let name = stored_file_name(&id, ext);
                store.upload(name, body);
                Response { status: 200, body: Body::Text(String::from_str("success")) }
            },
            None => rejection_response(&RejectionKind::NotFoundRejection),
        },
        None => rejection_response(&RejectionKind::NotFoundRejection),
    }
}

/// Handles one request against the store and produces its response.
///
/// Downloads return the stored bytes or 404; raw-body uploads overwrite the
/// file under the request path; deletes remove it or answer 404; the listing
/// renders every stored path on its own line; a multipart upload behaves as
/// `multipart_outcome` says, for some freshly generated identifier.
pub fn handle(store: &mut FileStore, req: Request) -> (resp: Response)
    requires
        old(store).wf(),
    ensures
        final(store).wf(),
        match req {
            Request::Root => final(store)@ == old(store)@ && resp.status == 200 && body_is_text(
                resp.body,
                "what?"@,
            ),
            Request::Download { path } => final(store)@ == old(store)@ && (if old(
                store,
            )@.contains_key(path@) {
                resp.status == 200 && body_is_bytes(resp.body, old(store)@[path@])
            } else {
                resp.status == 404 && body_is_text(resp.body, "Not Found"@)
            }),
            Request::UploadBody { path, body } => final(store)@ == old(store)@.insert(path@, body@)
                && resp.status == 200 && body_is_text(resp.body, "Success"@),
            Request::DeleteFile { path } => final(store)@ == old(store)@.remove(path@) && (if old(
                store,
            )@.contains_key(path@) {
                resp.status == 200 && body_is_text(resp.body, "File deleted!"@)
            } else {
                resp.status == 404 && body_is_text(resp.body, "Not Found"@)
            }),
            Request::ListFiles => final(store)@ == old(store)@ && resp.status == 200
                && body_is_text(resp.body, spec_join_lines(old(store).paths())),
            Request::UploadMultipart { field_name, content_type, body } => exists|id: Seq<char>|
                is_generated_id(id) && multipart_outcome(
                    old(store)@,
                    final(store)@,
                    resp,
                    field_name@,
                    owned_content_type_view(content_type),
                    body@,
                    id,
                ),
        },
{
    match req {
        Request::Root => Response { status: 200, body: Body::Text(String::from_str("what?")) },
        Request::Download { path } => match store.download(&path) {
            Some(contents) => {
                let bytes = contents.clone();
                proof {
                    assert forall|i: int| 0 <= i < contents@.len() implies bytes@[i]
                        == contents@[i] by {
                        assert(vstd::pervasive::cloned::<u8>(contents@[i], bytes@[i]));
                    }
                    assert(bytes@ =~= old(store)@[path@]);
                }
                Response { status: 200, body: Body::Bytes(bytes) }
            },
            None => rejection_response(&RejectionKind::NotFoundRejection),
        },
        Request::UploadBody { path, body } => {
            store.upload(path, body);
            Response { status: 200, body: Body::Text(String::from_str("Success")) }
        },
        Request::DeleteFile { path } => {
            let existed = store.delete(&path);
            if existed {
                Response { status: 200, body: Body::Text(String::from_str("File deleted!")) }
            } else {
                rejection_response(&RejectionKind::NotFoundRejection)
            }
        },
        Request::ListFiles => {
            let paths = store.list_paths();
            let text = join_lines(&paths);
            Response { status: 200, body: Body::Text(text) }
        },
        Request::UploadMultipart { field_name, content_type, body } => {
            let id = fresh_id();
            let ct_ref = content_type.as_ref();
            let resp = handle_multipart_with_id(store, &field_name, ct_ref, body, id);
            proof {
                assert(content_type_view(ct_ref) == owned_content_type_view(content_type));
            }
            resp
        },
    }
}

} // verus!
