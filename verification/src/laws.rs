//! The service's round-trip guarantees, stated and proved over the store's
//! map view — the same view every handler contract speaks of.

use vstd::prelude::*;

verus! {

/// Uploading a file and then downloading the same path returns exactly the
/// uploaded bytes: after an upload of `contents` at `path`, the store's view
/// holds `contents` at `path`, so a download answers 200 with those bytes.
pub proof fn upload_then_download(
    files: Map<Seq<char>, Seq<u8>>,
    path: Seq<char>,
    contents: Seq<u8>,
)
    ensures
        files.insert(path, contents).contains_key(path),
        files.insert(path, contents)[path] == contents,
{
}

/// Deleting a previously uploaded file and then requesting the same path
/// finds nothing: after a delete of `path` the store's view has no entry
/// there, whatever was uploaded before, so the request answers 404.
pub proof fn delete_then_download(files: Map<Seq<char>, Seq<u8>>, path: Seq<char>)
    ensures
        !files.remove(path).contains_key(path),
{
}

/// The listing tracks uploads and deletes exactly: an upload adds its path
/// to the stored set, a delete removes it, and neither touches any other
/// path. `FileStore::lemma_paths` says the listed paths are exactly the
/// stored set, so the rendered listing includes every path uploaded and not
/// yet deleted and excludes deleted ones.
pub proof fn listing_tracks_store(
    files: Map<Seq<char>, Seq<u8>>,
    path: Seq<char>,
    contents: Seq<u8>,
)
    ensures
        files.insert(path, contents).contains_key(path),
        !files.remove(path).contains_key(path),
        forall|other: Seq<char>|
            other != path ==> (files.insert(path, contents).contains_key(other)
                <==> files.contains_key(other)),
        forall|other: Seq<char>|
            other != path ==> (files.remove(path).contains_key(other) <==> files.contains_key(
                other,
            )),
{
}

/// Uploads to two distinct paths are independent: in whichever order the two
/// happen, the store afterwards holds each body under its own path, each
/// retrievable unchanged, and the resulting state does not depend on the
/// order.
pub proof fn independent_uploads(
    files: Map<Seq<char>, Seq<u8>>,
    path1: Seq<char>,
    contents1: Seq<u8>,
    path2: Seq<char>,
    contents2: Seq<u8>,
)
    requires
        path1 != path2,
    ensures
        files.insert(path1, contents1).insert(path2, contents2).contains_key(path1),
        files.insert(path1, contents1).insert(path2, contents2).contains_key(path2),
        files.insert(path1, contents1).insert(path2, contents2)[path1] == contents1,
        files.insert(path1, contents1).insert(path2, contents2)[path2] == contents2,
        files.insert(path1, contents1).insert(path2, contents2) == files.insert(
            path2,
            contents2,
        ).insert(path1, contents1),
{
    assert(files.insert(path1, contents1).insert(path2, contents2) =~= files.insert(
        path2,
        contents2,
    ).insert(path1, contents1));
}

} // verus!
