//! Generated identifiers for multipart uploads: a freshly drawn random id in
//! hyphenated form, and the stored file name built from it and the inferred
//! extension.

use vstd::prelude::*;
use vstd::string::StringExecFns;

verus! {

/// A lowercase hexadecimal digit.
pub open spec fn is_hex_char(c: char) -> bool {
    ('0' <= c && c <= '9') || ('a' <= c && c <= 'f')
}

/// The hyphenated form of a generated identifier: 36 characters, separators
/// exactly at offsets 8, 13, 18 and 23, lowercase hex digits everywhere else.
pub open spec fn is_generated_id(s: Seq<char>) -> bool {
    &&& s.len() == 36
    &&& forall|i: int|
        0 <= i < 36 ==> ((s[i] == '-') <==> (i == 8 || i == 13 || i == 18 || i == 23))
    &&& forall|i: int| 0 <= i < 36 && s[i] != '-' ==> is_hex_char(s[i])
}

/// Relies on uuid's `Uuid::new_v4` and its `Display` impl: a version-4
/// identifier is printed hyphenated in lowercase hex, 36 characters with `-`
/// exactly at offsets 8, 13, 18 and 23. Nothing relates two draws: each call
/// may return anything of that shape.
#[verifier::external_body]
pub(crate) fn fresh_id() -> (r: String)
    ensures
        is_generated_id(r@),
{
    uuid::Uuid::new_v4().to_string()
}

/// The name under which a multipart upload is stored: the generated
/// identifier, a dot, and the extension inferred from the content type.
pub open spec fn spec_stored_name(id: Seq<char>, ext: Seq<char>) -> Seq<char> {
    id + seq!['.'] + ext
}

/// Builds the stored file name `<id>.<ext>`.
pub fn stored_file_name(id: &String, ext: &str) -> (r: String)
    ensures
        r@ == spec_stored_name(id@, ext@),
{
    let mut r = id.clone();
    r.append(".");
    r.append(ext);
    proof {
        reveal_strlit(".");
        assert(r@ =~= spec_stored_name(id@, ext@));
    }
    r
}

} // verus!
