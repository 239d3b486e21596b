//! Mapping from a declared multipart content type to the stored file
//! extension. Only `application/pdf`, `image/png` and `text/plain` are
//! accepted; anything else is rejected.

use vstd::prelude::*;
use vstd::string::StringExecFns;

verus! {

/// The file extension the service stores for `content_type`, if the type is
/// one of the three accepted ones.
pub open spec fn spec_extension_for(content_type: Seq<char>) -> Option<Seq<char>> {
    if content_type == "application/pdf"@ {
        Some("pdf"@)
    } else if content_type == "image/png"@ {
        Some("png"@)
    } else if content_type == "text/plain"@ {
        Some("txt"@)
    } else {
        None
    }
}

/// Returns the extension under which a multipart upload with this declared
/// content type is stored, or `None` when the type is unsupported.
pub fn extension_for(content_type: &String) -> (r: Option<&'static str>)
    ensures
        match r {
            Some(ext) => spec_extension_for(content_type@) == Some(ext@),
            None => spec_extension_for(content_type@) is None,
        },
{
    if *content_type == String::from_str("application/pdf") {
        Some("pdf")
    } else if *content_type == String::from_str("image/png") {
        Some("png")
    } else if *content_type == String::from_str("text/plain") {
        Some("txt")
    } else {
        None
    }
}

} // verus!
