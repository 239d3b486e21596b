//! The CLI client's side of the wire protocol: for each subcommand, the
//! exact HTTP request it issues against the fixed local server address.

use vstd::prelude::*;
use vstd::string::StringExecFns;

verus! {

/// An HTTP method the CLI client uses.
#[derive(Clone, Copy, PartialEq, Eq, Structural, Debug)]
pub enum Method {
    Get,
    Post,
    Delete,
}

/// A request the CLI client is about to issue.
pub struct HttpRequest {
    pub method: Method,
    pub url: String,
    pub body: Option<Vec<u8>>,
}

/// The request that uploads a file: a POST of its bytes to
/// `/files/<filename>` on the local server.
pub fn rest_upload(filename: &String, contents: Vec<u8>) -> (r: HttpRequest)
    ensures
        r.method == Method::Post,
        r.url@ == "http://localhost:8080/files/"@ + filename@,
        (match r.body {
            Some(b) => b@ == contents@,
            None => false,
        }),
{
    let mut url = String::from_str("http://localhost:8080/files/");
    url.append(filename.as_str());
    HttpRequest { method: Method::Post, url, body: Some(contents) }
}

/// The request that deletes a file: a DELETE of `/files/<filename>` on the
/// local server, with no body.
pub fn rest_delete(filename: &String) -> (r: HttpRequest)
    ensures
        r.method == Method::Delete,
        r.url@ == "http://localhost:8080/files/"@ + filename@,
        r.body is None,
{
    let mut url = String::from_str("http://localhost:8080/files/");
    url.append(filename.as_str());
    HttpRequest { method: Method::Delete, url, body: None }
}

/// The request that lists the stored files: a GET of `/list_files` on the
/// local server, with no body.
pub fn rest_list() -> (r: HttpRequest)
    ensures
        r.method == Method::Get,
        r.url@ == "http://localhost:8080/list_files"@,
        r.body is None,
{
    HttpRequest {
        method: Method::Get,
        url: String::from_str("http://localhost:8080/list_files"),
        body: None,
    }
}

} // verus!
