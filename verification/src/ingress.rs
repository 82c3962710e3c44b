//! The producer client's compute parts: where a request goes, and what its
//! response yields. The HTTP call itself happens outside the library.

use vstd::prelude::*;
use vstd::string::StringExecFns;

verus! {

/// Joins the relay's base URL and a request path.
pub fn make_url(server_url: &str, path: &str) -> (r: String)
    ensures
        r@ == server_url@ + path@,
{
    let mut s = server_url.to_owned();
    s.append(path);
    s
}

/// The client's response policy: a successful status keeps the body, any
/// other status is logged by the caller and yields an empty payload rather
/// than an error.
pub fn response_bytes(success: bool, body: Vec<u8>) -> (r: Vec<u8>)
    ensures
        success ==> r@ == body@,
        !success ==> r@ == Seq::<u8>::empty(),
{
    if success {
        body
    } else {
        Vec::new()
    }
}

} // verus!
