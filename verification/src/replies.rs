use vstd::prelude::*;

use crate::bindings::{markdown_html, render_markdown};
use crate::text::concat3;

verus! {

/// Body of the liveness probe `/ping`.
pub fn pong() -> (r: String)
    ensures
        r@ == "pong"@,
{
    String::from_str("pong")
}

/// Body of the answer to a request that failed inside the server.
pub fn internal_error() -> (r: String)
    ensures
        r@ == "Whoops! Looks like we messed up."@,
{
    String::from_str("Whoops! Looks like we messed up.")
}

/// Body of the answer to a malformed request for `uri`.
pub fn bad_request(uri: &str) -> (r: String)
    ensures
        r@ == "I couldn't find '"@ + uri@ + "'. Try something else?"@,
{
    concat3("I couldn't find '", uri, "'. Try something else?")
}

/// The JSON text answered to an upload of Base64 or URL images: a status
/// `ok` when the images were processed, `error` otherwise.
pub fn json_upload_reply(processed: bool) -> (r: String)
    ensures
        processed ==> r@ == "{\"status\":\"ok\"}"@,
        !processed ==> r@ == "{\"status\":\"error\"}"@,
{
    if processed {
        String::from_str("{\"status\":\"ok\"}")
    } else {
        String::from_str("{\"status\":\"error\"}")
    }
}

/// The text of the `400 Bad Request` answer to a multipart upload whose
/// content type names no boundary.
pub open spec fn missing_boundary_message() -> Seq<char> {
    "`Content-Type: multipart/form-data` boundary param not provided"@
}

/// The value of the first parameter named `boundary` among the parameters
/// of a `multipart/form-data` content type, or the text of the refusal when
/// there is none.
pub fn find_boundary(params: &Vec<(String, String)>) -> (r: Result<String, String>)
    ensures
        r matches Ok(b) ==> exists|i: int|
            0 <= i < params.len() && (#[trigger] params@[i]).0@ == "boundary"@ && b@
                == params@[i].1@ && forall|j: int|
                0 <= j < i ==> (#[trigger] params@[j]).0@ != "boundary"@,
        r matches Err(m) ==> m@ == missing_boundary_message() && forall|i: int|
            0 <= i < params.len() ==> (#[trigger] params@[i]).0@ != "boundary"@,
{
    let key = String::from_str("boundary");
    for i in 0..params.len()
        invariant
            key@ == "boundary"@,
            forall|j: int| 0 <= j < i ==> (#[trigger] params@[j]).0@ != "boundary"@,
    {
        if params[i].0 == key {
            return Ok(params[i].1.clone());
        }
    }
    Err(String::from_str("`Content-Type: multipart/form-data` boundary param not provided"))
}

/// The home page: the project's README, rendered from Markdown, inside an
/// `<html>` element.
pub fn index(readme: &str) -> (r: String)
    ensures
        r@ == "<html>"@ + markdown_html(readme@) + "</html>"@,
{
    let body = render_markdown(readme);
    concat3("<html>", body.as_str(), "</html>")
}

/// The text of the refusal of a multipart upload without a boundary.
pub proof fn missing_boundary_text()
    ensures
        missing_boundary_message() == seq!['`', 'C', 'o', 'n', 't', 'e', 'n', 't', '-', 'T', 'y', 'p', 'e', ':', ' ', 'm', 'u', 'l', 't', 'i', 'p', 'a', 'r', 't', '/', 'f', 'o', 'r', 'm', '-', 'd', 'a', 't', 'a', '`', ' ', 'b', 'o', 'u', 'n', 'd', 'a', 'r', 'y', ' ', 'p', 'a', 'r', 'a', 'm', ' ', 'n', 'o', 't', ' ', 'p', 'r', 'o', 'v', 'i', 'd', 'e', 'd'],
{
    reveal_strlit("`Content-Type: multipart/form-data` boundary param not provided");
    assert(missing_boundary_message() =~= seq!['`', 'C', 'o', 'n', 't', 'e', 'n', 't', '-', 'T', 'y', 'p', 'e', ':', ' ', 'm', 'u', 'l', 't', 'i', 'p', 'a', 'r', 't', '/', 'f', 'o', 'r', 'm', '-', 'd', 'a', 't', 'a', '`', ' ', 'b', 'o', 'u', 'n', 'd', 'a', 'r', 'y', ' ', 'p', 'a', 'r', 'a', 'm', ' ', 'n', 'o', 't', ' ', 'p', 'r', 'o', 'v', 'i', 'd', 'e', 'd']);
}

} // verus!
