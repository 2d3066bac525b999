use vstd::prelude::*;

verus! {

/// The serialization of the URL that `url::Url::parse` reads from `text`, or
/// `None` where `Url::parse` rejects `text`.
pub uninterp spec fn url_serialization(text: Seq<char>) -> Option<Seq<char>>;

/// The path segments (`Url::path_segments`) of the URL that `url::Url::parse`
/// reads from `text`, or `None` where `Url::parse` rejects `text` or the URL
/// cannot be a base.
pub uninterp spec fn url_path_segments_of(text: Seq<char>) -> Option<Seq<Seq<char>>>;

/// The bytes that `base64::decode` (standard alphabet, padded) reads from
/// `text`, or `None` where it rejects `text`.
pub uninterp spec fn base64_decoded(text: Seq<char>) -> Option<Seq<u8>>;

/// The HTML that `comrak::markdown_to_html` renders from the Markdown `md`
/// with comrak's default options.
pub uninterp spec fn markdown_html(md: Seq<char>) -> Seq<char>;

/// Calls `url::Url::parse` on `text` and hands back the serialization of the
/// parsed URL (`Url::as_str`). Claimed: the result is `url_serialization` of
/// `text`, so that it depends on `text` alone; and a serialization parses
/// again to itself, which the crate's own invariant check
/// (`Url::check_invariants`) asserts of every URL it builds. What the
/// parser accepts and how it normalizes is not stated.
#[verifier::external_body]
pub(crate) fn parse_url(text: &str) -> (r: Option<String>)
    ensures
        r.deep_view() == url_serialization(text@),
        r matches Some(u) ==> url_serialization(u@) == Some(u@),
{
    match url::Url::parse(text) {
        Ok(u) => Some(String::from(u.as_str())),
        Err(_) => None,
    }
}

/// Calls `url::Url::parse` on `text` and then `Url::path_segments` on the
/// parsed URL, collecting the segments. Claimed: the result is
/// `url_path_segments_of` of `text`, and, as the documentation of
/// `path_segments` says, a present list holds at least one segment (which
/// may be empty). Which URLs parse and how segments are encoded is not
/// stated.
#[verifier::external_body]
pub(crate) fn url_path_segments(text: &str) -> (r: Option<Vec<String>>)
    ensures
        r.deep_view() == url_path_segments_of(text@),
        r matches Some(segments) ==> segments.len() >= 1,
{
    match url::Url::parse(text) {
        Ok(u) => match u.path_segments() {
            Some(segments) => Some(segments.map(String::from).collect()),
            None => None,
        },
        Err(_) => None,
    }
}

/// Calls `base64::decode` on `text`. Claimed: the result is `base64_decoded`
/// of `text`; which inputs decode, and to what, is not stated.
#[verifier::external_body]
pub(crate) fn decode_base64(text: &str) -> (r: Option<Vec<u8>>)
    ensures
        r.deep_view() == base64_decoded(text@),
{
    match base64::decode(text) {
        Ok(bytes) => Some(bytes),
        Err(_) => None,
    }
}

/// Calls `comrak::markdown_to_html` on `md` with `comrak::Options::default()`.
/// Claimed: the result is `markdown_html` of `md`; the rendering itself is
/// not stated.
#[verifier::external_body]
pub(crate) fn render_markdown(md: &str) -> (r: String)
    ensures
        r@ == markdown_html(md@),
{
    comrak::markdown_to_html(md, &comrak::Options::default())
}

} // verus!
