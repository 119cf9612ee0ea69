//! Calls into `http` and `std::path`, with the contracts that
//! the rest of the library relies on. Nothing here is proved: each contract
//! restates what the called function's source or documentation shows.

use vstd::prelude::*;

verus! {

/// `http::Uri`, carried through unopened.
#[verifier::external_type_specification]
#[verifier::external_body]
pub struct ExUri(http::Uri);

/// `http::uri::InvalidUri`, the error of a refused URI.
#[verifier::external_type_specification]
#[verifier::external_body]
pub struct ExInvalidUri(http::uri::InvalidUri);

/// Whether `http` accepts `text` as a URI (its `Uri::from_str`).
pub uninterp spec fn uri_accepts(text: Seq<char>) -> bool;

/// The URI that `http` parses out of `text` (its `Uri::from_str`), when it
/// accepts it.
pub uninterp spec fn endpoint_uri(text: Seq<char>) -> http::Uri;

/// The error `http` reports for `text` (its `Uri::from_str`), when it refuses
/// it.
pub uninterp spec fn uri_parse_error(text: Seq<char>) -> http::uri::InvalidUri;

/// The text of a URI error, as its `Display` impl writes it.
pub uninterp spec fn invalid_uri_display(e: http::uri::InvalidUri) -> Seq<char>;

/// The parent of a path, as `std::path::Path::parent` computes it with the
/// target platform's path syntax.
pub uninterp spec fn path_parent(path: Seq<char>) -> Option<Seq<char>>;

/// A path with `part` adjoined, as `std::path::Path::join` computes it with the
/// target platform's path syntax.
pub uninterp spec fn path_join(base: Seq<char>, part: Seq<char>) -> Seq<char>;

/// Calls `http::Uri::from_str`. Claims that it succeeds exactly on the texts
/// that `uri_accepts` names, and that its URI, or its error, is the one that
/// `endpoint_uri`, or `uri_parse_error`, names for the text: the parse depends
/// on the text alone.
#[verifier::external_body]
pub(crate) fn parse_uri(text: &str) -> (r: Result<http::Uri, http::uri::InvalidUri>)
    ensures
        r is Ok <==> uri_accepts(text@),
        r matches Ok(u) ==> u == endpoint_uri(text@),
        r matches Err(e) ==> e == uri_parse_error(text@),
{
    text.parse::<http::Uri>()
}

/// Calls the `Display` impl of `http::uri::InvalidUri` (through `to_string`).
/// Claims that the text is the one `invalid_uri_display` names for the error:
/// it depends on the error alone.
#[verifier::external_body]
pub(crate) fn invalid_uri_text(e: &http::uri::InvalidUri) -> (r: String)
    ensures
        r@ == invalid_uri_display(*e),
{
    e.to_string()
}

/// Calls `std::path::Path::parent` on `path`, and hands the parent back as a
/// `String` (lossless, as it is a prefix of UTF-8 text). Claims that the
/// result is the one `path_parent` names.
#[verifier::external_body]
pub(crate) fn parent_path(path: &str) -> (r: Option<String>)
    ensures
        match r {
            Some(p) => path_parent(path@) == Some(p@),
            None => path_parent(path@) is None,
        },
{
    std::path::Path::new(path).parent().map(|p| p.to_string_lossy().into_owned())
}

/// Calls `std::path::Path::join`, and hands the result back as a `String`
/// (lossless, as both parts are UTF-8 text). Claims that the result is the one
/// `path_join` names.
#[verifier::external_body]
pub(crate) fn join_path(base: &str, part: &str) -> (r: String)
    ensures
        r@ == path_join(base@, part@),
{
    std::path::Path::new(base).join(part).to_string_lossy().into_owned()
}

} // verus!
