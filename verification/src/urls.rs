//! URL handling through the `url` crate. What `url` computes (WHATWG
//! parsing, joining, percent-encoding of path segments) is named here, not
//! restated: each name stands for the text that the crate produces.

use vstd::prelude::*;

verus! {

/// What `url::Url::parse` makes of `input`: `Ok` with the serialization of
/// the parsed URL, or `Err` with the text of the `url::ParseError`.
pub uninterp spec fn parsed_url(input: Seq<char>) -> Result<Seq<char>, Seq<char>>;

/// What `url::Url::join` makes of `input` against the URL that `base`
/// parses to: `Ok` with the serialization of the joined URL, or `Err` with the
/// text of the `url::ParseError` (of `base` or of the join).
pub uninterp spec fn joined_url(base: Seq<char>, input: Seq<char>) -> Result<Seq<char>, Seq<char>>;

/// The URL `url` with one trailing empty path segment removed (a trailing
/// slash, unless it is the initial one); `None` when `url` does not parse or
/// cannot be a base.
pub uninterp spec fn url_popped_if_empty(url: Seq<char>) -> Option<Seq<char>>;

/// The URL `url` with `segment` appended as a path segment (percent-encoded
/// by the crate, `.` and `..` ignored); `None` when `url` does not parse or
/// cannot be a base.
pub uninterp spec fn url_pushed(url: Seq<char>, segment: Seq<char>) -> Option<Seq<char>>;

/// Whether `url` and `segment` are short enough for `push_segment`: at most
/// 4 Mi characters together. `url` crate keeps positions in a `u32` and
/// panics when an edited path grows past `u32::MAX` bytes; reparsing a
/// character of `url` writes at most a few hundred bytes (percent-encoding,
/// IDNA mapping and punycode of the host), and a character of `segment`
/// at most 12 (a four-byte character percent-encoded), so under this bound
/// the result stays far below 4 GiB.
pub open spec fn segment_fits(url: Seq<char>, segment: Seq<char>) -> bool {
    url.len() + segment.len() <= 0x40_0000
}

/// The texts that `url::ParseError` displays, one per variant.
pub open spec fn is_url_error_text(m: Seq<char>) -> bool {
    ||| m == "empty host"@
    ||| m == "invalid international domain name"@
    ||| m == "invalid port number"@
    ||| m == "invalid IPv4 address"@
    ||| m == "invalid IPv6 address"@
    ||| m == "invalid domain character"@
    ||| m == "relative URL without a base"@
    ||| m == "relative URL with a cannot-be-a-base base"@
    ||| m == "a cannot-be-a-base URL doesn’t have a host to set"@
    ||| m == "URLs more than 4 GB are not supported"@
}

/// `url::Url::parse`, the URL turned into its serialization and the error
/// into its display text. The contract claims that the outcome is a function
/// of `input` alone and that an error text is one that `url::ParseError`
/// displays.
#[verifier::external_body]
pub(crate) fn parse_url(input: &str) -> (res: Result<String, String>)
    ensures
        res is Ok <==> parsed_url(input@) is Ok,
        res matches Ok(u) ==> u@ == parsed_url(input@)->Ok_0,
        res matches Err(m) ==> m@ == parsed_url(input@)->Err_0 && is_url_error_text(m@),
{
    match url::Url::parse(input) {
        Ok(u) => Ok(String::from(u)),
        Err(e) => Err(e.to_string()),
    }
}

/// `url::Url::join` of `input` on the URL that `base` parses to, results
/// converted as in `parse_url`. The contract claims that the outcome is a
/// function of `base` and `input` alone and that an error text is one that
/// `url::ParseError` displays.
#[verifier::external_body]
pub(crate) fn join_url(base: &str, input: &str) -> (res: Result<String, String>)
    ensures
        res is Ok <==> joined_url(base@, input@) is Ok,
        res matches Ok(u) ==> u@ == joined_url(base@, input@)->Ok_0,
        res matches Err(m) ==> m@ == joined_url(base@, input@)->Err_0 && is_url_error_text(m@),
{
    let b = match url::Url::parse(base) {
        Ok(b) => b,
        Err(e) => return Err(e.to_string()),
    };
    match b.join(input) {
        Ok(u) => Ok(String::from(u)),
        Err(e) => Err(e.to_string()),
    }
}

/// `url::PathSegmentsMut::pop_if_empty` on the path of the URL that `url`
/// parses to (reached through `url::Url::path_segments_mut`), the URL turned
/// back into its serialization. The contract claims that the outcome is a
/// function of `url` alone; `None` stands for a URL that does not parse or
/// cannot be a base.
#[verifier::external_body]
pub(crate) fn pop_empty_segment(url: &str) -> (res: Option<String>)
    ensures
        res is Some <==> url_popped_if_empty(url@) is Some,
        res matches Some(u) ==> u@ == url_popped_if_empty(url@)->0,
{
    let mut u = match url::Url::parse(url) {
        Ok(u) => u,
        Err(_) => return None,
    };
    match u.path_segments_mut() {
        Ok(mut segments) => {
            segments.pop_if_empty();
        },
        Err(()) => return None,
    }
    Some(String::from(u))
}

/// `url::PathSegmentsMut::push(segment)` on the path of the URL that `url`
/// parses to (reached through `url::Url::path_segments_mut`), the URL turned
/// back into its serialization. The `requires` leaves out the inputs long
/// enough to make the crate panic (see `segment_fits`). The contract claims that the outcome is a
/// function of `url` and `segment` alone; `None` stands for a URL that does
/// not parse or cannot be a base.
#[verifier::external_body]
pub(crate) fn push_segment(url: &str, segment: &str) -> (res: Option<String>)
    requires
        segment_fits(url@, segment@),
    ensures
        res is Some <==> url_pushed(url@, segment@) is Some,
        res matches Some(u) ==> u@ == url_pushed(url@, segment@)->0,
{
    let mut u = match url::Url::parse(url) {
        Ok(u) => u,
        Err(_) => return None,
    };
    match u.path_segments_mut() {
        Ok(mut segments) => {
            segments.push(segment);
        },
        Err(()) => return None,
    }
    Some(String::from(u))
}

} // verus!
