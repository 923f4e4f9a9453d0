//! Building the addresses of requests.
//!
//! An address is kept as text. The `url` crate does the work on it; this
//! module gives each of its operations a name that contracts can speak of,
//! and guards the operations against texts too long for a URL.

use vstd::prelude::*;
use crate::text::{fits, text_fits, Text};

verus! {

/// What `Url::parse` makes of a text: the serialization of the URL, or
/// `None` where the text is no absolute URL.
pub uninterp spec fn url_parsed(text: Seq<char>) -> Option<Seq<char>>;

/// What `Url::join` makes of a base and a reference: the serialization of
/// the resolved URL, or `None` where the base does not parse or the
/// reference cannot be resolved against it.
pub uninterp spec fn url_joined(base: Seq<char>, reference: Seq<char>) -> Option<Seq<char>>;

/// The serialization of a base after `PathSegmentsMut::push` has appended one
/// segment to its path, or `None` where the base does not parse or cannot be
/// a base.
pub uninterp spec fn url_with_segment(base: Seq<char>, segment: Seq<char>) -> Option<Seq<char>>;

/// The serialization of a URL after `Serializer::append_pair` has appended
/// one name and value to its query, or `None` where the URL does not parse.
pub uninterp spec fn url_with_pair(url: Seq<char>, name: Seq<char>, value: Seq<char>) -> Option<
    Seq<char>,
>;

/// Parses a text with `Url::parse` and returns the URL's serialization, or
/// `None` where `Url::parse` returns an error.
#[verifier::external_body]
fn url_parse(text: &str) -> (parsed: Option<String>)
    requires
        fits(text@),
    ensures
        parsed.deep_view() == url_parsed(text@),
{
    match url::Url::parse(text) {
        Ok(url) => Some(String::from(url)),
        Err(_) => None,
    }
}

/// Resolves a reference against a base with `Url::join` and returns the
/// serialization of the result, or `None` where the base does not parse or
/// `Url::join` returns an error.
#[verifier::external_body]
fn url_join(base: &str, reference: &str) -> (joined: Option<String>)
    requires
        fits(base@),
        fits(reference@),
    ensures
        joined.deep_view() == url_joined(base@, reference@),
{
    let base = match url::Url::parse(base) {
        Ok(url) => url,
        Err(_) => return None,
    };
    match base.join(reference) {
        Ok(url) => Some(String::from(url)),
        Err(_) => None,
    }
}

/// Appends one path segment to a base with `Url::path_segments_mut` and
/// `PathSegmentsMut::push` and returns the serialization of the result, or
/// `None` where the base does not parse or `path_segments_mut` returns an
/// error. The texts are bounded so that the URL stays within the 32-bit
/// offsets that the `url` crate unwraps.
#[verifier::external_body]
fn url_push_segment(base: &str, segment: &str) -> (pushed: Option<String>)
    requires
        fits(base@),
        fits(segment@),
    ensures
        pushed.deep_view() == url_with_segment(base@, segment@),
{
    let mut url = match url::Url::parse(base) {
        Ok(url) => url,
        Err(_) => return None,
    };
    match url.path_segments_mut() {
        Ok(mut segments) => { segments.push(segment); },
        Err(_) => return None,
    }
    Some(String::from(url))
}

/// Appends one query pair to a URL with `Url::query_pairs_mut` and
/// `Serializer::append_pair` and returns the serialization of the result, or
/// `None` where the URL does not parse. The texts are bounded as in
/// `url_push_segment`.
#[verifier::external_body]
fn url_append_pair(url: &str, name: &str, value: &str) -> (appended: Option<String>)
    requires
        fits(url@),
        fits(name@),
        fits(value@),
    ensures
        appended.deep_view() == url_with_pair(url@, name@, value@),
{
    let mut url = match url::Url::parse(url) {
        Ok(url) => url,
        Err(_) => return None,
    };
    url.query_pairs_mut().append_pair(name, value);
    Some(String::from(url))
}

/// The address that a text denotes, in the form in which it is kept:
/// `None` where the text is too long or is no absolute URL.
pub open spec fn located(text: Text) -> Option<Text> {
    if fits(text) {
        url_parsed(text)
    } else {
        None
    }
}

/// The root of a server: the address `/` resolved against a base.
pub open spec fn root_of(base: Text) -> Option<Text> {
    if fits(base) {
        url_joined(base, seq!['/'])
    } else {
        None
    }
}

/// A base with one more path segment.
pub open spec fn with_segment(base: Option<Text>, segment: Text) -> Option<Text> {
    match base {
        Some(base) => if fits(base) && fits(segment) {
            url_with_segment(base, segment)
        } else {
            None
        },
        None => None,
    }
}

/// A URL with one more query pair.
pub open spec fn with_pair(url: Option<Text>, name: Text, value: Text) -> Option<Text> {
    match url {
        Some(url) => if fits(url) && fits(name) && fits(value) {
            url_with_pair(url, name, value)
        } else {
            None
        },
        None => None,
    }
}

/// Reads a text as an address.
pub fn locate(text: &str) -> (address: Option<String>)
    ensures
        address.deep_view() == located(text@),
{
    if text_fits(text) {
        url_parse(text)
    } else {
        None
    }
}

/// The root of the server that a base address lies on.
pub fn root(base: &str) -> (address: Option<String>)
    ensures
        address.deep_view() == root_of(base@),
{
    proof {
        reveal_strlit("/");
        assert("/"@ =~= seq!['/']);
        vstd::utf8::is_ascii_chars_encode_utf8(seq!['/']);
    }
    if text_fits(base) {
        url_join(base, "/")
    } else {
        None
    }
}

/// Appends a path segment to an address, if there is one.
pub fn push_segment(base: Option<String>, segment: &str) -> (address: Option<String>)
    ensures
        address.deep_view() == with_segment(base.deep_view(), segment@),
{
    match base {
        Some(base) => {
            if text_fits(base.as_str()) && text_fits(segment) {
                url_push_segment(base.as_str(), segment)
            } else {
                None
            }
        },
        None => None,
    }
}

/// Appends a query pair to an address, if there is one.
pub fn append_pair(url: Option<String>, name: &str, value: &str) -> (address: Option<String>)
    ensures
        address.deep_view() == with_pair(url.deep_view(), name@, value@),
{
    match url {
        Some(url) => {
            if text_fits(url.as_str()) && text_fits(name) && text_fits(value) {
                url_append_pair(url.as_str(), name, value)
            } else {
                None
            }
        },
        None => None,
    }
}

} // verus!
