//! What HTTP downloads decide without touching the network: the request header, the
//! error a failed download reports, and the file a download is written to.
use vstd::prelude::*;
use vstd::string::*;
use crate::foreign::{io_error_text, request_error_text};
use crate::paths::{join, spec_join, Platform};
use crate::text::{concat, push_decimal, spec_decimal};

verus! {

/// Value of the `User-Agent` header sent with every request.
pub const USER_AGENT: &'static str = "uFBT SDKLoader/0.2";

/// Failure of an HTTP download.
#[derive(Debug)]
pub enum FetchError {
    /// The server answered with a status other than `200 OK`.
    Http {
        /// Status code returned by the server.
        status: u16,
        /// Reason phrase returned by the server.
        reason: String,
    },
    /// The address could not be parsed as a URL.
    InvalidUrl {
        /// The address as it was given.
        url: String,
    },
    /// The TLS backend could not be initialized.
    Tls(String),
    /// The request could not be performed.
    Request(reqwest::Error),
    /// The downloaded data could not be written to disk.
    Io(std::io::Error),
}

/// Text of a fetch error, where it is made of the error's own fields.
pub open spec fn spec_fetch_message(error: FetchError) -> Option<Seq<char>> {
    match error {
        FetchError::Http { status, reason } => Some(
            "HTTP Error "@ + spec_decimal(status as nat) + ": "@ + reason@,
        ),
        FetchError::InvalidUrl { url } => Some("Invalid URL: "@ + url@),
        FetchError::Tls(message) => Some("TLS initialization failed: "@ + message@),
        FetchError::Request(_) => None,
        FetchError::Io(_) => None,
    }
}

impl FetchError {
    /// Human-readable text of the error. A request or I/O failure reads as the text of the
    /// underlying error.
    pub fn message(&self) -> (m: String)
        ensures
            spec_fetch_message(*self) matches Some(text) ==> m@ == text,
    {
        match self {
            FetchError::Http { status, reason } => {
                let mut m = "HTTP Error ".to_owned();
                push_decimal(&mut m, *status as u64);
                m.append(": ");
                m.append(reason.as_str());
                m
            },
            FetchError::InvalidUrl { url } => concat("Invalid URL: ", url.as_str()),
            FetchError::Tls(message) => concat("TLS initialization failed: ", message.as_str()),
            FetchError::Request(error) => request_error_text(error),
            FetchError::Io(error) => io_error_text(error),
        }
    }
}

impl From<std::io::Error> for FetchError {
    fn from(error: std::io::Error) -> (r: FetchError) {
        FetchError::Io(error)
    }
}

impl vstd::std_specs::convert::FromSpecImpl<std::io::Error> for FetchError {
    open spec fn obeys_from_spec() -> bool {
        true
    }

    open spec fn from_spec(error: std::io::Error) -> FetchError {
        FetchError::Io(error)
    }
}

impl From<reqwest::Error> for FetchError {
    fn from(error: reqwest::Error) -> (r: FetchError) {
        FetchError::Request(error)
    }
}

impl vstd::std_specs::convert::FromSpecImpl<reqwest::Error> for FetchError {
    open spec fn obeys_from_spec() -> bool {
        true
    }

    open spec fn from_spec(error: reqwest::Error) -> FetchError {
        FetchError::Request(error)
    }
}

/// Path of a file named `file_name` inside `dir`.
pub fn join_file_name(dir: &str, file_name: &str, platform: Platform) -> (r: String)
    ensures
        r@ == spec_join(dir@, file_name@, platform),
{
    join(dir, file_name, platform)
}

/// Path a download is written to before it is moved onto `target`: `target` followed by
/// `.part`.
pub fn with_part_suffix(target: &str) -> (r: String)
    ensures
        r@ == target@ + ".part"@,
{
    concat(target, ".part")
}

/// Names what `reqwest::Url::parse` followed by `path_segments` and `Iterator::last` yields
/// for an address: `None` when the address is not a URL, `Some(None)` when the URL has no
/// path segments, and `Some(Some(last))` otherwise, `last` being the last segment as it is
/// written in the URL.
pub uninterp spec fn url_last_segment(url: Seq<char>) -> Option<Option<Seq<char>>>;

/// `reqwest::Url::parse`, then `Url::path_segments` and the last segment.
///
/// The one wrapper stands for those outside calls composed: [`url_last_segment`] names
/// what they yield together.
#[verifier::external_body]
fn last_path_segment(url: &str) -> (r: Option<Option<String>>)
    ensures
        match r {
            None => url_last_segment(url@) is None,
            Some(None) => url_last_segment(url@) == Some(None::<Seq<char>>),
            Some(Some(last)) => url_last_segment(url@) == Some(Some(last@)),
        },
{
    match reqwest::Url::parse(url) {
        Err(_) => None,
        Ok(parsed) => Some(parsed.path_segments().and_then(|segments| segments.last()).map(|last| last.to_owned())),
    }
}

/// Names what `percent_encoding::percent_decode_str` followed by `decode_utf8` yields for a
/// text: the percent-decoded text, or `None` when the decoded bytes are not UTF-8.
pub uninterp spec fn percent_decoded(text: Seq<char>) -> Option<Seq<char>>;

/// `percent_encoding::percent_decode_str(text).decode_utf8()`.
#[verifier::external_body]
fn percent_decode(text: &str) -> (r: Option<String>)
    ensures
        match r {
            None => percent_decoded(text@) is None,
            Some(decoded) => percent_decoded(text@) == Some(decoded@),
        },
{
    percent_encoding::percent_decode_str(text).decode_utf8().ok().map(|decoded| decoded.into_owned())
}

/// `text` percent-decoded, or `text` itself when the decoded bytes are not UTF-8.
pub open spec fn spec_decode_component(text: Seq<char>) -> Seq<char> {
    match percent_decoded(text) {
        Some(decoded) => decoded,
        None => text,
    }
}

fn decode_component(text: &str) -> (r: String)
    ensures
        r@ == spec_decode_component(text@),
{
    match percent_decode(text) {
        Some(decoded) => decoded,
        None => text.to_owned(),
    }
}

/// Name a download of `url` is stored under: the last path segment of the URL,
/// percent-decoded twice; empty when the URL has no path segments.
pub open spec fn spec_file_name_from_url(url: Seq<char>) -> Option<Seq<char>> {
    match url_last_segment(url) {
        None => None,
        Some(last) => Some(spec_file_name_from_segment(last)),
    }
}

/// Name a download is stored under, given the last path segment of its URL as it is
/// written there: the segment percent-decoded twice, or an empty name when the URL has no
/// path segments.
pub open spec fn spec_file_name_from_segment(last: Option<Seq<char>>) -> Seq<char> {
    match last {
        None => Seq::empty(),
        Some(last) => spec_decode_component(spec_decode_component(last)),
    }
}

/// Name a download is stored under, given the last path segment of its URL as it is
/// written there, or `None` for a URL without path segments.
pub fn file_name_from_segment(last: Option<&str>) -> (r: String)
    ensures
        r@ == spec_file_name_from_segment(
            match last {
                Some(l) => Some(l@),
                None => None,
            },
        ),
{
    match last {
        None => String::new(),
        Some(last) => {
            let once = decode_component(last);
            decode_component(once.as_str())
        },
    }
}

/// Name a download of `url` is stored under: the last path segment, percent-decoded twice,
/// or an empty name for a URL without path segments. `None` when `url` is not a URL.
pub fn file_name_from_url(url: &str) -> (r: Option<String>)
    ensures
        match r {
            None => spec_file_name_from_url(url@) is None,
            Some(name) => spec_file_name_from_url(url@) == Some(name@),
        },
{
    match last_path_segment(url) {
        None => None,
        Some(None) => Some(file_name_from_segment(None)),
        Some(Some(last)) => Some(file_name_from_segment(Some(last.as_str()))),
    }
}

} // verus!
