//! The index-fetch proxy: validating and normalizing the requested URL so
//! that it points at an index document, and translating the upstream fetch's
//! outcome into the relayed reply.

use vstd::prelude::*;
use vstd::string::StrSliceExecFns;
use vstd::string::StringExecFns;

use crate::response::{ErrorResponse, IndexResponse};
use crate::text::{ends_with_seq, ends_with_str, str_eq, trim_end_slashes, trim_end_slashes_str};

verus! {

/// What parsing an absolute URL yields, when it parses: its scheme, its path,
/// and its canonical serialization. The result depends on the text alone.
pub uninterp spec fn url_parts_of(s: Seq<char>) -> Option<(Seq<char>, Seq<char>, Seq<char>)>;

/// The canonical serialization of the URL `s` after its path is replaced by
/// `path`. The result depends on the two texts alone.
pub uninterp spec fn url_with_path_of(s: Seq<char>, path: Seq<char>) -> Seq<char>;

/// The pieces of a parsed URL that the proxy reads.
pub struct UrlParts {
    pub scheme: String,
    pub path: String,
    pub serialized: String,
}

/// Relies on url::Url::parse and its scheme, path and as_str accessors:
/// parsing either fails or yields the URL's scheme, path and canonical text,
/// a function of the input alone.
#[verifier::external_body]
fn parse_url(s: &str) -> (r: Option<UrlParts>)
    ensures
        (r is Some) == (url_parts_of(s@) is Some),
        (r matches Some(parts) ==> ({
            let t = url_parts_of(s@)->Some_0;
            parts.scheme@ == t.0 && parts.path@ == t.1 && parts.serialized@ == t.2
        })),
{
    match url::Url::parse(s) {
        Ok(u) => {
            let scheme = u.scheme().to_string();
            let path = u.path().to_string();
            let serialized = u.as_str().to_string();
            Some(UrlParts { scheme, path, serialized })
        },
        Err(_) => None,
    }
}

/// Relies on url::Url::set_path and as_str: replacing the path of a URL that
/// parses, then serializing, is a function of the two texts alone.
#[verifier::external_body]
fn url_replace_path(s: &str, path: &str) -> (r: String)
    requires
        url_parts_of(s@) is Some,
    ensures
        r@ == url_with_path_of(s@, path@),
{
    let mut u = match url::Url::parse(s) {
        Ok(u) => u,
        Err(_) => return String::new(),
    };
    u.set_path(path);
    u.as_str().to_string()
}

/// The URL's path already names an index document.
pub open spec fn names_index(path: Seq<char>) -> bool {
    ends_with_seq(path, "/index.yaml"@) || ends_with_seq(path, "/index.yml"@)
}

/// The path a URL is rewritten to when it does not name an index document:
/// trailing slashes dropped, `/index.yaml` appended.
pub open spec fn spec_index_path(path: Seq<char>) -> Seq<char> {
    trim_end_slashes(path) + "/index.yaml"@
}

/// Validates the requested URL and decides the final URL to fetch: the text
/// must parse as an http or https URL, and a path that does not already name
/// an index document is rewritten to point at `index.yaml`.
pub fn plan_index_fetch(url_text: &str) -> (r: Result<String, ErrorResponse>)
    ensures
        (url_parts_of(url_text@) is None) ==> (r matches Err(e) && e.status == 400 && e.message@
            == "Invalid URL format"@),
        (url_parts_of(url_text@) matches Some(t) ==> ({
            if t.0 != "http"@ && t.0 != "https"@ {
                r matches Err(e) && e.status == 400 && e.message@ == "Invalid URL scheme"@
            } else if names_index(t.1) {
                r matches Ok(u) && u@ == t.2
            } else {
                r matches Ok(u) && u@ == url_with_path_of(url_text@, spec_index_path(t.1))
            }
        })),
{
    let parts = match parse_url(url_text) {
        Some(p) => p,
        None => {
            return Err(
                ErrorResponse { status: 400, message: String::from_str("Invalid URL format") },
            );
        },
    };
    if !str_eq(parts.scheme.as_str(), "http") && !str_eq(parts.scheme.as_str(), "https") {
        return Err(ErrorResponse { status: 400, message: String::from_str("Invalid URL scheme") });
    }
    if ends_with_str(parts.path.as_str(), "/index.yaml") || ends_with_str(
        parts.path.as_str(),
        "/index.yml",
    ) {
        return Ok(parts.serialized);
    }
    let mut new_path = trim_end_slashes_str(parts.path.as_str());
    new_path.append("/index.yaml");
    Ok(url_replace_path(url_text, new_path.as_str()))
}

/// What the one bounded upstream GET can come back with.
pub enum FetchOutcome {
    /// The bound elapsed before a response arrived.
    TimedOut,
    /// The request failed in transport before any response.
    TransportFailed,
    /// A response arrived: its status code, the rendered form of that status,
    /// and the body text when it could be read.
    Responded { status: u16, status_text: String, body: Option<String> },
}

/// Translates the upstream fetch's outcome into the relayed reply: a timeout
/// and a transport failure map to gateway errors, a non-2xx status is
/// reported with its rendering, and a readable 2xx body is relayed verbatim
/// as plain text.
pub fn index_fetch_response(outcome: FetchOutcome) -> (r: IndexResponse)
    ensures
        (outcome is TimedOut) ==> r.status == 504 && r.content_type is None && r.body@
            == "Upstream request timeout"@,
        (outcome is TransportFailed) ==> r.status == 502 && r.content_type is None && r.body@
            == "Upstream fetch failed"@,
        (outcome matches FetchOutcome::Responded { status, status_text, body } ==> ({
            if !(200 <= status < 300) {
                r.status == 502 && r.content_type is None && r.body@ == "Upstream error: "@
                    + status_text@
            } else {
                match body {
                    Some(text) => r.status == 200 && (r.content_type matches Some(ct) && ct@
                        == "text/plain; charset=utf-8"@) && r.body@ == text@,
                    None => r.status == 502 && r.content_type is None && r.body@
                        == "Failed to read upstream response"@,
                }
            }
        })),
{
    match outcome {
        FetchOutcome::TimedOut => IndexResponse {
            status: 504,
            content_type: None,
            body: String::from_str("Upstream request timeout"),
        },
        FetchOutcome::TransportFailed => IndexResponse {
            status: 502,
            content_type: None,
            body: String::from_str("Upstream fetch failed"),
        },
        FetchOutcome::Responded { status, status_text, body } => {
            if !(200 <= status && status < 300) {
                let mut msg = String::from_str("Upstream error: ");
                msg.append(status_text.as_str());
                IndexResponse { status: 502, content_type: None, body: msg }
            } else {
                match body {
                    Some(text) => IndexResponse {
                        status: 200,
                        content_type: Some(String::from_str("text/plain; charset=utf-8")),
                        body: text,
                    },
                    None => IndexResponse {
                        status: 502,
                        content_type: None,
                        body: String::from_str("Failed to read upstream response"),
                    },
                }
            }
        },
    }
}

} // verus!
