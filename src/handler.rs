//! The response to one inbound request, given what the fetch of the page gave.
use crate::extract::{extract, records_of, views_of};
use crate::record::SearchResult;
use vstd::prelude::*;

verus! {

/// Why the results page could not be had. The caller sees one failure either way.
#[derive(Clone, Copy, Debug, PartialEq, Eq)]
pub enum FetchError {
    /// The request could not be made or answered: name lookup, TLS, connection.
    Transport,
    /// The answer came, but its body could not be read as text.
    Decode,
}

/// One response header.
#[derive(Clone, Copy, Debug)]
pub struct Header {
    pub name: &'static str,
    pub value: &'static str,
}

/// The status of a response that carries results.
pub const STATUS_OK: u16 = 200;

/// The status of a response to a failed fetch.
pub const STATUS_SERVER_ERROR: u16 = 500;

/// How long, in seconds, a caller may keep the answer to a preflight request.
pub const PREFLIGHT_MAX_AGE: &'static str = "1728000";

/// The response to an inbound request: a status, its headers, and the records
/// that make up its body (a JSON array of them on the wire; none on failure).
pub struct Reply {
    pub status: u16,
    pub headers: Vec<Header>,
    pub results: Vec<SearchResult>,
}

/// The headers of a successful response: any origin, any header and any method
/// may reach the results, and a preflight answer may be kept for twenty days.
pub open spec fn cors_headers() -> Seq<(Seq<char>, Seq<char>)> {
    seq![
        ("Access-Control-Allow-Origin"@, "*"@),
        ("Access-Control-Allow-Headers"@, "*"@),
        ("Access-Control-Allow-Methods"@, "*"@),
        ("Access-Control-Max-Age"@, PREFLIGHT_MAX_AGE@),
    ]
}

/// Headers as name and value text.
pub open spec fn header_views(hs: Seq<Header>) -> Seq<(Seq<char>, Seq<char>)> {
    hs.map_values(|h: Header| (h.name@, h.value@))
}

fn cors() -> (r: Vec<Header>)
    ensures
        header_views(r@) == cors_headers(),
{
    let r = vec![
        Header { name: "Access-Control-Allow-Origin", value: "*" },
        Header { name: "Access-Control-Allow-Headers", value: "*" },
        Header { name: "Access-Control-Allow-Methods", value: "*" },
        Header { name: "Access-Control-Max-Age", value: PREFLIGHT_MAX_AGE },
    ];
    assert(header_views(r@) =~= cors_headers());
    r
}

/// Answers an inbound request from the outcome of fetching its results page.
///
/// A fetched page answers 200 with the records extracted from it and headers
/// that open it to any origin. A failed fetch answers 500 with no body and no
/// headers, whatever the cause.
pub fn respond(fetched: Result<String, FetchError>) -> (r: Reply)
    ensures
        match fetched {
            Ok(html) => {
                &&& r.status == STATUS_OK
                &&& header_views(r.headers@) == cors_headers()
                &&& views_of(r.results@) == records_of(html@)
            },
            Err(_) => {
                &&& r.status == STATUS_SERVER_ERROR
                &&& r.headers@.len() == 0
                &&& r.results@.len() == 0
            },
        },
{
    match fetched {
        Ok(html) => Reply { status: STATUS_OK, headers: cors(), results: extract(html.as_str()) },
        Err(_) => Reply { status: STATUS_SERVER_ERROR, headers: Vec::new(), results: Vec::new() },
    }
}

} // verus!
