//! Fetches a search-engine results page and turns its markup into result records.
//!
//! The library holds the parts that decide something: the outbound request, the
//! extraction of records from the page, and the response to a fetch outcome.
//! Network and server plumbing stay with the caller.

mod extract;
mod handler;
mod page;
mod record;
mod request;

pub use extract::{
    extract, CONTAINER_SELECTOR, HEADING_SELECTOR, LINK_ATTRIBUTE, LINK_SELECTOR,
    SNIPPET_SELECTOR,
};
pub use handler::{
    respond, FetchError, Header, Reply, PREFLIGHT_MAX_AGE, STATUS_OK, STATUS_SERVER_ERROR,
};
pub use record::SearchResult;
pub use request::{search_request, search_url, SearchRequest, RESULT_COUNT, SEARCH_BASE, USER_AGENT};
