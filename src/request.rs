//! The outbound request for a results page.
use vstd::prelude::*;
use vstd::string::StringExecFns;

verus! {

/// The browser identity that the outbound request presents, its one header.
pub const USER_AGENT: &'static str =
    "Mozilla/5.0 (Windows NT 10.0; rv:109.0) Gecko/20100101 Firefox/115.0";

/// The search address of the upstream host, up to the query text.
pub const SEARCH_BASE: &'static str = "https://www.google.com/search?q=";

/// The number of results asked for per page.
pub const RESULT_COUNT: &'static str = "20";

/// The address of the results page for a query: the query text, the offset of
/// the first result, the interface language, results restricted to that
/// language, and the result-count hint. The three inputs stand as given.
pub open spec fn search_url_of(lang: Seq<char>, page: Seq<char>, query: Seq<char>) -> Seq<char> {
    SEARCH_BASE@ + query + "&start="@ + page + "&hl="@ + lang + "&lr=lang_"@ + lang + "&num="@
        + RESULT_COUNT@
}

/// What is sent upstream: the address and the `User-Agent` header value.
pub struct SearchRequest {
    pub url: String,
    pub user_agent: String,
}

/// Builds the address of the results page for a query.
pub fn search_url(lang: &str, page: &str, query: &str) -> (r: String)
    ensures
        r@ == search_url_of(lang@, page@, query@),
{
    let mut url = String::from_str(SEARCH_BASE);
    url.append(query);
    url.append("&start=");
    url.append(page);
    url.append("&hl=");
    url.append(lang);
    url.append("&lr=lang_");
    url.append(lang);
    url.append("&num=");
    url.append(RESULT_COUNT);
    url
}

/// Builds the request for a results page: its address, and the browser
/// identity as its only header.
pub fn search_request(lang: &str, page: &str, query: &str) -> (r: SearchRequest)
    ensures
        r.url@ == search_url_of(lang@, page@, query@),
        r.user_agent@ == USER_AGENT@,
{
    SearchRequest { url: search_url(lang, page, query), user_agent: String::from_str(USER_AGENT) }
}

} // verus!
