//! Turns the markup of a results page into result records.
use crate::page::{
    first_attrs, first_attrs_of, first_texts, first_texts_of, match_count, selector_is_valid,
    selector_parses,
};
use crate::record::{ResultView, SearchResult};
use vstd::prelude::*;

verus! {

/// Matches one result container of the page.
pub const CONTAINER_SELECTOR: &'static str = ".g";

/// Matches the heading that carries a result's title.
pub const HEADING_SELECTOR: &'static str = "h3";

/// Matches the link that carries a result's address.
pub const LINK_SELECTOR: &'static str = "a[href]";

/// The attribute of the link that holds the address.
pub const LINK_ATTRIBUTE: &'static str = "href";

/// Matches the element that carries a result's snippet.
pub const SNIPPET_SELECTOR: &'static str = ".VwiC3b";

/// The text found, or the empty text where nothing was found.
pub open spec fn text_or_empty(found: Option<Seq<char>>) -> Seq<char> {
    match found {
        Some(t) => t,
        None => Seq::empty(),
    }
}

/// Whether the selector engine accepts every selector that extraction uses.
pub open spec fn selectors_accepted() -> bool {
    &&& selector_parses(CONTAINER_SELECTOR@)
    &&& selector_parses(HEADING_SELECTOR@)
    &&& selector_parses(LINK_SELECTOR@)
    &&& selector_parses(SNIPPET_SELECTOR@)
}

/// How many result containers the page parsed from `html` holds.
pub open spec fn container_count(html: Seq<char>) -> nat {
    match_count(html, CONTAINER_SELECTOR@)
}

/// The title of the container at `i`: the text of its first heading.
pub open spec fn title_at(html: Seq<char>, i: int) -> Option<Seq<char>> {
    first_texts_of(html, CONTAINER_SELECTOR@, HEADING_SELECTOR@)[i]
}

/// The address of the container at `i`: the `href` of its first link that has one.
pub open spec fn url_at(html: Seq<char>, i: int) -> Option<Seq<char>> {
    first_attrs_of(html, CONTAINER_SELECTOR@, LINK_SELECTOR@, LINK_ATTRIBUTE@)[i]
}

/// The description of the container at `i`: the text of its first snippet.
pub open spec fn description_at(html: Seq<char>, i: int) -> Option<Seq<char>> {
    first_texts_of(html, CONTAINER_SELECTOR@, SNIPPET_SELECTOR@)[i]
}

/// The record made of the container at `i`, with an empty field for each part
/// that the container lacks.
pub open spec fn record_at(html: Seq<char>, i: int) -> ResultView {
    ResultView {
        title: text_or_empty(title_at(html, i)),
        url: text_or_empty(url_at(html, i)),
        description: text_or_empty(description_at(html, i)),
    }
}

/// The records of a page: one per container, in the order of the containers.
pub open spec fn records_of(html: Seq<char>) -> Seq<ResultView> {
    if selectors_accepted() {
        Seq::new(container_count(html), |i: int| record_at(html, i))
    } else {
        Seq::empty()
    }
}

/// The records of a list, as values.
pub open spec fn views_of(rs: Seq<SearchResult>) -> Seq<ResultView> {
    rs.map_values(|r: SearchResult| r@)
}

fn owned_or_empty(found: &Option<String>) -> (r: String)
    ensures
        r@ == text_or_empty(found.deep_view()),
{
    match found {
        Some(t) => t.clone(),
        None => String::new(),
    }
}

/// Extracts the result records of a results page.
///
/// Parsing is tolerant and never fails: markup without containers gives no
/// records. Each container gives exactly one record, even an empty one.
pub fn extract(html: &str) -> (r: Vec<SearchResult>)
    ensures
        views_of(r@) == records_of(html@),
        selectors_accepted() ==> r@.len() == container_count(html@),
        selectors_accepted() ==> forall|i: int|
            0 <= i < r@.len() ==> #[trigger] r@[i]@ == record_at(html@, i),
        forall|i: int|
            0 <= i < r@.len() && title_at(html@, i) is None ==> #[trigger] r@[i]@.title
                == Seq::<char>::empty(),
        forall|i: int|
            0 <= i < r@.len() && url_at(html@, i) is None ==> #[trigger] r@[i]@.url
                == Seq::<char>::empty(),
        forall|i: int|
            0 <= i < r@.len() && description_at(html@, i) is None
                ==> #[trigger] r@[i]@.description == Seq::<char>::empty(),
{
    if !(selector_is_valid(CONTAINER_SELECTOR) && selector_is_valid(HEADING_SELECTOR)
        && selector_is_valid(LINK_SELECTOR) && selector_is_valid(SNIPPET_SELECTOR)) {
        return Vec::new();
    }
    let titles = first_texts(html, CONTAINER_SELECTOR, HEADING_SELECTOR);
    let urls = first_attrs(html, CONTAINER_SELECTOR, LINK_SELECTOR, LINK_ATTRIBUTE);
    let descriptions = first_texts(html, CONTAINER_SELECTOR, SNIPPET_SELECTOR);
    let n: usize = titles.len();
    let mut out: Vec<SearchResult> = Vec::new();
    let mut i: usize = 0;
    while i < n
        invariant
            n == titles@.len(),
            n == urls@.len(),
            n == descriptions@.len(),
            n == container_count(html@),
            titles.deep_view() == first_texts_of(html@, CONTAINER_SELECTOR@, HEADING_SELECTOR@),
            urls.deep_view() == first_attrs_of(
                html@,
                CONTAINER_SELECTOR@,
                LINK_SELECTOR@,
                LINK_ATTRIBUTE@,
            ),
            descriptions.deep_view() == first_texts_of(
                html@,
                CONTAINER_SELECTOR@,
                SNIPPET_SELECTOR@,
            ),
            i <= n,
            out@.len() == i,
            forall|k: int| 0 <= k < i ==> #[trigger] out@[k]@ == record_at(html@, k),
        decreases n - i,
    {
        let title = owned_or_empty(&titles[i]);
        let url = owned_or_empty(&urls[i]);
        let description = owned_or_empty(&descriptions[i]);
        out.push(SearchResult::new(title, url, description));
        i = i + 1;
    }
    assert(views_of(out@) =~= records_of(html@));
    assert forall|k: int| 0 <= k < out@.len() implies #[trigger] out@[k]@ == records_of(html@)[k]
        by {
        assert(views_of(out@)[k] == out@[k]@);
    }
    out
}

} // verus!
