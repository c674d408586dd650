//! What the library asks of scraper's HTML parser and CSS selector engine.
//!
//! Each query parses the page text as a document (`Html::parse_document`, which
//! never fails) and works on the elements that a selector matches there, in the
//! order in which `Html::select` yields them.
use scraper::{Html, Selector};
use vstd::prelude::*;

verus! {

/// Whether scraper's `Selector::parse` accepts the given selector text.
pub uninterp spec fn selector_parses(selector: Seq<char>) -> bool;

/// How many elements of the document parsed from `html` the selector matches.
pub uninterp spec fn match_count(html: Seq<char>, selector: Seq<char>) -> nat;

/// For each element matched by `outer`, the concatenated text of its first
/// descendant matched by `inner`, or `None` where it has none.
pub uninterp spec fn first_texts_of(html: Seq<char>, outer: Seq<char>, inner: Seq<char>) -> Seq<
    Option<Seq<char>>,
>;

/// For each element matched by `outer`, the value of attribute `attr` on its
/// first descendant matched by `inner`, or `None` where there is no such
/// descendant or it lacks the attribute.
pub uninterp spec fn first_attrs_of(
    html: Seq<char>,
    outer: Seq<char>,
    inner: Seq<char>,
    attr: Seq<char>,
) -> Seq<Option<Seq<char>>>;

/// Relies on scraper's `Selector::parse`: only tells whether it returns `Ok`.
#[verifier::external_body]
pub(crate) fn selector_is_valid(selector: &str) -> (r: bool)
    ensures
        r == selector_parses(selector@),
{
    Selector::parse(selector).is_ok()
}

/// Relies on scraper's `Html::parse_document`, `Html::select`, `ElementRef::select`
/// and `ElementRef::text`: for each element that `outer` matches, the text nodes
/// under the first descendant that `inner` matches, joined without separator.
#[verifier::external_body]
pub(crate) fn first_texts(html: &str, outer: &str, inner: &str) -> (r: Vec<Option<String>>)
    requires
        selector_parses(outer@),
        selector_parses(inner@),
    ensures
        r.deep_view() == first_texts_of(html@, outer@, inner@),
        r@.len() == match_count(html@, outer@),
{
    let doc = Html::parse_document(html);
    let (outer, inner) = (Selector::parse(outer).unwrap(), Selector::parse(inner).unwrap());
    doc.select(&outer).map(|e| e.select(&inner).next().map(|d| d.text().collect())).collect()
}

/// Relies on scraper's `Html::parse_document`, `Html::select`, `ElementRef::select`
/// and `Element::attr`: for each element that `outer` matches, the value of `attr`
/// on the first descendant that `inner` matches.
#[verifier::external_body]
pub(crate) fn first_attrs(html: &str, outer: &str, inner: &str, attr: &str) -> (r: Vec<Option<String>>)
    requires
        selector_parses(outer@),
        selector_parses(inner@),
    ensures
        r.deep_view() == first_attrs_of(html@, outer@, inner@, attr@),
        r@.len() == match_count(html@, outer@),
{
    let doc = Html::parse_document(html);
    let (outer, inner) = (Selector::parse(outer).unwrap(), Selector::parse(inner).unwrap());
    doc.select(&outer).map(|e| e.select(&inner).next().and_then(|d| d.value().attr(attr))).map(
        |a| a.map(|s| s.to_string()),
    ).collect()
}

} // verus!
