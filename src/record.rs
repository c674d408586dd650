use vstd::prelude::*;

verus! {

/// One result of a results page: its heading text, its link and its snippet.
///
/// A field that the page does not supply is the empty string, never absent.
#[derive(Clone, Debug)]
pub struct SearchResult {
    pub title: String,
    pub url: String,
    pub description: String,
}

/// The mathematical value of a [`SearchResult`]: its three fields as text.
pub struct ResultView {
    pub title: Seq<char>,
    pub url: Seq<char>,
    pub description: Seq<char>,
}

impl View for SearchResult {
    type V = ResultView;

    open spec fn view(&self) -> ResultView {
        ResultView { title: self.title@, url: self.url@, description: self.description@ }
    }
}

impl SearchResult {
    /// Builds a record from its three fields.
    pub fn new(title: String, url: String, description: String) -> (r: SearchResult)
        ensures
            r.title@ == title@,
            r.url@ == url@,
            r.description@ == description@,
    {
        SearchResult { title, url, description }
    }
}

} // verus!
