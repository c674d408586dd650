use serp_scraper::{respond, search_url, FetchError, Reply};

fn headers(r: &Reply) -> Vec<(&str, &str)> {
    r.headers.iter().map(|h| (h.name, h.value)).collect()
}

#[test]
fn transport_failure_answers_500() {
    let r = respond(Err(FetchError::Transport));
    assert_eq!(r.status, 500);
    assert!(r.results.is_empty());
    assert!(r.headers.is_empty());
}

#[test]
fn decode_failure_answers_500() {
    let r = respond(Err(FetchError::Decode));
    assert_eq!(r.status, 500);
    assert!(r.results.is_empty());
    assert!(r.headers.is_empty());
}

#[test]
fn three_containers_answer_three_records() {
    let html = "<div class=\"g\"><h3>A</h3><a href=\"/a\">a</a><span class=\"VwiC3b\">about a</span></div>\
     <div class=\"g\"><h3>B</h3></div>\
     <div class=\"g\"></div>";
    let r = respond(Ok(html.to_string()));
    assert_eq!(r.status, 200);
    assert_eq!(r.results.len(), 3);
    assert_eq!(r.results[0].title, "A");
    assert_eq!(r.results[0].url, "/a");
    assert_eq!(r.results[0].description, "about a");
    assert_eq!(r.results[1].title, "B");
    assert_eq!(r.results[2].title, "");
}

#[test]
fn success_opens_results_to_any_origin() {
    let r = respond(Ok(String::new()));
    assert_eq!(r.status, 200);
    assert!(r.results.is_empty());
    assert_eq!(
        headers(&r),
        vec![
            ("Access-Control-Allow-Origin", "*"),
            ("Access-Control-Allow-Headers", "*"),
            ("Access-Control-Allow-Methods", "*"),
            ("Access-Control-Max-Age", "1728000"),
        ]
    );
}

#[test]
fn cats_path_end_to_end() {
    let url = search_url("en", "0", "cats");
    assert_eq!(url, "https://www.google.com/search?q=cats&start=0&hl=en&lr=lang_en&num=20");
    let fixture = "<html><body>\
     <div class=\"g\"><a href=\"https://en.wikipedia.org/wiki/Cat\"><h3>Cat - Wikipedia</h3></a>\
     <div class=\"VwiC3b\">The cat is a domestic species...</div></div>\
     <div class=\"g\"><h3>Cat facts</h3></div>\
     </body></html>";
    let r = respond(Ok(fixture.to_string()));
    assert_eq!(r.status, 200);
    let got: Vec<(&str, &str, &str)> = r
        .results
        .iter()
        .map(|x| (x.title.as_str(), x.url.as_str(), x.description.as_str()))
        .collect();
    assert_eq!(
        got,
        vec![
            (
                "Cat - Wikipedia",
                "https://en.wikipedia.org/wiki/Cat",
                "The cat is a domestic species..."
            ),
            ("Cat facts", "", ""),
        ]
    );
}
