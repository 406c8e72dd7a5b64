use reqwest_app::DataExtractor;
use reqwest_app::HtmlDocument;
use reqwest_app::ScraperError;
use reqwest_app::filter_nonempty_first;

#[test]
fn container_absent_yields_empty() {
    let doc = HtmlDocument::new("<div><p>hello</p></div>");
    let extractor = DataExtractor::new(&doc);
    let elements = extractor.extract_elements("main", "a").unwrap();
    assert_eq!(elements.len(), 0);
}

#[test]
fn invalid_selector_carries_exact_text() {
    let doc = HtmlDocument::new("<p></p>");
    match doc.parse_selector("td[") {
        Err(ScraperError::InvalidSelector(t)) => assert_eq!(t, "td["),
        _ => panic!("expected InvalidSelector"),
    }
}

#[test]
fn valid_selector_compiles() {
    let doc = HtmlDocument::new("<p></p>");
    assert!(doc.parse_selector("table.hasBorder tr.even, table.hasBorder tr.odd").is_ok());
    assert!(doc.parse_selector("div#bodywrap").is_ok());
}

#[test]
fn invalid_container_selector_reported_first() {
    let doc = HtmlDocument::new("<p></p>");
    let extractor = DataExtractor::new(&doc);
    match extractor.extract_elements("td[", "a[") {
        Err(ScraperError::InvalidSelector(t)) => assert_eq!(t, "td["),
        _ => panic!("expected InvalidSelector for the container selector"),
    }
}

#[test]
fn invalid_element_selector_reported() {
    let doc = HtmlDocument::new("<p></p>");
    let extractor = DataExtractor::new(&doc);
    match extractor.extract_elements("main", "a[") {
        Err(ScraperError::InvalidSelector(t)) => assert_eq!(t, "a["),
        _ => panic!("expected InvalidSelector for the element selector"),
    }
}

#[test]
fn only_first_container_is_scoped() {
    let doc = HtmlDocument::new(
        "<div class=\"c\"><a href=\"1\">x</a></div><div class=\"c\"><a href=\"2\">y</a></div>",
    );
    let extractor = DataExtractor::new(&doc);
    let elements = extractor.extract_elements("div.c", "a").unwrap();
    assert_eq!(elements.len(), 1);
    assert_eq!(elements[0].attr("href"), Some("1"));
}

#[test]
fn elements_come_in_document_order() {
    let doc = HtmlDocument::new(
        "<main><a href=\"1\">x</a><span><a href=\"2\">y</a></span><a href=\"3\">z</a></main>",
    );
    let extractor = DataExtractor::new(&doc);
    let elements = extractor.extract_elements("main", "a").unwrap();
    let hrefs: Vec<_> = elements.iter().map(|e| e.attr("href").unwrap()).collect();
    assert_eq!(hrefs, vec!["1", "2", "3"]);
}

#[test]
fn missing_attribute_reads_empty() {
    let doc = HtmlDocument::new("<main><a href=\"/x\">t</a></main>");
    let extractor = DataExtractor::new(&doc);
    let pairs = extractor.extract_attribute_pairs("main", "a", "href", "title").unwrap();
    assert_eq!(pairs, vec![("/x".to_string(), "".to_string())]);
}

#[test]
fn empty_first_attribute_is_dropped() {
    let doc = HtmlDocument::new(
        "<main><a href=\"/x\" title=\"X\">..</a><a title=\"Y\">..</a></main>",
    );
    let extractor = DataExtractor::new(&doc);
    let pairs = extractor.extract_attribute_pairs("main", "a", "href", "title").unwrap();
    assert_eq!(pairs, vec![("/x".to_string(), "X".to_string())]);
}

#[test]
fn attribute_pair_errors_propagate() {
    let doc = HtmlDocument::new("<p></p>");
    let extractor = DataExtractor::new(&doc);
    match extractor.extract_attribute_pairs("##bad", "a", "href", "title") {
        Err(ScraperError::InvalidSelector(t)) => assert_eq!(t, "##bad"),
        _ => panic!("expected InvalidSelector"),
    }
}

#[test]
fn filter_keeps_nonempty_first_in_order() {
    let pairs = vec![
        ("a".to_string(), "1".to_string()),
        ("".to_string(), "2".to_string()),
        ("b".to_string(), "".to_string()),
        ("".to_string(), "".to_string()),
        ("c".to_string(), "4".to_string()),
    ];
    let kept = filter_nonempty_first(&pairs);
    assert_eq!(
        kept,
        vec![
            ("a".to_string(), "1".to_string()),
            ("b".to_string(), "".to_string()),
            ("c".to_string(), "4".to_string()),
        ]
    );
}

#[test]
fn error_message_names_the_kind() {
    assert_eq!(
        ScraperError::InvalidSelector("td[".to_string()).message(),
        "Invalid selector: td["
    );
    assert_eq!(
        ScraperError::RequestError("timed out".to_string()).message(),
        "HTTP request error: timed out"
    );
    assert_eq!(ScraperError::Other("oops".to_string()).message(), "Other error: oops");
}
