use fast_scraper::client::FastScraper;
use fast_scraper::error::ScrapeError;

fn scraper() -> FastScraper {
    FastScraper::new(5000, 3, None)
}

#[test]
fn configuration_is_kept_as_given() {
    let s = FastScraper::new(2500, 4, Some(8));
    assert_eq!(s.timeout_ms(), 2500);
    assert_eq!(s.max_retries(), 4);
    assert_eq!(s.max_concurrent_requests(), Some(8));
    let unbounded = FastScraper::new(5000, 1, None);
    assert_eq!(unbounded.max_concurrent_requests(), None);
}

#[test]
fn default_configuration_matches_the_documented_one() {
    let s = FastScraper::default();
    assert_eq!(s.timeout_ms(), 5000);
    assert_eq!(s.max_retries(), 3);
    assert_eq!(s.max_concurrent_requests(), None);
}

#[test]
fn select_returns_texts_in_document_order() {
    let texts = scraper().select("<ul><li>a</li><li>b</li></ul>", "li").unwrap();
    assert_eq!(texts, vec!["a".to_string(), "b".to_string()]);
}

#[test]
fn select_concatenates_nested_text() {
    let texts = scraper()
        .select("<div><p>one <b>two</b></p><p>three</p></div>", "p")
        .unwrap();
    assert_eq!(texts, vec!["one two".to_string(), "three".to_string()]);
}

#[test]
fn select_with_no_match_returns_empty() {
    let texts = scraper().select("<ul><li>a</li></ul>", "table").unwrap();
    assert!(texts.is_empty());
}

#[test]
fn select_rejects_invalid_selector() {
    let err = scraper().select("<ul><li>a</li></ul>", "li[").unwrap_err();
    assert_eq!(
        err,
        ScrapeError::SelectorSyntax {
            selector: "li[".to_string(),
        }
    );
}

#[test]
fn select_attr_skips_nodes_without_the_attribute() {
    let values = scraper()
        .select_attr("<a href='x'>1</a><a>2</a>", "a", "href")
        .unwrap();
    assert_eq!(values, vec!["x".to_string()]);
}

#[test]
fn select_attr_keeps_document_order() {
    let values = scraper()
        .select_attr("<a href='x'>1</a><a href='y'>2</a>", "a", "href")
        .unwrap();
    assert_eq!(values, vec!["x".to_string(), "y".to_string()]);
}

#[test]
fn select_attr_rejects_invalid_selector() {
    let err = scraper().select_attr("<a href='x'>1</a>", "a[", "href").unwrap_err();
    assert_eq!(
        err,
        ScrapeError::SelectorSyntax {
            selector: "a[".to_string(),
        }
    );
}

#[test]
fn decode_json_returns_the_decoded_mapping() {
    let value = scraper().decode_json("{\"k\": 1}").unwrap();
    let expected: serde_json::Value = serde_json::from_str("{\"k\": 1}").unwrap();
    assert_eq!(value, expected);
    assert_eq!(value["k"], serde_json::Value::from(1));
}

#[test]
fn decode_json_rejects_a_non_json_body() {
    let err = scraper().decode_json("not json").unwrap_err();
    assert!(matches!(err, ScrapeError::JsonDecode { .. }));
}
