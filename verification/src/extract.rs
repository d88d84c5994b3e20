use vstd::prelude::*;

verus! {

/// Whether a selector string is valid CSS, as the selector engine decides it.
pub uninterp spec fn selector_ok(selector: Seq<char>) -> bool;

/// The concatenated text content of every node of the parsed document that
/// the selector matches, in document order.
pub uninterp spec fn selected_texts(html: Seq<char>, selector: Seq<char>) -> Seq<Seq<char>>;

/// The value of the named attribute, for every matching node that carries it,
/// in document order; a node without the attribute contributes nothing.
pub uninterp spec fn selected_attrs(html: Seq<char>, selector: Seq<char>, attr: Seq<char>) -> Seq<
    Seq<char>,
>;

/// Whether a body is well-formed JSON, as the decoder decides it.
pub uninterp spec fn json_ok(body: Seq<char>) -> bool;

/// The structured value the decoder yields for a well-formed JSON body: a
/// function of the body alone.
pub uninterp spec fn json_value_of(body: Seq<char>) -> serde_json::Value;

#[verifier::external_type_specification]
#[verifier::external_body]
pub struct ExValue(serde_json::Value);

/// Relies on scraper: `Selector::parse` decides whether the selector is valid
/// CSS; `Html::parse_document` and `Html::select` walk the matching nodes in
/// document order; each node's `text()` parts are concatenated. Both the
/// validity of a selector and the extracted texts depend on the two strings
/// alone.
#[verifier::external_body]
pub(crate) fn extract_texts(html: &str, selector: &str) -> (r: Option<Vec<String>>)
    ensures
        r is Some <==> selector_ok(selector@),
        r matches Some(texts) ==> texts.deep_view() == selected_texts(html@, selector@),
{
    let sel = match scraper::Selector::parse(selector) {
        Ok(s) => s,
        Err(_) => return None,
    };
    let doc = scraper::Html::parse_document(html);
    Some(doc.select(&sel).map(|el| el.text().collect::<Vec<_>>().join("")).collect())
}

/// Relies on scraper as `extract_texts` does, plus `ElementRef::attr`: the
/// named attribute's value for each matching node that has it, in document
/// order, nodes lacking it silently skipped.
#[verifier::external_body]
pub(crate) fn extract_attrs(html: &str, selector: &str, attr: &str) -> (r: Option<Vec<String>>)
    ensures
        r is Some <==> selector_ok(selector@),
        r matches Some(values) ==> values.deep_view() == selected_attrs(html@, selector@, attr@),
{
    let sel = match scraper::Selector::parse(selector) {
        Ok(s) => s,
        Err(_) => return None,
    };
    let doc = scraper::Html::parse_document(html);
    Some(doc.select(&sel).filter_map(|el| el.attr(attr).map(String::from)).collect())
}

/// Relies on serde_json::from_str::<Value>: it returns Ok exactly when the
/// body is well-formed JSON, the decoded value depends on the body alone, and
/// the Err side carries the decoder's message.
#[verifier::external_body]
pub(crate) fn parse_json_value(body: &str) -> (r: Result<serde_json::Value, String>)
    ensures
        r is Ok <==> json_ok(body@),
        r matches Ok(v) ==> v == json_value_of(body@),
{
    serde_json::from_str::<serde_json::Value>(body).map_err(|e| e.to_string())
}

} // verus!
