use vstd::prelude::*;

use crate::error::ScrapeError;
use crate::extract;

verus! {

/// The client's whole configuration: a per-request timeout, a retry budget
/// (the first attempt included, so at least one), and an optional bound on
/// how many requests may be in flight at once. Immutable after construction
/// and shared read-only by every fetch issued through it; the live transport
/// handle and semaphore that act on this policy belong to the host.
pub struct FastScraper {
    timeout_ms: u64,
    max_retries: u32,
    max_concurrent_requests: Option<usize>,
}

impl FastScraper {
    /// The transport timeout, in milliseconds.
    pub closed spec fn spec_timeout_ms(&self) -> u64 {
        self.timeout_ms
    }

    /// How many attempts one logical fetch may make, the first included.
    pub closed spec fn spec_max_retries(&self) -> u32 {
        self.max_retries
    }

    /// The limiter capacity, when a limiter is configured at all.
    pub closed spec fn spec_max_concurrent(&self) -> Option<usize> {
        self.max_concurrent_requests
    }

    /// Every client has at least its one first attempt in the budget.
    pub open spec fn wf(&self) -> bool {
        self.spec_max_retries() >= 1
    }

    /// A client configured once by the host. `max_retries` counts the first
    /// attempt, so it is at least one.
    pub fn new(timeout_ms: u64, max_retries: u32, max_concurrent_requests: Option<usize>) -> (s:
        FastScraper)
        requires
            max_retries >= 1,
        ensures
            s.spec_timeout_ms() == timeout_ms,
            s.spec_max_retries() == max_retries,
            s.spec_max_concurrent() == max_concurrent_requests,
            s.wf(),
    {
        FastScraper { timeout_ms, max_retries, max_concurrent_requests }
    }

    pub fn timeout_ms(&self) -> (t: u64)
        ensures
            t == self.spec_timeout_ms(),
    {
        self.timeout_ms
    }

    pub fn max_retries(&self) -> (m: u32)
        ensures
            m == self.spec_max_retries(),
    {
        self.max_retries
    }

    pub fn max_concurrent_requests(&self) -> (m: Option<usize>)
        ensures
            m == self.spec_max_concurrent(),
    {
        self.max_concurrent_requests
    }

    /// The text content of every node of `html` that the CSS selector
    /// matches, in document order; an invalid selector is reported as a
    /// `SelectorSyntax` error naming it, never as a panic. Local and
    /// synchronous: no network is touched.
    pub fn select(&self, html: &str, selector: &str) -> (r: Result<Vec<String>, ScrapeError>)
        ensures
            r is Ok <==> extract::selector_ok(selector@),
            r matches Ok(texts) ==> texts.deep_view() == extract::selected_texts(
                html@,
                selector@,
            ),
            r matches Err(e) ==> (e matches ScrapeError::SelectorSyntax { selector: s } && s@
                == selector@),
    {
        match extract::extract_texts(html, selector) {
            Some(texts) => Ok(texts),
            None => Err(ScrapeError::SelectorSyntax { selector: selector.to_string() }),
        }
    }

    /// The value of `attr` for every matching node that carries it, in
    /// document order; a matching node without the attribute is skipped, not
    /// an error. An invalid selector is a `SelectorSyntax` error.
    pub fn select_attr(&self, html: &str, selector: &str, attr: &str) -> (r: Result<
        Vec<String>,
        ScrapeError,
    >)
        ensures
            r is Ok <==> extract::selector_ok(selector@),
            r matches Ok(values) ==> values.deep_view() == extract::selected_attrs(
                html@,
                selector@,
                attr@,
            ),
            r matches Err(e) ==> (e matches ScrapeError::SelectorSyntax { selector: s } && s@
                == selector@),
    {
        match extract::extract_attrs(html, selector, attr) {
            Some(values) => Ok(values),
            None => Err(ScrapeError::SelectorSyntax { selector: selector.to_string() }),
        }
    }

    /// Decodes a fetched body as JSON: the structured value exactly when the
    /// body is well-formed JSON, else a `JsonDecode` error, distinct from
    /// every transport or HTTP failure. The retrieval itself is the host's
    /// single-attempt fetch, gated by the limiter but not by the retry
    /// policy; this is its decoding half.
    pub fn decode_json(&self, body: &str) -> (r: Result<serde_json::Value, ScrapeError>)
        ensures
            r is Ok <==> extract::json_ok(body@),
            r matches Ok(v) ==> v == extract::json_value_of(body@),
            r matches Err(e) ==> e is JsonDecode,
    {
        match extract::parse_json_value(body) {
            Ok(value) => Ok(value),
            Err(message) => Err(ScrapeError::JsonDecode { message }),
        }
    }
}

impl Default for FastScraper {
    /// The configuration the host gets when it names nothing: a 5000 ms
    /// timeout, a budget of three attempts, and no concurrency bound.
    fn default() -> (s: Self)
        ensures
            s.spec_timeout_ms() == 5000,
            s.spec_max_retries() == 3,
            s.spec_max_concurrent() is None,
            s.wf(),
    {
        FastScraper { timeout_ms: 5000, max_retries: 3, max_concurrent_requests: None }
    }
}

} // verus!
