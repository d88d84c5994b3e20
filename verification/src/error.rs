use vstd::prelude::*;

verus! {

/// The last thing the retry loop observed before its attempt budget ran out.
#[derive(Debug, Clone, PartialEq, Eq)]
pub enum LastReason {
    /// The final attempt drew an HTTP response with this status.
    Status { status: u16 },
    /// The final attempt failed below HTTP (connection, timeout, encoding).
    Transport { message: String },
}

/// Every failure the client reports to its host. None is fatal to the
/// process: the client stays usable after any of them.
#[derive(Debug, Clone, PartialEq, Eq)]
pub enum ScrapeError {
    /// A failure below HTTP: connection refused, timeout, bad encoding.
    Transport { message: String },
    /// A non-success HTTP status that the policy does not retry.
    HttpStatus { status: u16 },
    /// Retryable failures used up the whole attempt budget.
    RetriesExhausted { attempts: u32, reason: LastReason },
    /// The selector string is not valid CSS.
    SelectorSyntax { selector: String },
    /// The body is not well-formed JSON.
    JsonDecode { message: String },
}

/// A decode failure is its own kind of failure: a `JsonDecode` error is never
/// a transport, HTTP-status, retries-exhausted or selector error, so a caller
/// that decodes a fetched body can always tell a malformed body from a failed
/// retrieval.
pub proof fn lemma_json_decode_error_is_distinct(e: ScrapeError)
    requires
        e is JsonDecode,
    ensures
        e !is Transport,
        e !is HttpStatus,
        e !is RetriesExhausted,
        e !is SelectorSyntax,
{
}

} // verus!
