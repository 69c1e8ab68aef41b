use vstd::prelude::*;

verus! {

/// An input source: answers prompts with lines of text. The production
/// implementation reads the terminal; tests supply canned answers. Nothing
/// is promised of the answers, so every caller must handle every outcome.
pub trait GetInput {
    /// Displays `question` and returns one line of input, or nothing when
    /// reading fails.
    fn query_input(&self, question: &str) -> Option<String>;

    /// Like `query_input`, but the typed characters must not be echoed.
    /// Where masked input is unsupported, nothing is returned.
    fn query_secret(&self, question: &str) -> Option<String> {
        None
    }
}

/// A query client: performs one HTTP GET against a URL, with a bearer token
/// when `token` is non-empty, and returns the response body as text, or
/// nothing when the request fails. Nothing is promised of the body.
pub trait QueryClient {
    fn fetch_text(&self, url: &str, token: &str) -> Option<String>;
}

} // verus!
