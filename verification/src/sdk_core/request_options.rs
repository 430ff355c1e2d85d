//! Per-request options.

use vstd::prelude::*;

verus! {

/// Options of one request: another base URL, a timeout, an idempotency key,
/// extra headers and query parameters.
#[derive(Clone, Debug)]
pub struct RequestOptions {
    pub base_url: Option<String>,
    pub timeout: Option<std::time::Duration>,
    pub idempotency_key: Option<String>,
    pub headers: Vec<(String, String)>,
    pub query: Vec<(String, String)>,
}

impl RequestOptions {
    /// Options that change nothing.
    pub fn new() -> (o: Self)
        ensures
            o.base_url is None,
            o.timeout is None,
            o.idempotency_key is None,
            o.headers@.len() == 0,
            o.query@.len() == 0,
    {
        RequestOptions {
            base_url: None,
            timeout: None,
            idempotency_key: None,
            headers: Vec::new(),
            query: Vec::new(),
        }
    }
}

impl Default for RequestOptions {
    fn default() -> (o: Self)
        ensures
            o.base_url is None,
            o.timeout is None,
            o.idempotency_key is None,
            o.headers@.len() == 0,
            o.query@.len() == 0,
    {
        Self::new()
    }
}

} // verus!
