//! Plain data captured at the two observation points of a request.

use vstd::prelude::*;

verus! {

/// Options controlling whether full request/response logs are emitted
/// in addition to the aggregated usage messages. Every unset option
/// means "disabled".
#[derive(Clone)]
pub struct RequestLogConfig {
    pub enabled: bool,
    pub log_query_params: Option<bool>,
    pub log_request_headers: Option<bool>,
    pub log_request_body: Option<bool>,
    pub log_response_headers: Option<bool>,
    pub log_response_body: Option<bool>,
}

impl Default for RequestLogConfig {
    /// Logging is disabled until a configuration is supplied.
    fn default() -> (c: Self)
        ensures
            !c.enabled,
            c.log_query_params is None,
            c.log_request_headers is None,
            c.log_request_body is None,
            c.log_response_headers is None,
            c.log_response_body is None,
    {
        RequestLogConfig {
            enabled: false,
            log_query_params: None,
            log_request_headers: None,
            log_request_body: None,
            log_response_headers: None,
            log_response_body: None,
        }
    }
}

/// Metadata captured when a request is first observed, before the
/// wrapped handler runs.
#[derive(Clone)]
pub struct RequestMeta {
    pub content_length: usize,
    pub matched_path: String,
    pub method: String,
    pub url: String,
}

/// Metadata captured once the wrapped handler has produced a response.
/// The status code is carried as its numeric value.
#[derive(Clone)]
pub struct ResponseMeta {
    pub size: usize,
    pub status: u16,
}

} // verus!
