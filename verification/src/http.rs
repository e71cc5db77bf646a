//! Requests to the host's control endpoint, and what sending one gave.

use vstd::prelude::*;
use crate::text::message;

verus! {

/// Seconds that the liveness probe waits for an answer.
pub const PROBE_TIMEOUT_SECS: u64 = 2;

/// A GET request. `timeout_secs` bounds the whole exchange; `None` leaves it
/// unbounded.
pub struct HttpRequest {
    pub url: String,
    pub timeout_secs: Option<u64>,
}

pub struct HttpRequestView {
    pub url: Seq<char>,
    pub timeout_secs: Option<u64>,
}

impl View for HttpRequest {
    type V = HttpRequestView;

    open spec fn view(&self) -> HttpRequestView {
        HttpRequestView { url: self.url@, timeout_secs: self.timeout_secs }
    }
}

/// What sending a request gave.
pub enum HttpOutcome {
    /// No response arrived: the connection was refused or timed out.
    /// `cause` is the client's message.
    Unreachable { cause: String },
    /// A response arrived with this status code. `body` holds its bytes, or
    /// the client's message where reading them failed.
    Answered { status: u16, body: Result<Vec<u8>, String> },
}

pub enum HttpOutcomeView {
    Unreachable { cause: Seq<char> },
    Answered { status: u16, body: Result<Seq<u8>, Seq<char>> },
}

impl View for HttpOutcome {
    type V = HttpOutcomeView;

    open spec fn view(&self) -> HttpOutcomeView {
        match self {
            HttpOutcome::Unreachable { cause } => HttpOutcomeView::Unreachable { cause: cause@ },
            HttpOutcome::Answered { status, body } => HttpOutcomeView::Answered {
                status: *status,
                body: match body {
                    Ok(bytes) => Ok(bytes@),
                    Err(cause) => Err(cause@),
                },
            },
        }
    }
}

impl HttpOutcomeView {
    /// A response arrived whose status code is in 200..=299.
    pub open spec fn succeeded(self) -> bool {
        self matches HttpOutcomeView::Answered { status, .. } && 200 <= status < 300
    }
}

/// Where the host's control API listens.
pub struct Endpoint {
    /// Scheme, host and port, with no trailing slash.
    pub base_url: String,
}

impl View for Endpoint {
    type V = Seq<char>;

    open spec fn view(&self) -> Seq<char> {
        self.base_url@
    }
}

/// The address of the tag listing under `base_url`.
pub open spec fn tags_url(base_url: Seq<char>) -> Seq<char> {
    base_url + "/api/tags"@
}

/// The request that probes whether the server answers.
pub open spec fn probe_request(base_url: Seq<char>) -> HttpRequestView {
    HttpRequestView { url: tags_url(base_url), timeout_secs: Some(PROBE_TIMEOUT_SECS) }
}

/// The request that asks for the installed models.
pub open spec fn inventory_request(base_url: Seq<char>) -> HttpRequestView {
    HttpRequestView { url: tags_url(base_url), timeout_secs: None }
}

impl Endpoint {
    /// The endpoint of a host on this machine at its usual port.
    pub fn local() -> (r: Endpoint)
        ensures
            r@ == "http://localhost:11434"@,
    {
        Endpoint { base_url: String::from_str("http://localhost:11434") }
    }

    /// The liveness probe: the tag listing, given up after
    /// `PROBE_TIMEOUT_SECS` seconds.
    pub fn probe_request(&self) -> (r: HttpRequest)
        ensures
            r@ == probe_request(self@),
    {
        HttpRequest {
            url: message(self.base_url.as_str(), "/api/tags"),
            timeout_secs: Some(PROBE_TIMEOUT_SECS),
        }
    }

    /// The inventory query: the tag listing, with no timeout.
    pub fn inventory_request(&self) -> (r: HttpRequest)
        ensures
            r@ == inventory_request(self@),
    {
        HttpRequest { url: message(self.base_url.as_str(), "/api/tags"), timeout_secs: None }
    }
}

} // verus!
