//! The values the filter reads and produces, each with a mathematical view.
use vstd::prelude::*;

verus! {

/// The filter's configuration, validated before the filter is built and
/// never changed afterwards. The handle of the credential service is held
/// by the host integration, which performs the call.
#[derive(Debug, PartialEq, Eq)]
pub struct Config {
    /// Deployment label; informational only.
    pub ambiente: String,
    /// Name of a header that every request must carry.
    pub header: String,
    /// Name of a top-level field that every request body must hold.
    pub tag_body: String,
    /// Reserved toggle, read by no check.
    pub validar: Option<bool>,
}

/// What the pipeline reads from one inbound request.
#[derive(Debug, PartialEq, Eq)]
pub struct RequestParts {
    /// Whether the configured required header is present.
    pub required_header_present: bool,
    /// The value of the `senha` header, if present.
    pub senha: Option<String>,
    /// The raw request body.
    pub body: Vec<u8>,
}

pub ghost struct RequestView {
    pub required_header_present: bool,
    pub senha: Option<Seq<char>>,
    pub body: Seq<u8>,
}

impl View for RequestParts {
    type V = RequestView;

    open spec fn view(&self) -> RequestView {
        RequestView {
            required_header_present: self.required_header_present,
            senha: match self.senha {
                Some(s) => Some(s@),
                None => None,
            },
            body: self.body@,
        }
    }
}

/// A terminal rejection: the reason shown to the caller and the HTTP status.
#[derive(Debug, PartialEq, Eq)]
pub struct Rejection {
    pub message: String,
    pub status: u32,
}

/// The call to the credential service that a well-formed request leads to.
#[derive(Debug, PartialEq, Eq)]
pub struct DownstreamCall {
    /// Path and query of the call.
    pub path: String,
    /// JSON body of the call.
    pub body: String,
}

/// What the checks on a request decide before the credential service is asked.
#[derive(Debug, PartialEq, Eq)]
pub enum Decision {
    Reject(Rejection),
    Call(DownstreamCall),
}

/// What came back from the credential service.
#[derive(Debug, PartialEq, Eq)]
pub enum Reply {
    /// The call failed in transport (connection, timeout, error status).
    TransportFailure,
    /// The call completed with this response body.
    Received(Vec<u8>),
}

/// The credential service's verdict.
#[derive(Debug, PartialEq, Eq)]
pub enum AuthResult {
    Authorized,
    Unauthorized { reason: String },
    UpstreamError { reason: String, status: u32 },
}

/// The filter's decision on one request.
#[derive(Debug, PartialEq, Eq)]
pub enum Outcome {
    Continue,
    Reject(Rejection),
}

pub ghost enum DecisionView {
    Reject(Seq<char>, u32),
    Call(Seq<char>, Seq<char>),
}

pub ghost enum ReplyView {
    TransportFailure,
    Received(Seq<u8>),
}

pub ghost enum AuthView {
    Authorized,
    Unauthorized(Seq<char>),
    UpstreamError(Seq<char>, u32),
}

pub ghost enum OutcomeView {
    Continue,
    Reject(Seq<char>, u32),
}

impl View for Decision {
    type V = DecisionView;

    open spec fn view(&self) -> DecisionView {
        match self {
            Decision::Reject(r) => DecisionView::Reject(r.message@, r.status),
            Decision::Call(c) => DecisionView::Call(c.path@, c.body@),
        }
    }
}

impl View for Reply {
    type V = ReplyView;

    open spec fn view(&self) -> ReplyView {
        match self {
            Reply::TransportFailure => ReplyView::TransportFailure,
            Reply::Received(b) => ReplyView::Received(b@),
        }
    }
}

impl View for AuthResult {
    type V = AuthView;

    open spec fn view(&self) -> AuthView {
        match self {
            AuthResult::Authorized => AuthView::Authorized,
            AuthResult::Unauthorized { reason } => AuthView::Unauthorized(reason@),
            AuthResult::UpstreamError { reason, status } => AuthView::UpstreamError(reason@, *status),
        }
    }
}

impl View for Outcome {
    type V = OutcomeView;

    open spec fn view(&self) -> OutcomeView {
        match self {
            Outcome::Continue => OutcomeView::Continue,
            Outcome::Reject(r) => OutcomeView::Reject(r.message@, r.status),
        }
    }
}

} // verus!
