//! A request-validation gateway filter: header and body checks, delegation
//! of the final authorization to a credential service, and the shaping of
//! error and success responses.

pub mod json;
pub mod types;
pub mod pipeline;
pub mod respond;
pub mod laws;

pub use pipeline::{check_body, check_headers, classify_reply, evaluate, finish, outcome_of};
pub use respond::{decorate_response, error_message, ErrorResponse};
pub use types::{AuthResult, Config, Decision, DownstreamCall, Outcome, Rejection, Reply, RequestParts};
