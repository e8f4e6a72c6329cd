//! The validation pipeline: ordered, fail-fast checks on headers and body,
//! the request derived for the credential service, and the reading of its
//! reply.
use vstd::prelude::*;
use vstd::string::StringExecFns;
use crate::json::{json_document, json_member, json_quoted, json_text, lossy_text, member, parse_document, quote, lossy, text};
use crate::types::{AuthResult, AuthView, Config, Decision, DecisionView, DownstreamCall, Outcome, OutcomeView, Rejection, Reply, ReplyView, RequestParts, RequestView};

verus! {

/// Status of every rejection of the caller's own input.
pub const FORBIDDEN: u32 = 403;

/// Status of a credential that the service refused.
pub const UNAUTHORIZED: u32 = 401;

/// Status of every failure of the credential service.
pub const UPSTREAM_FAILURE: u32 = 500;

/// Path and query of the call to the credential service.
pub open spec fn credential_path(senha: Seq<char>) -> Seq<char> {
    "/api/valida_senha?senha="@ + senha
}

/// The body of the call to the credential service: an object whose one key
/// `cliente` holds the client's name, as `serde_json` writes it.
pub open spec fn cliente_body(cliente: Seq<char>) -> Seq<char> {
    "{\"cliente\":"@ + json_quoted(cliente) + "}"@
}

pub open spec fn required_header_message(name: Seq<char>) -> Seq<char> {
    name + " obrigatorio"@
}

pub open spec fn required_field_message(field: Seq<char>) -> Seq<char> {
    "Body - Campo "@ + field + " obrigatorio"@
}

/// The header stage: the configured header, then `senha`. On success, the
/// path of the call to the credential service.
pub open spec fn header_stage(header: Seq<char>, present: bool, senha: Option<Seq<char>>) -> Result<
    Seq<char>,
    (Seq<char>, u32),
> {
    if !present {
        Err((required_header_message(header), FORBIDDEN))
    } else {
        match senha {
            None => Err(("Header senha obrigatorio"@, FORBIDDEN)),
            Some(s) => Ok(credential_path(s)),
        }
    }
}

/// The body stage: present, JSON, holding the configured field and a string
/// `cliente`. On success, the body of the call to the credential service.
pub open spec fn body_stage(field: Seq<char>, body: Seq<u8>) -> Result<Seq<char>, (Seq<char>, u32)> {
    if body.len() == 0 {
        Err(("Body obrigatorio"@, FORBIDDEN))
    } else {
        match json_document(body) {
            None => Err(("Body - Invalid Json format"@, FORBIDDEN)),
            Some(doc) => if json_member(doc, field) is None {
                Err((required_field_message(field), FORBIDDEN))
            } else {
                match cliente_of(doc) {
                    None => Err(("Campo cliente Obrigatorio no Body"@, FORBIDDEN)),
                    Some(c) => Ok(cliente_body(c)),
                }
            },
        }
    }
}

/// The text of a document's `cliente` member, where that member is a string.
pub open spec fn cliente_of(doc: serde_json::Value) -> Option<Seq<char>> {
    match json_member(doc, "cliente"@) {
        Some(v) => json_text(v),
        None => None,
    }
}

/// The text of a document's `token` member, where that member is a string.
pub open spec fn token_of(doc: serde_json::Value) -> Option<Seq<char>> {
    match json_member(doc, "token"@) {
        Some(v) => json_text(v),
        None => None,
    }
}

/// What the checks decide on a request: the first failing check rejects it,
/// else the credential service is called.
pub open spec fn decision(c: Config, r: RequestView) -> DecisionView {
    match header_stage(c.header@, r.required_header_present, r.senha) {
        Err((m, s)) => DecisionView::Reject(m, s),
        Ok(path) => match body_stage(c.tag_body@, r.body) {
            Err((m, s)) => DecisionView::Reject(m, s),
            Ok(body) => DecisionView::Call(path, body),
        },
    }
}

/// How a reply of the credential service is read.
pub open spec fn classification(reply: ReplyView) -> AuthView {
    match reply {
        ReplyView::TransportFailure => AuthView::UpstreamError(
            "Erro na validação - verifique os dados enviados"@,
            UPSTREAM_FAILURE,
        ),
        ReplyView::Received(b) => if b.len() == 0 {
            AuthView::UpstreamError(
                "Resposta da Validação vazia - Tente novamente mais tarde"@,
                UPSTREAM_FAILURE,
            )
        } else {
            match json_document(b) {
                None => AuthView::UpstreamError(
                    "Erro ao analisar o Resposta da Validação"@,
                    UPSTREAM_FAILURE,
                ),
                Some(doc) => match token_of(doc) {
                    None => AuthView::UpstreamError(lossy_text(b), UPSTREAM_FAILURE),
                    Some(t) => if t.len() > 0 {
                        AuthView::Authorized
                    } else {
                        AuthView::Unauthorized("Senha Invalida"@)
                    },
                },
            }
        },
    }
}

/// The filter's outcome for a verdict of the credential service.
pub open spec fn outcome_of_auth(a: AuthView) -> OutcomeView {
    match a {
        AuthView::Authorized => OutcomeView::Continue,
        AuthView::Unauthorized(reason) => OutcomeView::Reject(reason, UNAUTHORIZED),
        AuthView::UpstreamError(reason, status) => OutcomeView::Reject(reason, status),
    }
}

/// The whole pipeline on one request, given what the credential service
/// replies if it is called.
pub open spec fn pipeline(c: Config, r: RequestView, reply: ReplyView) -> OutcomeView {
    match decision(c, r) {
        DecisionView::Reject(m, s) => OutcomeView::Reject(m, s),
        DecisionView::Call(_, _) => outcome_of_auth(classification(reply)),
    }
}

pub open spec fn stage_view(r: Result<String, Rejection>) -> Result<Seq<char>, (Seq<char>, u32)> {
    match r {
        Ok(s) => Ok(s@),
        Err(e) => Err((e.message@, e.status)),
    }
}

pub open spec fn opt_text(s: Option<&str>) -> Option<Seq<char>> {
    match s {
        Some(t) => Some(t@),
        None => None,
    }
}

fn rejection(message: &str, status: u32) -> (r: Rejection)
    ensures
        r.message@ == message@,
        r.status == status,
{
    Rejection { message: message.to_owned(), status }
}

/// The header stage. `required_header_present` tells whether the request
/// carries the header that `config.header` names; `senha` is the value of
/// its `senha` header.
pub fn check_headers(config: &Config, required_header_present: bool, senha: Option<&str>) -> (r: Result<String, Rejection>)
    ensures
        stage_view(r) == header_stage(config.header@, required_header_present, opt_text(senha)),
{
    if !required_header_present {
        let message = config.header.clone().concat(" obrigatorio");
        return Err(Rejection { message, status: FORBIDDEN });
    }
    match senha {
        Some(s) => Ok("/api/valida_senha?senha=".to_owned().concat(s)),
        None => Err(rejection("Header senha obrigatorio", FORBIDDEN)),
    }
}

/// The body stage, on the raw request body.
pub fn check_body(config: &Config, body: &[u8]) -> (r: Result<String, Rejection>)
    ensures
        stage_view(r) == body_stage(config.tag_body@, body@),
{
    if body.len() == 0 {
        return Err(rejection("Body obrigatorio", FORBIDDEN));
    }
    let doc = match parse_document(body) {
        Some(d) => d,
        None => return Err(rejection("Body - Invalid Json format", FORBIDDEN)),
    };
    if member(&doc, config.tag_body.as_str()).is_none() {
        let message = "Body - Campo ".to_owned().concat(config.tag_body.as_str()).concat(" obrigatorio");
        return Err(Rejection { message, status: FORBIDDEN });
    }
    let cliente = match member(&doc, "cliente") {
        Some(v) => text(v),
        None => None,
    };
    match cliente {
        Some(c) => {
            let quoted = quote(c);
            Ok("{\"cliente\":".to_owned().concat(quoted.as_str()).concat("}"))
        },
        None => Err(rejection("Campo cliente Obrigatorio no Body", FORBIDDEN)),
    }
}

/// Runs the checks on a request, in order, and stops at the first that fails.
pub fn evaluate(config: &Config, request: &RequestParts) -> (r: Decision)
    ensures
        r@ == decision(*config, request@),
{
    let senha = match &request.senha {
        Some(s) => Some(s.as_str()),
        None => None,
    };
    let path = match check_headers(config, request.required_header_present, senha) {
        Ok(p) => p,
        Err(e) => return Decision::Reject(e),
    };
    match check_body(config, request.body.as_slice()) {
        Ok(body) => Decision::Call(DownstreamCall { path, body }),
        Err(e) => Decision::Reject(e),
    }
}

/// Reads the credential service's reply into a verdict.
pub fn classify_reply(reply: &Reply) -> (r: AuthResult)
    ensures
        r@ == classification(reply@),
{
    match reply {
        Reply::TransportFailure => AuthResult::UpstreamError {
            reason: "Erro na validação - verifique os dados enviados".to_owned(),
            status: UPSTREAM_FAILURE,
        },
        Reply::Received(b) => {
            if b.len() == 0 {
                return AuthResult::UpstreamError {
                    reason: "Resposta da Validação vazia - Tente novamente mais tarde".to_owned(),
                    status: UPSTREAM_FAILURE,
                };
            }
            let doc = match parse_document(b.as_slice()) {
                Some(d) => d,
                None => return AuthResult::UpstreamError {
                    reason: "Erro ao analisar o Resposta da Validação".to_owned(),
                    status: UPSTREAM_FAILURE,
                },
            };
            let token = match member(&doc, "token") {
                Some(v) => text(v),
                None => None,
            };
            match token {
                Some(t) => if t.is_empty() {
                    AuthResult::Unauthorized { reason: "Senha Invalida".to_owned() }
                } else {
                    AuthResult::Authorized
                },
                None => AuthResult::UpstreamError { reason: lossy(b.as_slice()), status: UPSTREAM_FAILURE },
            }
        },
    }
}

/// The filter's outcome for a verdict of the credential service.
pub fn outcome_of(auth: AuthResult) -> (r: Outcome)
    ensures
        r@ == outcome_of_auth(auth@),
{
    match auth {
        AuthResult::Authorized => Outcome::Continue,
        AuthResult::Unauthorized { reason } => Outcome::Reject(Rejection { message: reason, status: UNAUTHORIZED }),
        AuthResult::UpstreamError { reason, status } => Outcome::Reject(Rejection { message: reason, status }),
    }
}

/// The outcome of a request that passed the checks, once the credential
/// service has replied.
pub fn finish(reply: &Reply) -> (r: Outcome)
    ensures
        r@ == outcome_of_auth(classification(reply@)),
{
    outcome_of(classify_reply(reply))
}

} // verus!
