//! Properties of the pipeline over all requests, all replies and all
//! configurations, proved from the definitions that the executable
//! functions are held to.
use vstd::prelude::*;
use crate::json::{json_document, json_member, lossy_text};
use crate::pipeline::{
    classification, cliente_body, cliente_of, credential_path, decision, outcome_of_auth, pipeline,
    required_field_message, required_header_message, token_of, FORBIDDEN, UNAUTHORIZED,
    UPSTREAM_FAILURE,
};
use crate::respond::{attribution, headers_view};
use crate::types::{Config, DecisionView, OutcomeView, ReplyView, RequestView};

verus! {

/// A request without the configured header is rejected with 403 and the
/// message `<header> obrigatorio`, whatever else it carries.
pub proof fn lemma_missing_required_header(c: Config, r: RequestView, reply: ReplyView)
    requires
        !r.required_header_present,
    ensures
        decision(c, r) == DecisionView::Reject(required_header_message(c.header@), FORBIDDEN),
        pipeline(c, r, reply) == OutcomeView::Reject(required_header_message(c.header@), FORBIDDEN),
{
}

/// A request with the configured header but without `senha` is rejected
/// with 403.
pub proof fn lemma_missing_senha(c: Config, r: RequestView, reply: ReplyView)
    requires
        r.required_header_present,
        r.senha is None,
    ensures
        decision(c, r) == DecisionView::Reject("Header senha obrigatorio"@, FORBIDDEN),
        pipeline(c, r, reply) == OutcomeView::Reject("Header senha obrigatorio"@, FORBIDDEN),
{
}

/// A request with an empty body is rejected with 403, and the credential
/// service is never called.
pub proof fn lemma_empty_body(c: Config, r: RequestView, reply: ReplyView)
    requires
        r.body.len() == 0,
    ensures
        decision(c, r) matches DecisionView::Reject(_, s) && s == FORBIDDEN,
        pipeline(c, r, reply) matches OutcomeView::Reject(_, s) && s == FORBIDDEN,
{
}

/// A request whose body is not JSON is rejected with 403, and the
/// credential service is never called.
pub proof fn lemma_invalid_json(c: Config, r: RequestView, reply: ReplyView)
    requires
        json_document(r.body) is None,
    ensures
        decision(c, r) matches DecisionView::Reject(_, s) && s == FORBIDDEN,
        pipeline(c, r, reply) matches OutcomeView::Reject(_, s) && s == FORBIDDEN,
{
}

/// A request whose JSON body lacks the configured field is rejected with 403.
pub proof fn lemma_missing_field(c: Config, r: RequestView, reply: ReplyView, doc: serde_json::Value)
    requires
        json_document(r.body) == Some(doc),
        json_member(doc, c.tag_body@) is None,
    ensures
        decision(c, r) matches DecisionView::Reject(_, s) && s == FORBIDDEN,
        pipeline(c, r, reply) matches OutcomeView::Reject(_, s) && s == FORBIDDEN,
        r.required_header_present && r.senha is Some && r.body.len() > 0 ==> decision(c, r)
            == DecisionView::Reject(required_field_message(c.tag_body@), FORBIDDEN),
{
}

/// A request whose JSON body has no string `cliente` is rejected with 403.
pub proof fn lemma_missing_cliente(c: Config, r: RequestView, reply: ReplyView, doc: serde_json::Value)
    requires
        json_document(r.body) == Some(doc),
        cliente_of(doc) is None,
    ensures
        decision(c, r) matches DecisionView::Reject(_, s) && s == FORBIDDEN,
        pipeline(c, r, reply) matches OutcomeView::Reject(_, s) && s == FORBIDDEN,
{
}

/// A well-formed request leads to exactly one call: to
/// `/api/valida_senha?senha=<senha>`, with the body `{"cliente":<cliente>}`.
pub proof fn lemma_downstream_request(
    c: Config,
    r: RequestView,
    senha: Seq<char>,
    doc: serde_json::Value,
    cliente: Seq<char>,
)
    requires
        r.required_header_present,
        r.senha == Some(senha),
        r.body.len() > 0,
        json_document(r.body) == Some(doc),
        json_member(doc, c.tag_body@) is Some,
        cliente_of(doc) == Some(cliente),
    ensures
        decision(c, r) == DecisionView::Call(credential_path(senha), cliente_body(cliente)),
{
}

/// Once a request has passed the checks, its outcome is the reading of the
/// credential service's reply.
pub proof fn lemma_called_outcome(c: Config, r: RequestView, reply: ReplyView)
    requires
        decision(c, r) is Call,
    ensures
        pipeline(c, r, reply) == outcome_of_auth(classification(reply)),
{
}

/// A reply whose `token` is a non-empty string lets the request continue.
pub proof fn lemma_token_accepted(b: Seq<u8>, doc: serde_json::Value, token: Seq<char>)
    requires
        b.len() > 0,
        json_document(b) == Some(doc),
        token_of(doc) == Some(token),
        token.len() > 0,
    ensures
        outcome_of_auth(classification(ReplyView::Received(b))) == OutcomeView::Continue,
{
}

/// A reply whose `token` is the empty string rejects the request with 401
/// and `Senha Invalida`.
pub proof fn lemma_token_empty(b: Seq<u8>, doc: serde_json::Value)
    requires
        b.len() > 0,
        json_document(b) == Some(doc),
        token_of(doc) == Some(Seq::<char>::empty()),
    ensures
        outcome_of_auth(classification(ReplyView::Received(b))) == OutcomeView::Reject(
            "Senha Invalida"@,
            UNAUTHORIZED,
        ),
{
}

/// A JSON reply without a string `token` rejects the request with 500 and
/// the reply's own text as the message.
pub proof fn lemma_token_missing(b: Seq<u8>, doc: serde_json::Value)
    requires
        b.len() > 0,
        json_document(b) == Some(doc),
        token_of(doc) is None,
    ensures
        outcome_of_auth(classification(ReplyView::Received(b))) == OutcomeView::Reject(
            lossy_text(b),
            UPSTREAM_FAILURE,
        ),
{
}

/// An empty reply rejects the request with 500 and a message that the
/// validation answered nothing.
pub proof fn lemma_empty_reply()
    ensures
        outcome_of_auth(classification(ReplyView::Received(Seq::empty()))) == OutcomeView::Reject(
            "Resposta da Validação vazia - Tente novamente mais tarde"@,
            UPSTREAM_FAILURE,
        ),
{
}

/// A call that fails in transport rejects the request with 500 and a
/// message that the validation call failed.
pub proof fn lemma_transport_failure()
    ensures
        outcome_of_auth(classification(ReplyView::TransportFailure)) == OutcomeView::Reject(
            "Erro na validação - verifique os dados enviados"@,
            UPSTREAM_FAILURE,
        ),
{
}

/// The same request against a service that replies the same way has the
/// same outcome, each time it is made.
pub proof fn lemma_repeatable(c: Config, r1: RequestView, r2: RequestView, reply1: ReplyView, reply2: ReplyView)
    requires
        r1 == r2,
        reply1 == reply2,
    ensures
        pipeline(c, r1, reply1) == pipeline(c, r2, reply2),
        decision(c, r1) == decision(c, r2),
{
}

/// A decorated response carries the attribution header, and keeps every
/// header the upstream set, in order.
pub proof fn lemma_attribution_kept(h: Seq<(String, String)>, decorated: Seq<(String, String)>)
    requires
        headers_view(decorated) == headers_view(h).push(attribution()),
    ensures
        headers_view(decorated).contains(attribution()),
        headers_view(decorated).subrange(0, h.len() as int) == headers_view(h),
{
    assert(headers_view(decorated)[h.len() as int] == attribution());
    assert(headers_view(decorated).subrange(0, h.len() as int) =~= headers_view(h));
}

} // verus!
