use policy_meetup_demo::{
    check_body, check_headers, classify_reply, decorate_response, error_message, evaluate, finish,
    outcome_of, AuthResult, Config, Decision, DownstreamCall, Outcome, Rejection, Reply,
    RequestParts,
};

fn config() -> Config {
    Config {
        ambiente: "dev".to_string(),
        header: "x-client-id".to_string(),
        tag_body: "conta".to_string(),
        validar: Some(true),
    }
}

fn request(present: bool, senha: Option<&str>, body: &str) -> RequestParts {
    RequestParts {
        required_header_present: present,
        senha: senha.map(|s| s.to_string()),
        body: body.as_bytes().to_vec(),
    }
}

fn rejected(message: &str, status: u32) -> Decision {
    Decision::Reject(Rejection { message: message.to_string(), status })
}

fn reply(text: &str) -> Reply {
    Reply::Received(text.as_bytes().to_vec())
}

fn outcome_rejected(message: &str, status: u32) -> Outcome {
    Outcome::Reject(Rejection { message: message.to_string(), status })
}

#[test]
fn missing_required_header_is_forbidden() {
    let d = evaluate(&config(), &request(false, Some("s3"), "{\"conta\":1,\"cliente\":\"acme\"}"));
    assert_eq!(d, rejected("x-client-id obrigatorio", 403));
    let r = error_message("x-client-id obrigatorio", 403);
    assert_eq!(r.status, 403);
    assert_eq!(r.body, "{\"error\": \"x-client-id obrigatorio\"}");
}

#[test]
fn missing_required_header_wins_over_other_faults() {
    let d = evaluate(&config(), &request(false, None, ""));
    assert_eq!(d, rejected("x-client-id obrigatorio", 403));
}

#[test]
fn missing_senha_is_forbidden() {
    let d = evaluate(&config(), &request(true, None, "{\"conta\":1,\"cliente\":\"acme\"}"));
    assert_eq!(d, rejected("Header senha obrigatorio", 403));
}

#[test]
fn empty_body_is_forbidden_and_nothing_is_called() {
    let d = evaluate(&config(), &request(true, Some("s3"), ""));
    assert_eq!(d, rejected("Body obrigatorio", 403));
}

#[test]
fn non_json_body_is_forbidden() {
    let d = evaluate(&config(), &request(true, Some("s3"), "conta=1&cliente=acme"));
    assert_eq!(d, rejected("Body - Invalid Json format", 403));
}

#[test]
fn body_without_required_field_is_forbidden() {
    let d = evaluate(&config(), &request(true, Some("s3"), "{\"cliente\":\"acme\"}"));
    assert_eq!(d, rejected("Body - Campo conta obrigatorio", 403));
}

#[test]
fn body_that_is_not_an_object_lacks_the_field() {
    let d = evaluate(&config(), &request(true, Some("s3"), "[1, 2, 3]"));
    assert_eq!(d, rejected("Body - Campo conta obrigatorio", 403));
}

#[test]
fn body_without_cliente_is_forbidden() {
    let d = evaluate(&config(), &request(true, Some("s3"), "{\"conta\":1}"));
    assert_eq!(d, rejected("Campo cliente Obrigatorio no Body", 403));
}

#[test]
fn non_string_cliente_is_forbidden() {
    let d = evaluate(&config(), &request(true, Some("s3"), "{\"conta\":1,\"cliente\":42}"));
    assert_eq!(d, rejected("Campo cliente Obrigatorio no Body", 403));
}

#[test]
fn well_formed_request_builds_the_call() {
    let d = evaluate(&config(), &request(true, Some("s3cr3t"), "{\"conta\": 7, \"cliente\": \"acme\", \"x\": []}"));
    assert_eq!(
        d,
        Decision::Call(DownstreamCall {
            path: "/api/valida_senha?senha=s3cr3t".to_string(),
            body: "{\"cliente\":\"acme\"}".to_string(),
        })
    );
}

#[test]
fn senha_is_taken_verbatim_into_the_path() {
    let p = check_headers(&config(), true, Some("a b&c=d"));
    assert_eq!(p, Ok("/api/valida_senha?senha=a b&c=d".to_string()));
}

#[test]
fn cliente_is_escaped_in_the_call_body() {
    let b = check_body(&config(), b"{\"conta\":null,\"cliente\":\"a\\\"b\\\\c\"}");
    assert_eq!(b, Ok("{\"cliente\":\"a\\\"b\\\\c\"}".to_string()));
}

#[test]
fn required_field_may_hold_any_value() {
    let b = check_body(&config(), b"{\"conta\":null,\"cliente\":\"z\"}");
    assert_eq!(b, Ok("{\"cliente\":\"z\"}".to_string()));
}

#[test]
fn non_empty_token_continues() {
    assert_eq!(classify_reply(&reply("{\"token\": \"abc\"}")), AuthResult::Authorized);
    assert_eq!(finish(&reply("{\"token\": \"abc\"}")), Outcome::Continue);
}

#[test]
fn empty_token_is_unauthorized() {
    let o = finish(&reply("{\"token\": \"\"}"));
    assert_eq!(o, outcome_rejected("Senha Invalida", 401));
    let r = error_message("Senha Invalida", 401);
    assert_eq!(r.status, 401);
    assert!(r.body.contains("\"Senha Invalida\""));
}

#[test]
fn missing_token_returns_the_raw_reply() {
    let text = "{\"erro\": \"usuario desconhecido\"}";
    assert_eq!(finish(&reply(text)), outcome_rejected(text, 500));
}

#[test]
fn non_string_token_returns_the_raw_reply() {
    let text = "{\"token\": 12}";
    assert_eq!(finish(&reply(text)), outcome_rejected(text, 500));
}

#[test]
fn raw_reply_keeps_non_ascii_text() {
    let text = "{\"mensagem\": \"não autorizado\"}";
    assert_eq!(finish(&reply(text)), outcome_rejected(text, 500));
}

#[test]
fn empty_reply_is_an_upstream_failure() {
    assert_eq!(
        finish(&Reply::Received(Vec::new())),
        outcome_rejected("Resposta da Validação vazia - Tente novamente mais tarde", 500)
    );
}

#[test]
fn unparsable_reply_is_an_upstream_failure() {
    assert_eq!(
        finish(&reply("<html>oops</html>")),
        outcome_rejected("Erro ao analisar o Resposta da Validação", 500)
    );
}

#[test]
fn transport_failure_is_an_upstream_failure() {
    assert_eq!(
        finish(&Reply::TransportFailure),
        outcome_rejected("Erro na validação - verifique os dados enviados", 500)
    );
}

#[test]
fn verdicts_map_to_outcomes() {
    assert_eq!(outcome_of(AuthResult::Authorized), Outcome::Continue);
    assert_eq!(
        outcome_of(AuthResult::Unauthorized { reason: "no".to_string() }),
        outcome_rejected("no", 401)
    );
    assert_eq!(
        outcome_of(AuthResult::UpstreamError { reason: "down".to_string(), status: 502 }),
        outcome_rejected("down", 502)
    );
}

#[test]
fn same_request_same_outcome() {
    let c = config();
    let req = request(true, Some("s3"), "{\"conta\":1,\"cliente\":\"acme\"}");
    assert_eq!(evaluate(&c, &req), evaluate(&c, &req));
    let good = reply("{\"token\": \"t\"}");
    assert_eq!(finish(&good), finish(&good));
    let bad = reply("{\"token\": \"\"}");
    assert_eq!(finish(&bad), finish(&bad));
}

#[test]
fn error_response_has_json_headers() {
    let r = error_message("Body obrigatorio", 403);
    assert_eq!(
        r.headers,
        vec![
            ("Content-Type".to_string(), "application/json".to_string()),
            ("Powered-By".to_string(), "pdk".to_string()),
        ]
    );
    assert_eq!(r.body, "{\"error\": \"Body obrigatorio\"}");
}

#[test]
fn error_message_is_escaped() {
    let r = error_message("{\"a\": 1}\n", 500);
    assert_eq!(r.body, "{\"error\": \"{\\\"a\\\": 1}\\n\"}");
}

#[test]
fn decoration_adds_attribution_and_keeps_headers() {
    let mut h = vec![
        ("content-type".to_string(), "text/plain".to_string()),
        ("Powered-by".to_string(), "backend".to_string()),
    ];
    decorate_response(&mut h);
    assert_eq!(h.len(), 3);
    assert_eq!(h[0], ("content-type".to_string(), "text/plain".to_string()));
    assert_eq!(h[1], ("Powered-by".to_string(), "backend".to_string()));
    assert_eq!(h[2], ("Powered-by".to_string(), "PDK".to_string()));
    let mut empty: Vec<(String, String)> = Vec::new();
    decorate_response(&mut empty);
    assert_eq!(empty, vec![("Powered-by".to_string(), "PDK".to_string())]);
}
