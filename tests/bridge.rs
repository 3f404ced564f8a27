use woody_bridge::envelope::{conclude, timeout_secs, Operation, Outcome, ResultEnvelope};
use woody_bridge::request::{
    auth_header, graphql_request, rest_request, token_request, token_url, webhook_request, Body,
    Field, FormPart, Method,
};

fn field(name: &str, value: &str) -> Field {
    Field { name: name.to_string(), value: value.to_string() }
}

fn received(status: u16, body: &str) -> Outcome {
    Outcome::Received { status, body: body.to_string() }
}

#[test]
fn timeouts_per_operation() {
    assert_eq!(timeout_secs(Operation::Token), Some(10));
    assert_eq!(timeout_secs(Operation::Rest), Some(15));
    assert_eq!(timeout_secs(Operation::GraphQl), Some(60));
    assert_eq!(timeout_secs(Operation::Webhook), None);
}

#[test]
fn rest_not_found_is_an_envelope() {
    let r = conclude(Operation::Rest, received(404, "{\"error\":\"not found\"}"));
    assert_eq!(
        r,
        Ok(ResultEnvelope { status: 404, body: "{\"error\":\"not found\"}".to_string() })
    );
}

#[test]
fn server_error_and_success_pass_through() {
    for op in [Operation::Token, Operation::Rest, Operation::GraphQl, Operation::Webhook] {
        let r = conclude(op, received(500, "boom"));
        assert_eq!(r, Ok(ResultEnvelope { status: 500, body: "boom".to_string() }));
        let r = conclude(op, received(200, ""));
        assert_eq!(r, Ok(ResultEnvelope { status: 200, body: String::new() }));
    }
}

#[test]
fn send_failure_tags() {
    let d = || Outcome::SendFailed("connection refused".to_string());
    assert_eq!(conclude(Operation::Token, d()), Err("Network error: connection refused".to_string()));
    assert_eq!(conclude(Operation::Rest, d()), Err("HTTP error: connection refused".to_string()));
    assert_eq!(conclude(Operation::GraphQl, d()), Err("HTTP error: connection refused".to_string()));
    assert_eq!(conclude(Operation::Webhook, d()), Err("Network error: connection refused".to_string()));
}

#[test]
fn read_failure_tag() {
    for op in [Operation::Token, Operation::Rest, Operation::GraphQl, Operation::Webhook] {
        let r = conclude(op, Outcome::ReadFailed("body cut".to_string()));
        assert_eq!(r, Err("Read error: body cut".to_string()));
    }
}

#[test]
fn part_failure_is_reported_as_is() {
    let r = conclude(Operation::Webhook, Outcome::PartRejected("bad mime".to_string()));
    assert_eq!(r, Err("bad mime".to_string()));
}

#[test]
fn same_response_twice_same_envelope() {
    let a = conclude(Operation::GraphQl, received(200, "{\"data\":1}"));
    let b = conclude(Operation::GraphQl, received(200, "{\"data\":1}"));
    assert_eq!(a, b);
    assert_eq!(rest_request("https://h/x", "T"), rest_request("https://h/x", "T"));
    assert_eq!(
        graphql_request("https://h/g", "T", "{}".to_string()),
        graphql_request("https://h/g", "T", "{}".to_string())
    );
}

#[test]
fn token_url_trims_tenant() {
    assert_eq!(token_url(" abc123 "), "https://login.microsoftonline.com/abc123/oauth2/v2.0/token");
    assert_eq!(token_url("\tabc123\n"), "https://login.microsoftonline.com/abc123/oauth2/v2.0/token");
}

#[test]
fn token_request_trims_credentials() {
    let r = token_request(" abc123 ", " app ", "  s3cr et ", "\thttps://api/.default \n");
    assert_eq!(r.method, Method::Post);
    assert_eq!(r.url, "https://login.microsoftonline.com/abc123/oauth2/v2.0/token");
    assert!(r.headers.is_empty());
    assert_eq!(
        r.body,
        Body::Form(vec![
            field("grant_type", "client_credentials"),
            field("client_id", "app"),
            field("client_secret", "s3cr et"),
            field("scope", "https://api/.default"),
        ])
    );
    assert_eq!(r.timeout_secs, Some(10));
}

#[test]
fn rest_request_carries_bearer() {
    let r = rest_request("https://api.example/items", "TOKEN");
    assert_eq!(r.method, Method::Get);
    assert_eq!(r.url, "https://api.example/items");
    assert_eq!(r.headers, vec![field("Authorization", "Bearer TOKEN")]);
    assert_eq!(r.body, Body::Empty);
    assert_eq!(r.timeout_secs, Some(15));
}

#[test]
fn graphql_request_sends_query_verbatim() {
    let q = " {\"query\":\"{ items { id } }\",\"variables\":{}} ".to_string();
    let r = graphql_request("https://api.example/graphql", "T2", q.clone());
    assert_eq!(r.method, Method::Post);
    assert_eq!(r.url, "https://api.example/graphql");
    assert_eq!(
        r.headers,
        vec![field("Authorization", "Bearer T2"), field("Content-Type", "application/json")]
    );
    assert_eq!(r.body, Body::Raw(q));
    assert_eq!(r.timeout_secs, Some(60));
}

#[test]
fn auth_header_api_key() {
    assert_eq!(auth_header("apiKey", "k1"), Some(field("X-API-Key", "k1")));
}

#[test]
fn auth_header_bearer() {
    assert_eq!(auth_header("bearer", "t1"), Some(field("Authorization", "Bearer t1")));
}

#[test]
fn auth_header_none() {
    assert_eq!(auth_header("none", "k1"), None);
    assert_eq!(auth_header("apiKey", ""), None);
    assert_eq!(auth_header("bearer", ""), None);
    assert_eq!(auth_header("", ""), None);
    assert_eq!(auth_header("ApiKey", "k1"), None);
}

fn webhook(auth_type: &str, auth_value: &str) -> woody_bridge::request::HttpRequest {
    webhook_request(
        "https://n8n.example/webhook/abc",
        "s-42",
        "oak",
        "ACME",
        vec![0x25, 0x50, 0x44, 0x46],
        vec![1, 2, 3],
        auth_type,
        auth_value,
    )
}

#[test]
fn webhook_multipart_layout() {
    let r = webhook("none", "");
    assert_eq!(r.method, Method::Post);
    assert_eq!(r.url, "https://n8n.example/webhook/abc");
    assert_eq!(r.timeout_secs, None);
    let parts = match r.body {
        Body::Multipart(parts) => parts,
        other => panic!("not multipart: {:?}", other),
    };
    assert_eq!(
        parts,
        vec![
            FormPart::Text { name: "sessionId".to_string(), value: "s-42".to_string() },
            FormPart::Text { name: "produit".to_string(), value: "oak".to_string() },
            FormPart::Text { name: "client".to_string(), value: "ACME".to_string() },
            FormPart::File {
                name: "cdvPdf".to_string(),
                file_name: "cdv.pdf".to_string(),
                mime: "application/pdf".to_string(),
                bytes: vec![0x25, 0x50, 0x44, 0x46],
            },
            FormPart::File {
                name: "ficheLotPdf".to_string(),
                file_name: "fiche_lot.pdf".to_string(),
                mime: "application/pdf".to_string(),
                bytes: vec![1, 2, 3],
            },
        ]
    );
    let files = parts.iter().filter(|p| matches!(p, FormPart::File { .. })).count();
    assert_eq!(files, 2);
}

#[test]
fn webhook_auth_headers() {
    assert_eq!(webhook("apiKey", "k1").headers, vec![field("X-API-Key", "k1")]);
    assert_eq!(webhook("bearer", "t1").headers, vec![field("Authorization", "Bearer t1")]);
    assert!(webhook("none", "k1").headers.is_empty());
    assert!(webhook("apiKey", "").headers.is_empty());
}
