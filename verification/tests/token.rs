use conoha::client::{token_from_document, token_from_reply, token_from_text, APITokenRequest};
use conoha::http::{HTTPMethod, Reply, Request};
use conoha::json::{Json, Member};
use conoha::text::{escape, join2, join3, quote, same_text};
use conoha::types::ApiError;
use std::cell::RefCell;

const ANSWER: &str = "{\"access\":{\"token\":{\"issued_at\":\"2015-05-19T07:08:21.927295\",\"expires\":\"2015-05-20T07:08:21Z\",\"id\":\"35941e7df872405d84e5b026dba8323c\",\"tenant\":{\"name\":\"example00000000\",\"id\":\"487727e3921d44e3bfe7ebb337bf085e\"}}}}";

fn answered(status: u16, body: &str) -> Reply {
    Reply::Answered { status, body: Some(body.to_string()) }
}

fn member(key: &str, value: Json) -> Member {
    Member { key: key.to_string(), value }
}

#[test]
fn token_is_the_id_of_the_token_of_the_access() {
    let token = token_from_text(ANSWER).expect("the answer holds a token");
    assert_eq!(token.value, "35941e7df872405d84e5b026dba8323c");
}

#[test]
fn token_from_a_well_formed_answer_is_exact() {
    match token_from_reply(answered(200, ANSWER)) {
        Ok(token) => assert_eq!(token.value, "35941e7df872405d84e5b026dba8323c"),
        Err(e) => panic!("no token: {:?}", e),
    }
}

#[test]
fn token_does_not_depend_on_the_order_of_members() {
    let text = "{\"access\": {\"user\": {\"id\": \"u1\"}, \"token\": {\"tenant\": {\"id\": \"t1\"}, \"id\": \"tok \\\"42\\\"\", \"expires\": \"never\"}}}";
    assert_eq!(token_from_text(text).expect("a token").value, "tok \"42\"");
}

#[test]
fn token_from_a_document() {
    let doc = Json::Object(vec![member(
        "access",
        Json::Object(vec![member(
            "token",
            Json::Object(vec![member("id", Json::Text("abc".to_string()))]),
        )]),
    )]);
    assert_eq!(token_from_document(&doc).expect("a token").value, "abc");
    let no_id = Json::Object(vec![member(
        "access",
        Json::Object(vec![member("token", Json::Object(vec![]))]),
    )]);
    assert!(token_from_document(&no_id).is_none());
    assert!(token_from_document(&Json::Null).is_none());
}

#[test]
fn answer_without_a_token_field_is_an_error() {
    assert!(token_from_text("{\"error\":\"unauthorized\"}").is_none());
    for body in [
        "{\"error\":\"unauthorized\"}",
        "",
        "not json",
        "{\"access\":{}}",
        "{\"access\":{\"token\":{}}}",
        "{\"access\":{\"token\":{\"id\":12}}}",
        "{\"access\":{\"token\":{\"id\":null}}}",
        "{\"access\":{\"token\":\"35941e7df872405d84e5b026dba8323c\"}}",
        "{\"token\":{\"id\":\"35941e7df872405d84e5b026dba8323c\"}}",
        "[\"access\"]",
    ] {
        assert!(matches!(token_from_reply(answered(200, body)), Err(ApiError::ResponseShape)));
    }
}

#[test]
fn transport_failure_gives_no_token() {
    assert!(matches!(token_from_reply(Reply::Failed), Err(ApiError::Transport)));
    assert!(matches!(
        token_from_reply(Reply::Answered { status: 200, body: None }),
        Err(ApiError::Transport)
    ));
}

#[test]
fn send_hands_out_the_token_of_the_answer() {
    let log: RefCell<Vec<Request>> = RefCell::new(Vec::new());
    let transport = |request: Request| {
        log.borrow_mut().push(request);
        answered(200, ANSWER)
    };
    let request = APITokenRequest::new(transport, "Name001".to_string(), "tenant001".to_string());
    let token = request.send("password123".to_string()).expect("a token");
    assert_eq!(token.value, "35941e7df872405d84e5b026dba8323c");
    let sent = log.borrow();
    assert_eq!(sent.len(), 1);
    assert_eq!(sent[0].method, HTTPMethod::POST);
    assert_eq!(sent[0].url, "https://identity.tyo1.conoha.io/v2.0/tokens");
    assert_eq!(
        sent[0].body.as_deref(),
        Some("{ \"auth\": { \"passwordCredentials\": { \"username\": \"Name001\", \"password\": \"password123\" }, \"tenantId\": \"tenant001\" } }")
    );
    assert_eq!(sent[0].headers.len(), 1);
    assert_eq!(sent[0].headers[0].name, "Accept");
    assert_eq!(sent[0].headers[0].value, "application/json");
}

#[test]
fn send_reports_a_transport_failure() {
    let request = APITokenRequest::new(|_request: Request| Reply::Failed, "u".to_string(), "t".to_string());
    assert!(matches!(request.send("p".to_string()), Err(ApiError::Transport)));
}

#[test]
fn joining_texts() {
    assert_eq!(join2("ab", "cd"), "abcd");
    assert_eq!(join3("a", "", "c"), "ac");
    assert!(same_text(&"servers".to_string(), "servers"));
    assert!(!same_text(&"servers".to_string(), "server"));
}

#[test]
fn escaping_for_a_json_string() {
    assert_eq!(escape(""), "");
    assert_eq!(escape("plain text 123"), "plain text 123");
    assert_eq!(escape("a\"b"), "a\\\"b");
    assert_eq!(escape("a\\b"), "a\\\\b");
    assert_eq!(escape("\n"), "\\u000a");
    assert_eq!(escape("\u{0}\u{1}\u{f}\u{10}\u{1f}"), "\\u0000\\u0001\\u000f\\u0010\\u001f");
    assert_eq!(escape(" \u{7f}/\u{3042}\u{1f600}"), " \u{7f}/\u{3042}\u{1f600}");
    assert_eq!(quote(""), "\"\"");
    assert_eq!(quote("a\"\\\tb"), "\"a\\\"\\\\\\u0009b\"");
}

#[test]
fn quoted_texts_are_read_back_by_a_json_parser() {
    let every: String = (0u32..0x250).filter_map(char::from_u32).collect();
    for text in ["", "\"", "\\", "\\\"", "\\u0041", "a\r\n\tb", "\u{1f600}", every.as_str()] {
        let quoted = quote(text);
        let back: serde_json::Value = serde_json::from_str(&quoted).expect("a JSON string");
        assert_eq!(back.as_str(), Some(text));
    }
}

#[test]
fn token_request_body_is_json_whatever_the_texts_hold() {
    let user = "na\"me\\001";
    let tenant = "ten\"ant\u{1}";
    let password = "p\"a\\s\ns\"";
    let request = APITokenRequest::new(|_request: Request| Reply::Failed, user.to_string(), tenant.to_string());
    let body = request.request(password).body.expect("a body");
    assert_eq!(
        body,
        "{ \"auth\": { \"passwordCredentials\": { \"username\": \"na\\\"me\\\\001\", \"password\": \"p\\\"a\\\\s\\u000as\\\"\" }, \"tenantId\": \"ten\\\"ant\\u0001\" } }"
    );
    let doc: serde_json::Value = serde_json::from_str(&body).expect("the body is JSON");
    assert_eq!(doc["auth"]["passwordCredentials"]["username"].as_str(), Some(user));
    assert_eq!(doc["auth"]["passwordCredentials"]["password"].as_str(), Some(password));
    assert_eq!(doc["auth"]["tenantId"].as_str(), Some(tenant));
    assert_eq!(doc.as_object().map(|m| m.len()), Some(1));
    assert_eq!(doc["auth"].as_object().map(|m| m.len()), Some(2));
    assert_eq!(doc["auth"]["passwordCredentials"].as_object().map(|m| m.len()), Some(2));
}
