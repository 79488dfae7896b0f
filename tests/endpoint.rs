use discord_api::discord::{
    plan_dispatch, respond, respond_to_outcome, send_arguments, success_response, error_response,
    Dispatch, DiscordPostRequest, MalformedRequest, ResponseBody, STATUS_INTERNAL_SERVER_ERROR,
    STATUS_OK,
};
use serde_json::Value;

fn request(message: &str, username: Option<&str>) -> DiscordPostRequest {
    DiscordPostRequest::new(message.to_string(), username.map(|u| u.to_string()))
}

fn json(text: &str) -> Value {
    serde_json::from_str(text).unwrap()
}

fn expect_send<'a>(d: Dispatch<'a>) -> (&'a str, Option<&'a str>) {
    match d {
        Dispatch::Send { content, username } => (content, username),
        Dispatch::Reject(_) => panic!("expected the request to be sent"),
    }
}

fn expect_text(body: ResponseBody) -> String {
    match body {
        ResponseBody::Text(t) => t,
        ResponseBody::Json(_) => panic!("expected a text body"),
    }
}

fn expect_json(body: ResponseBody) -> Value {
    match body {
        ResponseBody::Json(v) => v,
        ResponseBody::Text(_) => panic!("expected a JSON body"),
    }
}

#[test]
fn message_only_request_is_sent_without_username() {
    let decoded: Result<DiscordPostRequest, MalformedRequest> = Ok(request("hello", None));
    let (content, username) = expect_send(plan_dispatch(&decoded));
    assert_eq!(content, "hello");
    assert_eq!(username, None);

    let r = respond(Ok(json(r#"{"id": "123"}"#)));
    assert_eq!(r.status, 200);
    assert_eq!(expect_json(r.body), json(r#"{"id":"123"}"#));
}

#[test]
fn message_and_username_are_both_sent() {
    let decoded: Result<DiscordPostRequest, MalformedRequest> = Ok(request("hi", Some("bot")));
    let (content, username) = expect_send(plan_dispatch(&decoded));
    assert_eq!(content, "hi");
    assert_eq!(username, Some("bot"));
}

#[test]
fn username_is_not_trimmed_or_recased() {
    let req = request("hi", Some("  Bot Name "));
    let (content, username) = send_arguments(&req);
    assert_eq!(content, "hi");
    assert_eq!(username, Some("  Bot Name "));
}

#[test]
fn empty_username_is_kept() {
    let req = request("hi", Some(""));
    assert_eq!(send_arguments(&req), ("hi", Some("")));
}

#[test]
fn malformed_body_is_not_sent() {
    let decoded: Result<DiscordPostRequest, MalformedRequest> = Err(MalformedRequest {
        status: 422,
        description: "missing field `message`".to_string(),
    });
    match plan_dispatch(&decoded) {
        Dispatch::Send { .. } => panic!("a malformed body must not reach the service"),
        Dispatch::Reject(r) => {
            assert_eq!(r.status, 422);
            assert_eq!(expect_text(r.body), "missing field `message`");
        }
    }
}

#[test]
fn service_failure_text_is_returned_with_server_error() {
    let r = respond_to_outcome(Err(anyhow::Error::msg("rate limited")));
    assert_eq!(r.status, 500);
    assert_eq!(expect_text(r.body), "rate limited");
}

#[test]
fn described_failure_is_returned_verbatim() {
    let r = respond(Err("rate limited".to_string()));
    assert_eq!(r.status, STATUS_INTERNAL_SERVER_ERROR);
    assert_eq!(expect_text(r.body), "rate limited");

    let r = error_response("  Upstream: 429 — réessayez\n".to_string());
    assert_eq!(r.status, 500);
    assert_eq!(expect_text(r.body), "  Upstream: 429 — réessayez\n");
}

#[test]
fn service_success_is_relayed_unchanged() {
    let value = json(r#"{"id": "123", "nested": [1, null, {"a": true}]}"#);
    let r = respond_to_outcome(Ok(value.clone()));
    assert_eq!(r.status, STATUS_OK);
    assert_eq!(expect_json(r.body), value);

    let r = success_response(Value::Null);
    assert_eq!(r.status, 200);
    assert_eq!(expect_json(r.body), Value::Null);
}

#[test]
fn same_request_twice_is_sent_twice() {
    let decoded: Result<DiscordPostRequest, MalformedRequest> = Ok(request("ping", Some("bot")));
    let first = expect_send(plan_dispatch(&decoded));
    let second = expect_send(plan_dispatch(&decoded));
    assert_eq!(first, ("ping", Some("bot")));
    assert_eq!(second, ("ping", Some("bot")));
}
