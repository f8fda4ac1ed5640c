//! Interpretation of response envelopes.

use tasklist_mcp_client::identifier::extract_diagram_id;
use tasklist_mcp_client::json::Json;
use tasklist_mcp_client::response::{interpret, Outcome};

fn member(key: &str, value: Json) -> (String, Json) {
    (key.to_string(), value)
}

fn text(value: &str) -> Json {
    Json::Text(value.to_string())
}

fn success(message: &str) -> Json {
    Json::Object(vec![member(
        "result",
        Json::Object(vec![member(
            "content",
            Json::Array(vec![Json::Object(vec![member("text", text(message))])]),
        )]),
    )])
}

#[test]
fn error_member_is_a_server_error() {
    let payload = Json::Object(vec![
        member("code", Json::whole(-32000)),
        member("message", text("no such diagram")),
    ]);
    let body = Json::Object(vec![member("error", payload.clone())]);
    assert_eq!(interpret(&body), Outcome::ServerError(payload));
}

#[test]
fn error_member_wins_over_a_result() {
    let mut members = match success("Created diagram with ID: abc") {
        Json::Object(members) => members,
        _ => unreachable!(),
    };
    members.push(member("error", text("boom")));
    let body = Json::Object(members);
    assert_eq!(interpret(&body), Outcome::ServerError(text("boom")));
}

#[test]
fn null_error_member_is_still_a_server_error() {
    let body = Json::Object(vec![member("error", Json::Null)]);
    assert_eq!(interpret(&body), Outcome::ServerError(Json::Null));
}

#[test]
fn success_shape_yields_its_text() {
    let body = success("Created diagram with ID: 12ab-34cd");
    assert_eq!(
        interpret(&body),
        Outcome::Success("Created diagram with ID: 12ab-34cd".to_string())
    );
}

#[test]
fn success_text_carries_the_diagram_id() {
    let body = success("Created diagram with ID: 12ab-34cd");
    match interpret(&body) {
        Outcome::Success(message) => {
            assert_eq!(message, "Created diagram with ID: 12ab-34cd");
            assert_eq!(extract_diagram_id(&message), Some("12ab-34cd".to_string()));
        }
        other => panic!("not a success: {:?}", other),
    }
}

#[test]
fn only_the_first_content_item_counts() {
    let body = Json::Object(vec![member(
        "result",
        Json::Object(vec![member(
            "content",
            Json::Array(vec![
                Json::Object(vec![member("text", text("first"))]),
                Json::Object(vec![member("text", text("second"))]),
            ]),
        )]),
    )]);
    assert_eq!(interpret(&body), Outcome::Success("first".to_string()));
}

#[test]
fn missing_path_is_malformed() {
    assert_eq!(interpret(&Json::Null), Outcome::Malformed);
    assert_eq!(interpret(&Json::Object(vec![])), Outcome::Malformed);
    assert_eq!(interpret(&Json::Array(vec![text("error")])), Outcome::Malformed);
    assert_eq!(
        interpret(&Json::Object(vec![member("result", Json::Object(vec![]))])),
        Outcome::Malformed
    );
    assert_eq!(
        interpret(&Json::Object(vec![member(
            "result",
            Json::Object(vec![member("content", Json::Array(vec![]))])
        )])),
        Outcome::Malformed
    );
    assert_eq!(
        interpret(&Json::Object(vec![member(
            "result",
            Json::Object(vec![member(
                "content",
                Json::Array(vec![Json::Object(vec![member("type", text("text"))])])
            )])
        )])),
        Outcome::Malformed
    );
}

#[test]
fn text_that_is_no_string_is_malformed() {
    let body = Json::Object(vec![member(
        "result",
        Json::Object(vec![member(
            "content",
            Json::Array(vec![Json::Object(vec![member("text", Json::whole(7))])]),
        )]),
    )]);
    assert_eq!(interpret(&body), Outcome::Malformed);
}
