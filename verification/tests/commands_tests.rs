use txtcv::auth::ConfigRead;
use txtcv::bundled::default_schema;
use txtcv::commands::{
    check_document_text, init_plan, prepare_auth_check, prepare_publish, AuthFault, DocumentFault,
    PublishFault,
};
use txtcv::config::AppConfig;

const TEMPLATE_TEXT: &str = "{\"basics\":{\"name\":\"Alice Doe\",\"email\":\"alice@example.com\"},\"work\":[{\"company\":\"Example Labs\",\"position\":\"Engineer\"}],\"skills\":[\"Rust\"]}";

fn loaded(token: &str) -> ConfigRead {
    ConfigRead::Loaded(AppConfig {
        version: 0,
        personal_access_token: String::from(token),
    })
}

#[test]
fn init_writes_the_template_when_no_file_exists() {
    let text = init_plan(false).unwrap();
    assert_eq!(text, TEMPLATE_TEXT);
    let parsed: serde_json::Value = serde_json::from_str(&text).unwrap();
    assert_eq!(parsed["basics"]["email"], "alice@example.com");
}

#[test]
fn init_refuses_when_the_file_exists() {
    assert!(init_plan(true).is_err());
}

#[test]
fn template_text_round_trips_through_validation() {
    let schema = default_schema();
    let text = init_plan(false).unwrap();
    assert!(check_document_text(&text, &schema).is_ok());
}

#[test]
fn validation_reports_missing_email() {
    let schema = default_schema();
    let r = check_document_text("{\"basics\": {\"name\": \"Alice\"}}", &schema);
    match r.unwrap_err() {
        DocumentFault::Invalid { violation } => {
            assert!(violation.describe().contains("email"));
        }
        other => panic!("unexpected fault: {:?}", other),
    }
}

#[test]
fn validation_distinguishes_malformed_text() {
    let schema = default_schema();
    let r = check_document_text("{\"basics\": ", &schema);
    assert!(matches!(r, Err(DocumentFault::Unparsable { .. })));
}

#[test]
fn publish_without_any_token_is_refused_before_any_request() {
    let schema = default_schema();
    let r = prepare_publish("cv-1", TEMPLATE_TEXT, &schema, None, &loaded(""));
    assert!(matches!(r, Err(PublishFault::NoToken)));
}

#[test]
fn publish_with_invalid_document_is_refused() {
    let schema = default_schema();
    let r = prepare_publish("cv-1", "{}", &schema, Some(String::from("tok")), &loaded(""));
    assert!(matches!(r, Err(PublishFault::Invalid { .. })));
}

#[test]
fn publish_with_unreadable_config_is_refused() {
    let schema = default_schema();
    let r = prepare_publish("cv-1", TEMPLATE_TEXT, &schema, None, &ConfigRead::Unreadable);
    assert!(matches!(r, Err(PublishFault::ConfigUnreadable)));
}

#[test]
fn publish_builds_the_exact_request() {
    let schema = default_schema();
    let q = prepare_publish(
        "abc123",
        TEMPLATE_TEXT,
        &schema,
        None,
        &loaded("tok-123\n"),
    )
    .unwrap();
    assert_eq!(q.url, "https://txtcv.com/api/cv/abc123");
    assert_eq!(q.authorization, "Bearer tok-123");
    // Parsing orders object members by name, so the body carries the
    // document with its members sorted.
    let sorted_text = "{\"basics\":{\"email\":\"alice@example.com\",\"name\":\"Alice Doe\"},\"skills\":[\"Rust\"],\"work\":[{\"company\":\"Example Labs\",\"position\":\"Engineer\"}]}";
    let expected_body = format!("{{\"contents\":{}}}", sorted_text);
    assert_eq!(q.body, expected_body);
    let parsed: serde_json::Value = serde_json::from_str(&q.body).unwrap();
    assert_eq!(parsed["contents"]["basics"]["name"], "Alice Doe");
}

#[test]
fn auth_check_requires_a_token() {
    let r = prepare_auth_check(None, &loaded("  "));
    assert!(matches!(r, Err(AuthFault::NoToken)));
    let r2 = prepare_auth_check(None, &ConfigRead::Unreadable);
    assert!(matches!(r2, Err(AuthFault::ConfigUnreadable)));
}

#[test]
fn auth_check_builds_the_exact_request() {
    let q = prepare_auth_check(Some(String::from("env-tok")), &loaded("other")).unwrap();
    assert_eq!(q.url, "https://txtcv.com");
    assert_eq!(q.authorization, "Bearer env-tok");
}
