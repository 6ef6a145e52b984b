use txtcv::bundled::{default_schema, template_document};
use txtcv::json::Json;
use txtcv::schema::{validate, Schema, SchemaType, Violation};

fn text(s: &str) -> Json {
    Json::Text(String::from(s))
}

fn bare(ty: SchemaType) -> Schema {
    Schema {
        ty,
        required: vec![],
        properties: vec![],
        items: None,
    }
}

#[test]
fn template_passes_validation() {
    let schema = default_schema();
    let doc = template_document();
    assert!(validate(&doc, &schema).is_ok());
}

#[test]
fn empty_object_fails_when_fields_required() {
    let schema = default_schema();
    let doc = Json::Obj(vec![]);
    let err = validate(&doc, &schema).unwrap_err();
    match err {
        Violation::MissingField { field, .. } => assert_eq!(field, "basics"),
        other => panic!("unexpected violation: {:?}", other),
    }
}

#[test]
fn missing_email_is_named_in_diagnostic() {
    let schema = default_schema();
    let doc = Json::Obj(vec![(
        String::from("basics"),
        Json::Obj(vec![(String::from("name"), text("Alice"))]),
    )]);
    let err = validate(&doc, &schema).unwrap_err();
    let message = err.describe();
    assert!(message.contains("email"), "diagnostic was: {}", message);
    assert_eq!(message, "missing required member \"email\" at basics");
}

#[test]
fn unknown_extra_members_are_accepted() {
    let schema = default_schema();
    let mut doc = template_document();
    if let Json::Obj(fields) = &mut doc {
        fields.push((String::from("hobbies"), Json::Arr(vec![text("chess")])));
    } else {
        panic!("template is not an object");
    }
    assert!(validate(&doc, &schema).is_ok());
}

#[test]
fn wrong_member_type_is_reported() {
    let schema = default_schema();
    let doc = Json::Obj(vec![(String::from("basics"), text("oops"))]);
    let err = validate(&doc, &schema).unwrap_err();
    match err {
        Violation::WrongType { expected, .. } => assert_eq!(expected, SchemaType::Object),
        other => panic!("unexpected violation: {:?}", other),
    }
    let doc2 = Json::Obj(vec![
        (
            String::from("basics"),
            Json::Obj(vec![
                (String::from("name"), text("Alice Doe")),
                (String::from("email"), text("alice@example.com")),
            ]),
        ),
        (String::from("skills"), Json::Arr(vec![Json::Num(String::from("3"))])),
    ]);
    let err2 = validate(&doc2, &schema).unwrap_err();
    let message = err2.describe();
    assert_eq!(message, "value does not have expected type string at skills");
}

#[test]
fn array_elements_are_each_checked() {
    let schema = default_schema();
    let doc = Json::Obj(vec![
        (
            String::from("basics"),
            Json::Obj(vec![
                (String::from("name"), text("Alice Doe")),
                (String::from("email"), text("alice@example.com")),
            ]),
        ),
        (
            String::from("work"),
            Json::Arr(vec![
                Json::Obj(vec![(String::from("company"), text("Acme"))]),
                Json::Obj(vec![(String::from("position"), text("Chief"))]),
            ]),
        ),
    ]);
    let err = validate(&doc, &schema).unwrap_err();
    let message = err.describe();
    assert!(message.contains("company"), "diagnostic was: {}", message);
}

#[test]
fn scalar_type_checks() {
    assert!(validate(&Json::Null, &bare(SchemaType::Null)).is_ok());
    assert!(validate(&Json::Bool(true), &bare(SchemaType::Boolean)).is_ok());
    assert!(validate(&text("x"), &bare(SchemaType::Text)).is_ok());
    assert!(validate(&Json::Num(String::from("3")), &bare(SchemaType::Number)).is_ok());
    assert!(validate(&Json::Num(String::from("3")), &bare(SchemaType::Integer)).is_ok());
    assert!(validate(&Json::Num(String::from("3.5")), &bare(SchemaType::Integer)).is_err());
    assert!(validate(&Json::Num(String::from("3e2")), &bare(SchemaType::Integer)).is_err());
    assert!(validate(&text("x"), &bare(SchemaType::Number)).is_err());
    assert!(validate(&Json::Null, &bare(SchemaType::Any)).is_ok());
    assert!(validate(&Json::Arr(vec![]), &bare(SchemaType::Array)).is_ok());
}
