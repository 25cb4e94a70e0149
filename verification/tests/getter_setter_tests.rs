use service_builder::accessors::RecordModel;
use service_builder::builder::expand_builder;
use service_builder::decl::{Attribute, FieldDecl, RecordDecl};
use service_builder::expansion::Accessor;
use service_builder::model::{BuilderModel, FieldValue};
use service_builder::token::Token;

/// What the fields of the records under test hold.
#[derive(Clone, Copy, Debug, PartialEq)]
enum Value {
    Text(&'static str),
    Int(i32),
    Flag(bool),
    Real(f64),
}

/// `#[builder(<keys>)]`, the keys separated by commas.
fn keys(names: &[&str]) -> Vec<Attribute> {
    let mut tokens = Vec::new();
    for (at, name) in names.iter().enumerate() {
        if at > 0 {
            tokens.push(Token::Punct(','));
        }
        tokens.push(Token::ident(name));
    }
    vec![Attribute::builder(tokens)]
}

fn provided(value: Value) -> FieldValue<Value> {
    FieldValue::Provided(value)
}

fn accessor(method: &str, field: &str, ty: &str) -> Accessor {
    Accessor { method: method.to_string(), field: field.to_string(), ty: ty.to_string() }
}

#[test]
fn test_getter() {
    let decl = RecordDecl::named_struct(
        "GetterTest",
        vec![],
        vec![
            FieldDecl::new("field1", "String", keys(&["getter"])),
            FieldDecl::new("field2", "i32", vec![]),
        ],
    );
    let plan = expand_builder(&decl).unwrap();

    let test = RecordModel::new(
        &plan,
        BuilderModel::new(&plan)
            .set("field1", Value::Text("test"))
            .set("field2", Value::Int(42))
            .build()
            .unwrap(),
    );

    assert_eq!(test.get("get_field1"), Some(&provided(Value::Text("test"))));
    // field2 doesn't have a getter
    assert_eq!(test.get("get_field2"), None);
    assert_eq!(plan.getters, vec![accessor("get_field1", "field1", "String")]);
    assert_eq!(plan.setters, vec![]);
}

#[test]
fn test_setter() {
    let decl = RecordDecl::named_struct(
        "SetterTest",
        vec![],
        vec![
            FieldDecl::new("field1", "String", keys(&["setter"])),
            FieldDecl::new("field2", "i32", vec![]),
        ],
    );
    let plan = expand_builder(&decl).unwrap();

    let mut test = RecordModel::new(
        &plan,
        BuilderModel::new(&plan)
            .set("field1", Value::Text("test"))
            .set("field2", Value::Int(42))
            .build()
            .unwrap(),
    );

    assert!(test.set("set_field1", Value::Text("new value")));
    assert_eq!(test.field("field1"), Some(&provided(Value::Text("new value"))));
    // field2 doesn't have a setter
    assert!(!test.set("set_field2", Value::Int(100)));
    assert_eq!(test.field("field2"), Some(&provided(Value::Int(42))));
    assert_eq!(plan.setters, vec![accessor("set_field1", "field1", "String")]);
    assert_eq!(plan.getters, vec![]);
}

#[test]
fn test_getter_and_setter() {
    let decl = RecordDecl::named_struct(
        "GetterSetterTest",
        vec![],
        vec![
            FieldDecl::new("field1", "String", keys(&["getter", "setter"])),
            FieldDecl::new("field2", "i32", keys(&["getter", "setter"])),
        ],
    );
    let plan = expand_builder(&decl).unwrap();

    let mut test = RecordModel::new(
        &plan,
        BuilderModel::new(&plan)
            .set("field1", Value::Text("test"))
            .set("field2", Value::Int(42))
            .build()
            .unwrap(),
    );

    // Initial values via getters
    assert_eq!(test.get("get_field1"), Some(&provided(Value::Text("test"))));
    assert_eq!(test.get("get_field2"), Some(&provided(Value::Int(42))));

    // Setters
    assert!(test.set("set_field1", Value::Text("new value")));
    assert!(test.set("set_field2", Value::Int(100)));

    // New values via getters
    assert_eq!(test.get("get_field1"), Some(&provided(Value::Text("new value"))));
    assert_eq!(test.get("get_field2"), Some(&provided(Value::Int(100))));
}

#[test]
fn test_multiple_fields() {
    let decl = RecordDecl::named_struct(
        "MultiFieldTest",
        vec![],
        vec![
            FieldDecl::new("string_field", "String", keys(&["getter"])),
            FieldDecl::new("int_field", "i32", keys(&["setter"])),
            FieldDecl::new("bool_field", "bool", keys(&["getter", "setter"])),
            FieldDecl::new("plain_field", "f64", vec![]),
        ],
    );
    let plan = expand_builder(&decl).unwrap();

    let mut test = RecordModel::new(
        &plan,
        BuilderModel::new(&plan)
            .set("string_field", Value::Text("test"))
            .set("int_field", Value::Int(42))
            .set("bool_field", Value::Flag(true))
            .set("plain_field", Value::Real(3.14))
            .build()
            .unwrap(),
    );

    // Getters
    assert_eq!(test.get("get_string_field"), Some(&provided(Value::Text("test"))));
    assert_eq!(test.get("get_bool_field"), Some(&provided(Value::Flag(true))));

    // Setters
    assert!(test.set("set_int_field", Value::Int(100)));
    assert!(test.set("set_bool_field", Value::Flag(false)));

    // Changes
    assert_eq!(test.field("int_field"), Some(&provided(Value::Int(100))));
    assert_eq!(test.get("get_bool_field"), Some(&provided(Value::Flag(false))));

    // These methods do not exist
    assert!(!test.set("set_string_field", Value::Text("fail")));
    assert_eq!(test.get("get_int_field"), None);
    assert_eq!(test.get("get_plain_field"), None);
    assert!(!test.set("set_plain_field", Value::Real(2.718)));
    assert_eq!(
        test.into_values(),
        vec![
            provided(Value::Text("test")),
            provided(Value::Int(100)),
            provided(Value::Flag(false)),
            provided(Value::Real(3.14)),
        ]
    );
}

#[test]
fn accessors_on_a_skipped_field_are_not_emitted() {
    let decl = RecordDecl::named_struct(
        "Skipping",
        vec![Attribute::builder(vec![
            Token::ident("scratch"),
            Token::parenthesized(vec![Token::ident("getter"), Token::Punct(','), Token::ident("setter")]),
        ])],
        vec![
            FieldDecl::new("kept", "u8", keys(&["getter"])),
            FieldDecl::new("scratch", "u8", keys(&["skip", "getter", "setter"])),
        ],
    );
    let plan = expand_builder(&decl).unwrap();
    assert_eq!(plan.getters, vec![accessor("get_kept", "kept", "u8")]);
    assert_eq!(plan.setters, vec![]);

    let mut record = RecordModel::new(
        &plan,
        BuilderModel::new(&plan).set("kept", Value::Int(1)).build().unwrap(),
    );
    assert_eq!(record.get("get_scratch"), None);
    assert!(!record.set("set_scratch", Value::Int(2)));
    assert_eq!(record.field("scratch"), Some(&FieldValue::TraitDefault));
    assert_eq!(record.field("kept"), Some(&provided(Value::Int(1))));
    assert_eq!(record.field("absent"), None);
}
