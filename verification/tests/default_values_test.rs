use service_builder::builder::expand_builder;
use service_builder::decl::{Attribute, FieldDecl, RecordDecl};
use service_builder::error::BuildError;
use service_builder::expansion::Expansion;
use service_builder::model::{BuilderModel, FieldValue};
use service_builder::token::Token;
use std::time::Duration;

/// What the fields of the configurations under test hold.
#[derive(Clone, Copy, Debug, PartialEq, Eq)]
enum Value {
    Time(Duration),
    Count(usize),
    Flag(bool),
    Name(Option<&'static str>),
    Text(&'static str),
}

/// `#[builder(default = "<source>")]`
fn default_expr(source: &str) -> Vec<Attribute> {
    vec![Attribute::builder(vec![
        Token::ident("default"),
        Token::Punct('='),
        Token::string(source),
    ])]
}

/// `#[builder(<key>)]`
fn key(name: &str) -> Vec<Attribute> {
    vec![Attribute::builder(vec![Token::ident(name)])]
}

fn cache_config() -> Expansion {
    let decl = RecordDecl::named_struct(
        "CacheConfig",
        vec![],
        vec![
            FieldDecl::new("default_ttl", "Duration", default_expr("Duration::from_secs(3600)")),
            FieldDecl::new("max_entries", "usize", default_expr("10_000")),
            FieldDecl::new("compression", "bool", key("default")),
            FieldDecl::new("custom_name", "Option<String>", key("optional")),
            FieldDecl::new("connection_timeout", "Duration", default_expr("Duration::from_secs(5)")),
            FieldDecl::new("cache_dir", "String", vec![]),
        ],
    );
    expand_builder(&decl).unwrap()
}

fn config_with_only_defaults() -> Expansion {
    let decl = RecordDecl::named_struct(
        "ConfigWithOnlyDefaults",
        vec![],
        vec![
            FieldDecl::new("enabled", "bool", default_expr("true")),
            FieldDecl::new("name", "String", default_expr("\"default\".to_string()")),
            FieldDecl::new("description", "Option<String>", key("optional")),
        ],
    );
    expand_builder(&decl).unwrap()
}

/// The value that the field `name` of a finished record has, once the host
/// language has evaluated what the finalization put there.
fn field(plan: &Expansion, record: &[FieldValue<Value>], name: &str) -> Value {
    let at = plan.fields.iter().position(|f| f.name == name).unwrap();
    match &record[at] {
        FieldValue::Provided(value) => *value,
        FieldValue::TraitDefault => match plan.fields[at].ty.as_str() {
            "bool" => Value::Flag(bool::default()),
            "usize" => Value::Count(usize::default()),
            other => panic!("no default known for {}", other),
        },
        FieldValue::Evaluated(source) => match source.as_str() {
            "Duration::from_secs(3600)" => Value::Time(Duration::from_secs(3600)),
            "Duration::from_secs(5)" => Value::Time(Duration::from_secs(5)),
            "10_000" => Value::Count(10_000),
            "true" => Value::Flag(true),
            "\"default\".to_string()" => Value::Text("default"),
            other => panic!("no value known for {}", other),
        },
        FieldValue::Empty => Value::Name(None),
    }
}

#[test]
fn test_build_with_defaults_all_defaults() {
    let plan = cache_config();
    let config = BuilderModel::new(&plan)
        .set("cache_dir", Value::Text("/tmp/cache"))
        .build_with_defaults()
        .unwrap();

    assert_eq!(field(&plan, &config, "default_ttl"), Value::Time(Duration::from_secs(3600)));
    assert_eq!(field(&plan, &config, "max_entries"), Value::Count(10_000));
    assert_eq!(field(&plan, &config, "compression"), Value::Flag(false));
    assert_eq!(field(&plan, &config, "custom_name"), Value::Name(None));
    assert_eq!(field(&plan, &config, "connection_timeout"), Value::Time(Duration::from_secs(5)));
    assert_eq!(field(&plan, &config, "cache_dir"), Value::Text("/tmp/cache"));
}

#[test]
fn test_build_with_defaults_partial_override() {
    let plan = cache_config();
    let config = BuilderModel::new(&plan)
        .set("cache_dir", Value::Text("/var/cache"))
        .set("max_entries", Value::Count(50_000))
        .set("compression", Value::Flag(true))
        .set("custom_name", Value::Name(Some("my-cache")))
        .build_with_defaults()
        .unwrap();

    assert_eq!(field(&plan, &config, "default_ttl"), Value::Time(Duration::from_secs(3600)));
    assert_eq!(field(&plan, &config, "max_entries"), Value::Count(50_000));
    assert_eq!(field(&plan, &config, "compression"), Value::Flag(true));
    assert_eq!(field(&plan, &config, "custom_name"), Value::Name(Some("my-cache")));
    assert_eq!(field(&plan, &config, "connection_timeout"), Value::Time(Duration::from_secs(5)));
}

#[test]
fn test_strict_build_missing_required() {
    let plan = cache_config();
    let result = BuilderModel::new(&plan).set("max_entries", Value::Count(1000)).build();

    assert!(result.is_err());
    match result {
        Err(BuildError::MissingDependency(field)) => {
            assert_eq!(field, "cache_dir");
        }
        _ => panic!("Expected MissingDependency error"),
    }
}

#[test]
fn test_strict_build_with_defaults_provided() {
    let plan = cache_config();
    let config = BuilderModel::new(&plan).set("cache_dir", Value::Text("/tmp")).build().unwrap();

    assert_eq!(field(&plan, &config, "default_ttl"), Value::Time(Duration::from_secs(3600)));
    assert_eq!(field(&plan, &config, "max_entries"), Value::Count(10_000));
    assert_eq!(field(&plan, &config, "compression"), Value::Flag(false));
    assert_eq!(field(&plan, &config, "custom_name"), Value::Name(None));
}

#[test]
fn test_all_fields_have_defaults() {
    let plan = config_with_only_defaults();
    let config = BuilderModel::new(&plan).build_with_defaults().unwrap();

    assert_eq!(field(&plan, &config, "enabled"), Value::Flag(true));
    assert_eq!(field(&plan, &config, "name"), Value::Text("default"));
    assert_eq!(field(&plan, &config, "description"), Value::Name(None));
}

#[test]
fn test_build_method_with_all_defaults() {
    let plan = config_with_only_defaults();
    let config = BuilderModel::new(&plan).build().unwrap();

    assert_eq!(field(&plan, &config, "enabled"), Value::Flag(true));
    assert_eq!(field(&plan, &config, "name"), Value::Text("default"));
    assert_eq!(field(&plan, &config, "description"), Value::Name(None));
}

#[test]
fn test_build_with_defaults_missing_required_field() {
    let plan = cache_config();
    let result =
        BuilderModel::new(&plan).set("max_entries", Value::Count(1000)).build_with_defaults();

    assert!(result.is_err());
    match result {
        Err(BuildError::MissingDependency(field)) => {
            assert_eq!(field, "cache_dir");
        }
        _ => panic!("Expected MissingDependency error"),
    }
}
