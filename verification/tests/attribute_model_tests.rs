use service_builder::decl::{Attribute, FieldDecl};
use service_builder::error::SynthesisError;
use service_builder::field_attributes::{
    collect_builder_metas, has_bare_key, DefaultStrategy, FieldAttributes, FieldConfig,
    FieldConfigs,
};
use service_builder::meta::{parse_meta_list, read_meta, MetaRef};
use service_builder::token::{Delimiter, Token};

fn ident(name: &str) -> Token {
    Token::ident(name)
}

fn comma() -> Token {
    Token::Punct(',')
}

fn eq() -> Token {
    Token::Punct('=')
}

fn string(text: &str) -> Token {
    Token::string(text)
}

fn parens(tokens: Vec<Token>) -> Token {
    Token::parenthesized(tokens)
}

fn field(name: &str) -> FieldDecl {
    FieldDecl::new(name, "u8", vec![])
}

/// The configuration of a field `f` that carries `#[builder(tokens)]`, on a
/// type without annotations.
fn field_level(tokens: Vec<Token>) -> Result<FieldAttributes, SynthesisError> {
    FieldAttributes::from_field(&field("f"), &[], &[Attribute::builder(tokens)])
}

fn attrs(
    getter: bool,
    setter: bool,
    builder: bool,
    required: bool,
    default: DefaultStrategy,
) -> FieldAttributes {
    FieldAttributes { getter, setter, builder, required, default }
}

fn malformed_field() -> Result<FieldAttributes, SynthesisError> {
    Err(SynthesisError::MalformedFieldAttribute("f".to_string()))
}

// The list grammar

#[test]
fn empty_list_has_no_entries() {
    let tokens = vec![];
    let parsed = parse_meta_list(&tokens).unwrap();
    assert!(parsed.is_empty());
}

#[test]
fn bare_keys_are_read_in_order() {
    let tokens = vec![ident("getter"), comma(), ident("setter")];
    let parsed = parse_meta_list(&tokens).unwrap();
    assert_eq!(parsed.len(), 2);
    assert!(matches!(parsed[0], MetaRef::Path(key) if key == "getter"));
    assert!(matches!(parsed[1], MetaRef::Path(key) if key == "setter"));
}

#[test]
fn trailing_comma_is_accepted() {
    let tokens = vec![ident("getter"), comma()];
    let parsed = parse_meta_list(&tokens).unwrap();
    assert_eq!(parsed.len(), 1);
}

#[test]
fn key_with_string_value_is_read() {
    let tokens = vec![ident("default"), eq(), string("Vec::new()")];
    let parsed = parse_meta_list(&tokens).unwrap();
    assert_eq!(parsed.len(), 1);
    assert!(matches!(
        parsed[0],
        MetaRef::NameValue(key, value) if key == "default" && value == "Vec::new()"
    ));
}

#[test]
fn key_with_list_is_read() {
    let tokens = vec![ident("name"), parens(vec![ident("getter")]), comma(), ident("x")];
    let parsed = parse_meta_list(&tokens).unwrap();
    assert_eq!(parsed.len(), 2);
    match &parsed[0] {
        MetaRef::List(key, inner) => {
            assert_eq!(key.as_str(), "name");
            assert_eq!(**inner, vec![ident("getter")]);
        }
        _ => panic!("a key with a list"),
    }
}

#[test]
fn read_meta_gives_the_next_position() {
    let tokens = vec![ident("a"), comma(), ident("default"), eq(), string("1"), comma()];
    assert!(matches!(read_meta(&tokens, 0), Some((MetaRef::Path(_), 1))));
    assert!(read_meta(&tokens, 1).is_none());
    assert!(matches!(read_meta(&tokens, 2), Some((MetaRef::NameValue(_, _), 5))));
    assert!(read_meta(&tokens, 6).is_none());
    assert!(read_meta(&tokens, 100).is_none());
}

#[test]
fn malformed_lists_are_rejected() {
    // a leading comma
    assert!(parse_meta_list(&vec![comma(), ident("getter")]).is_none());
    // two commas
    assert!(parse_meta_list(&vec![ident("getter"), comma(), comma()]).is_none());
    // no comma between entries
    assert!(parse_meta_list(&vec![ident("getter"), ident("setter")]).is_none());
    // a literal where a key is expected
    assert!(parse_meta_list(&vec![string("getter")]).is_none());
    assert!(parse_meta_list(&vec![Token::Literal("5".to_string())]).is_none());
    // `=` without a value
    assert!(parse_meta_list(&vec![ident("default"), eq()]).is_none());
    // `=` with a value that is no string
    assert!(parse_meta_list(&vec![ident("default"), eq(), Token::Literal("5".to_string())])
        .is_none());
    assert!(parse_meta_list(&vec![ident("default"), eq(), ident("x")]).is_none());
    // a list in other brackets
    assert!(parse_meta_list(&vec![
        ident("name"),
        Token::Group(Delimiter::Bracket, vec![ident("getter")])
    ])
    .is_none());
    // a path of two segments
    assert!(parse_meta_list(&vec![
        ident("a"),
        Token::Punct(':'),
        Token::Punct(':'),
        ident("b")
    ])
    .is_none());
}

#[test]
fn annotations_of_other_names_are_passed_over() {
    let attrs = vec![
        Attribute { path: "derive".to_string(), args: Some(vec![ident("Debug")]) },
        Attribute::builder(vec![ident("getter")]),
        Attribute { path: "doc".to_string(), args: None },
        Attribute { path: "serde".to_string(), args: Some(vec![comma(), comma()]) },
        Attribute::builder(vec![ident("skip")]),
    ];
    let metas = collect_builder_metas(&attrs).unwrap();
    assert_eq!(metas.len(), 2);
    assert!(has_bare_key(&metas, "getter"));
    assert!(has_bare_key(&metas, "skip"));
    assert!(!has_bare_key(&metas, "Debug"));
    assert!(!has_bare_key(&metas, "setter"));
}

// Field-level keys

#[test]
fn unannotated_field_is_required_and_takes_part() {
    let config = FieldAttributes::from_field(&field("f"), &[], &[]);
    assert_eq!(config, Ok(attrs(false, false, true, true, DefaultStrategy::Unset)));
}

#[test]
fn empty_annotation_changes_nothing() {
    assert_eq!(field_level(vec![]), Ok(attrs(false, false, true, true, DefaultStrategy::Unset)));
}

#[test]
fn each_key_sets_its_own_flag() {
    assert_eq!(
        field_level(vec![ident("getter")]),
        Ok(attrs(true, false, true, true, DefaultStrategy::Unset))
    );
    assert_eq!(
        field_level(vec![ident("setter")]),
        Ok(attrs(false, true, true, true, DefaultStrategy::Unset))
    );
    assert_eq!(
        field_level(vec![ident("skip")]),
        Ok(attrs(false, false, false, true, DefaultStrategy::Unset))
    );
    assert_eq!(
        field_level(vec![ident("optional")]),
        Ok(attrs(false, false, true, false, DefaultStrategy::Unset))
    );
    assert_eq!(
        field_level(vec![ident("default")]),
        Ok(attrs(false, false, true, false, DefaultStrategy::TraitDefault))
    );
    assert_eq!(
        field_level(vec![ident("default"), eq(), string("5")]),
        Ok(attrs(false, false, true, false, DefaultStrategy::Expression("5".to_string())))
    );
}

#[test]
fn keys_add_to_one_another() {
    assert_eq!(
        field_level(vec![
            ident("getter"),
            comma(),
            ident("setter"),
            comma(),
            ident("optional"),
            comma(),
            ident("getter"),
        ]),
        Ok(attrs(true, true, true, false, DefaultStrategy::Unset))
    );
}

#[test]
fn keys_of_several_annotations_add_up() {
    let config = FieldAttributes::from_field(
        &field("f"),
        &[],
        &[
            Attribute::builder(vec![ident("getter")]),
            Attribute { path: "allow".to_string(), args: Some(vec![ident("unused")]) },
            Attribute::builder(vec![ident("default"), eq(), string("1 + 1")]),
        ],
    );
    assert_eq!(
        config,
        Ok(attrs(true, false, true, false, DefaultStrategy::Expression("1 + 1".to_string())))
    );
}

#[test]
fn unknown_bare_keys_say_nothing() {
    assert_eq!(
        field_level(vec![ident("future_key"), comma(), ident("setter")]),
        Ok(attrs(false, true, true, true, DefaultStrategy::Unset))
    );
}

#[test]
fn first_declared_default_stands() {
    assert_eq!(
        field_level(vec![
            ident("default"),
            comma(),
            ident("default"),
            eq(),
            string("7"),
        ])
        .unwrap()
        .default,
        DefaultStrategy::TraitDefault
    );
    assert_eq!(
        field_level(vec![
            ident("default"),
            eq(),
            string("7"),
            comma(),
            ident("default"),
            eq(),
            string("8"),
            comma(),
            ident("default"),
        ])
        .unwrap()
        .default,
        DefaultStrategy::Expression("7".to_string())
    );
}

#[test]
fn malformed_field_annotations_name_the_field() {
    // an unparsable key
    assert_eq!(field_level(vec![string("getter")]), malformed_field());
    // a value on a key that takes none
    assert_eq!(field_level(vec![ident("getter"), eq(), string("yes")]), malformed_field());
    // a list on a key
    assert_eq!(field_level(vec![ident("getter"), parens(vec![])]), malformed_field());
    // a value that is no string
    assert_eq!(
        field_level(vec![ident("default"), eq(), Token::Literal("10_000".to_string())]),
        malformed_field()
    );
    // no parenthesized arguments at all
    assert_eq!(
        FieldAttributes::from_field(
            &field("f"),
            &[],
            &[Attribute { path: "builder".to_string(), args: None }]
        ),
        malformed_field()
    );
    // the second annotation is malformed
    assert_eq!(
        FieldAttributes::from_field(
            &field("f"),
            &[],
            &[Attribute::builder(vec![ident("getter")]), Attribute::builder(vec![comma()])]
        ),
        malformed_field()
    );
}

// Type-level grants

fn grant(name: &str, getter: bool, setter: bool) -> FieldConfig {
    FieldConfig { name: name.to_string(), getter, setter }
}

#[test]
fn grants_are_read_in_order() {
    let on_type = [Attribute::builder(vec![
        ident("a"),
        parens(vec![ident("getter"), comma(), ident("setter")]),
        comma(),
        ident("b"),
        parens(vec![ident("getter")]),
        comma(),
        ident("c"),
        parens(vec![]),
        comma(),
    ])];
    assert_eq!(
        FieldConfigs::parse(&on_type),
        Some(FieldConfigs(vec![
            grant("a", true, true),
            grant("b", true, false),
            grant("c", false, false)
        ]))
    );
}

#[test]
fn grant_keys_other_than_accessors_are_passed_over() {
    let tokens =
        vec![ident("a"), parens(vec![ident("other"), comma(), ident("setter"), comma()])];
    let metas = parse_meta_list(&tokens).unwrap();
    assert_eq!(FieldConfig::parse(&metas[0]), Some(grant("a", false, true)));

    let tokens = vec![
        ident("a"),
        parens(vec![
            ident("note"),
            eq(),
            string("x"),
            comma(),
            ident("nested"),
            parens(vec![ident("getter")]),
        ]),
    ];
    let metas = parse_meta_list(&tokens).unwrap();
    assert_eq!(FieldConfig::parse(&metas[0]), Some(grant("a", false, false)));
}

#[test]
fn malformed_grants_are_rejected() {
    // a bare key is no grant
    assert_eq!(FieldConfigs::parse(&[Attribute::builder(vec![ident("getter")])]), None);
    // a key with a value is no grant
    assert_eq!(
        FieldConfigs::parse(&[Attribute::builder(vec![ident("a"), eq(), string("getter")])]),
        None
    );
    // an unparsable nested list
    assert_eq!(
        FieldConfigs::parse(&[Attribute::builder(vec![
            ident("a"),
            parens(vec![ident("getter"), ident("setter")])
        ])]),
        None
    );
    // no parenthesized arguments at all
    assert_eq!(
        FieldConfigs::parse(&[Attribute { path: "builder".to_string(), args: None }]),
        None
    );
}

#[test]
fn grants_are_merged_into_the_field_they_name() {
    let on_type = [Attribute::builder(vec![
        ident("a"),
        parens(vec![ident("getter")]),
        comma(),
        ident("f"),
        parens(vec![ident("setter")]),
    ])];
    assert_eq!(
        FieldAttributes::from_field(&field("f"), &on_type, &[]),
        Ok(attrs(false, true, true, true, DefaultStrategy::Unset))
    );
    assert_eq!(
        FieldAttributes::from_field(&field("a"), &on_type, &[]),
        Ok(attrs(true, false, true, true, DefaultStrategy::Unset))
    );
    // a field that no grant names
    assert_eq!(
        FieldAttributes::from_field(&field("z"), &on_type, &[]),
        Ok(attrs(false, false, true, true, DefaultStrategy::Unset))
    );
}

#[test]
fn several_grants_for_one_field_add_up() {
    let on_type = [
        Attribute::builder(vec![ident("f"), parens(vec![ident("getter")])]),
        Attribute { path: "derive".to_string(), args: Some(vec![ident("Debug")]) },
        Attribute::builder(vec![ident("f"), parens(vec![ident("setter")])]),
    ];
    let grants = FieldConfigs::parse(&on_type).unwrap();
    assert!(grants.grants_getter("f"));
    assert!(grants.grants_setter("f"));
    assert!(!grants.grants_getter("g"));
    assert_eq!(
        FieldAttributes::from_field(&field("f"), &on_type, &[]),
        Ok(attrs(true, true, true, true, DefaultStrategy::Unset))
    );
}

#[test]
fn optional_field_with_granted_getter_is_both() {
    let on_type = [Attribute::builder(vec![ident("f"), parens(vec![ident("getter")])])];
    let on_field = [Attribute::builder(vec![ident("optional")])];
    assert_eq!(
        FieldAttributes::from_field(&field("f"), &on_type, &on_field),
        Ok(attrs(true, false, true, false, DefaultStrategy::Unset))
    );
}

#[test]
fn grants_never_take_an_accessor_away() {
    let on_type = [Attribute::builder(vec![ident("f"), parens(vec![])])];
    let on_field = [Attribute::builder(vec![ident("getter"), comma(), ident("setter")])];
    assert_eq!(
        FieldAttributes::from_field(&field("f"), &on_type, &on_field),
        Ok(attrs(true, true, true, true, DefaultStrategy::Unset))
    );
}

#[test]
fn merge_leaves_the_rest_alone() {
    let own = attrs(false, true, false, false, DefaultStrategy::Expression("x".to_string()));
    let grants = FieldConfigs(vec![grant("f", true, false), grant("g", false, true)]);
    assert_eq!(
        own.merge(&grants, "f"),
        attrs(true, true, false, false, DefaultStrategy::Expression("x".to_string()))
    );
}

#[test]
fn field_errors_come_before_type_errors() {
    let bad_type = [Attribute::builder(vec![ident("getter")])];
    let bad_field = [Attribute::builder(vec![comma()])];
    assert_eq!(
        FieldAttributes::from_field(&field("f"), &bad_type, &bad_field),
        malformed_field()
    );
    assert_eq!(
        FieldAttributes::from_field(&field("f"), &bad_type, &[]),
        Err(SynthesisError::MalformedStructAttribute)
    );
}
