use env_schema::{
    parse, resolve, resolve_root, Env, FieldDescriptor, FieldKind, FromEnvError, IntType,
    ScalarType, ScalarValue, SchemaError, SchemaNode, Value,
};

fn env(pairs: &[(&str, &str)]) -> Env {
    let mut e = Env::new();
    for (name, value) in pairs {
        e.set(name, value);
    }
    e
}

fn text(s: &str) -> Value {
    Value::Scalar(ScalarValue::Text(s.to_string()))
}

fn missing(name: &str) -> FromEnvError {
    FromEnvError::MissingEnvVar { var_name: name.to_string() }
}

fn unparsable(name: &str, ty: &str, value: &str) -> FromEnvError {
    FromEnvError::ParsingFailure {
        var_name: name.to_string(),
        expected_type: ty.to_string(),
        str_value: value.to_string(),
    }
}

fn database() -> SchemaNode {
    SchemaNode::new(vec![
        FieldDescriptor::scalar("host", ScalarType::Text),
        FieldDescriptor::scalar("port", ScalarType::Int(IntType::U16)).with_default("5432"),
    ])
    .unwrap()
}

#[test]
fn scenario_no_prefix_database_uses_default_port() {
    let schema = SchemaNode::with_prefix(
        "APP_",
        vec![
            FieldDescriptor::scalar("name", ScalarType::Text),
            FieldDescriptor::nested("database", database()).without_prefix(),
        ],
    )
    .unwrap();
    let e = env(&[("APP_NAME", "svc"), ("APP_HOST", "db1")]);
    let expected = Value::Node(vec![
        text("svc"),
        Value::Node(vec![text("db1"), Value::Scalar(ScalarValue::U16(5432))]),
    ]);
    assert_eq!(resolve_root(&schema, &e).unwrap(), expected);
}

#[test]
fn scenario_prefixed_database_reads_all_variables() {
    let schema = SchemaNode::with_prefix(
        "APP_",
        vec![
            FieldDescriptor::scalar("name", ScalarType::Text),
            FieldDescriptor::nested("database", database()),
        ],
    )
    .unwrap();
    let e = env(&[("APP_NAME", "svc"), ("APP_DATABASE_HOST", "db1"), ("APP_DATABASE_PORT", "9999")]);
    let expected = Value::Node(vec![
        text("svc"),
        Value::Node(vec![text("db1"), Value::Scalar(ScalarValue::U16(9999))]),
    ]);
    assert_eq!(resolve_root(&schema, &e).unwrap(), expected);
}

fn count_schema() -> SchemaNode {
    SchemaNode::new(vec![FieldDescriptor::scalar("count", ScalarType::Int(IntType::I32))]).unwrap()
}

#[test]
fn scenario_missing_count() {
    assert_eq!(resolve_root(&count_schema(), &Env::new()), Err(missing("COUNT")));
}

#[test]
fn scenario_unparsable_count() {
    let e = env(&[("COUNT", "abc")]);
    assert_eq!(resolve_root(&count_schema(), &e), Err(unparsable("COUNT", "i32", "abc")));
}

#[test]
fn readable_schema_resolves_to_parsed_leaves() {
    let schema = SchemaNode::new(vec![
        FieldDescriptor::scalar("flag", ScalarType::Bool),
        FieldDescriptor::scalar("level", ScalarType::Int(IntType::I8)).with_default("-3"),
        FieldDescriptor::optional("letter", ScalarType::Char),
        FieldDescriptor::nested("inner", SchemaNode::new(vec![FieldDescriptor::scalar("size", ScalarType::Int(IntType::Usize))]).unwrap()),
    ])
    .unwrap();
    let e = env(&[("FLAG", "false"), ("LETTER", "z"), ("INNER_SIZE", "+17")]);
    let expected = Value::Node(vec![
        Value::Scalar(ScalarValue::Bool(false)),
        Value::Scalar(ScalarValue::I8(-3)),
        Value::Optional(Some(ScalarValue::Char('z'))),
        Value::Node(vec![Value::Scalar(ScalarValue::Usize(17))]),
    ]);
    assert_eq!(resolve_root(&schema, &e).unwrap(), expected);
}

#[test]
fn first_failure_in_declaration_order_wins() {
    let schema = SchemaNode::new(vec![
        FieldDescriptor::scalar("a", ScalarType::Int(IntType::U8)),
        FieldDescriptor::scalar("b", ScalarType::Text),
    ])
    .unwrap();
    // Both fail; the first declared field decides.
    let e = env(&[("A", "256")]);
    assert_eq!(resolve_root(&schema, &e), Err(unparsable("A", "u8", "256")));
    let e = env(&[("A", "7")]);
    assert_eq!(resolve_root(&schema, &e), Err(missing("B")));
}

#[test]
fn missing_required_names_the_composed_variable() {
    let schema = SchemaNode::with_prefix("SVC_", vec![FieldDescriptor::scalar("timeout", ScalarType::Text)]).unwrap();
    assert_eq!(resolve(&schema, "ROOT", &Env::new()), Err(missing("ROOT_SVC_TIMEOUT")));
}

#[test]
fn optional_absent_is_none_never_error() {
    let schema = SchemaNode::new(vec![FieldDescriptor::optional("maybe", ScalarType::Int(IntType::I64))]).unwrap();
    let v = resolve_root(&schema, &Env::new()).unwrap();
    assert_eq!(v, Value::Node(vec![Value::Optional(None)]));
}

#[test]
fn unparsable_nested_optional_names_variable_and_text() {
    let inner = SchemaNode::new(vec![FieldDescriptor::optional("ratio", ScalarType::Int(IntType::U32))]).unwrap();
    let schema = SchemaNode::new(vec![FieldDescriptor::nested("inner", inner)]).unwrap();
    let e = env(&[("INNER_RATIO", "-1")]);
    assert_eq!(resolve_root(&schema, &e), Err(unparsable("INNER_RATIO", "u32", "-1")));
}

#[test]
fn var_reads_the_same_variable_under_any_prefix() {
    let schema = SchemaNode::new(vec![FieldDescriptor::scalar("field", ScalarType::Text).with_var("X")]).unwrap();
    let e = env(&[("X", "x-value"), ("A_FIELD", "wrong"), ("A_B_C_FIELD", "wrong")]);
    assert_eq!(resolve(&schema, "A", &e).unwrap(), Value::Node(vec![text("x-value")]));
    assert_eq!(resolve(&schema, "A_B_C", &e).unwrap(), Value::Node(vec![text("x-value")]));
    assert_eq!(resolve(&schema, "A", &Env::new()), Err(missing("X")));
    assert_eq!(resolve(&schema, "A_B_C", &Env::new()), Err(missing("X")));
}

#[test]
fn own_prefix_composes_like_a_spelled_out_prefix() {
    let composed = SchemaNode::with_prefix(
        "P_",
        vec![
            FieldDescriptor::scalar("host", ScalarType::Text),
            FieldDescriptor::scalar("port", ScalarType::Int(IntType::U16)).with_rename("listen"),
        ],
    )
    .unwrap();
    let flat = SchemaNode::new(vec![
        FieldDescriptor::scalar("Q_P_host", ScalarType::Text),
        FieldDescriptor::scalar("port", ScalarType::Int(IntType::U16)).with_rename("Q_P_listen"),
    ])
    .unwrap();
    let e = env(&[("Q_P_HOST", "h"), ("Q_P_LISTEN", "80")]);
    let expected = Value::Node(vec![text("h"), Value::Scalar(ScalarValue::U16(80))]);
    assert_eq!(resolve(&composed, "Q", &e).unwrap(), expected);
    assert_eq!(resolve_root(&flat, &e).unwrap(), expected);
    assert_eq!(resolve(&composed, "Q", &Env::new()), resolve_root(&flat, &Env::new()));
}

#[test]
fn no_prefix_field_name_never_reaches_descendants() {
    let inner = SchemaNode::new(vec![FieldDescriptor::scalar("key", ScalarType::Text)]).unwrap();
    let a = SchemaNode::new(vec![FieldDescriptor::nested("alpha", inner).without_prefix()]).unwrap();
    let inner = SchemaNode::new(vec![FieldDescriptor::scalar("key", ScalarType::Text)]).unwrap();
    let b = SchemaNode::new(vec![FieldDescriptor::nested("beta", inner).with_rename("gamma").without_prefix()]).unwrap();
    let e = env(&[("TOP_KEY", "k"), ("TOP_ALPHA_KEY", "wrong")]);
    let expected = Value::Node(vec![Value::Node(vec![text("k")])]);
    assert_eq!(resolve(&a, "TOP", &e).unwrap(), expected);
    assert_eq!(resolve(&b, "TOP", &e).unwrap(), expected);
}

#[test]
fn own_prefix_trims_a_single_trailing_underscore() {
    let schema = SchemaNode::with_prefix("APP__", vec![FieldDescriptor::scalar("name", ScalarType::Text)]).unwrap();
    assert_eq!(resolve_root(&schema, &Env::new()), Err(missing("APP__NAME")));
    let schema = SchemaNode::with_prefix("APP", vec![FieldDescriptor::scalar("name", ScalarType::Text)]).unwrap();
    assert_eq!(resolve(&schema, "X", &Env::new()), Err(missing("X_APP_NAME")));
}

#[test]
fn fragments_use_unicode_upper_case() {
    let schema = SchemaNode::new(vec![FieldDescriptor::scalar("straße", ScalarType::Text)]).unwrap();
    assert_eq!(resolve_root(&schema, &Env::new()), Err(missing("STRASSE")));
    let field = FieldDescriptor::scalar("mixed_Case9", ScalarType::Text).with_rename("émile");
    assert_eq!(field.fragment(), "ÉMILE");
    assert_eq!(field.variable_name("P"), "P_ÉMILE");
}

#[test]
fn default_that_does_not_parse_is_a_parsing_failure() {
    let schema = SchemaNode::new(vec![FieldDescriptor::scalar("port", ScalarType::Int(IntType::U16)).with_default("http")]).unwrap();
    assert_eq!(resolve_root(&schema, &Env::new()), Err(unparsable("PORT", "u16", "http")));
}

#[test]
fn later_assignment_replaces_earlier() {
    let e = Env::new().with("K", "1").with("K", "2");
    assert_eq!(e.get("K"), Some(&"2".to_string()));
    assert_eq!(e.get("k"), None);
}

#[test]
fn integer_parsing_follows_decimal_rules() {
    let i8t = ScalarType::Int(IntType::I8);
    let u8t = ScalarType::Int(IntType::U8);
    let i128t = ScalarType::Int(IntType::I128);
    let u128t = ScalarType::Int(IntType::U128);
    assert_eq!(parse(i8t, "-128"), Some(ScalarValue::I8(-128)));
    assert_eq!(parse(i8t, "128"), None);
    assert_eq!(parse(i8t, "+127"), Some(ScalarValue::I8(127)));
    assert_eq!(parse(i8t, "-0"), Some(ScalarValue::I8(0)));
    assert_eq!(parse(u8t, "-0"), None);
    assert_eq!(parse(u8t, "+"), None);
    assert_eq!(parse(u8t, ""), None);
    assert_eq!(parse(u8t, " 1"), None);
    assert_eq!(parse(u8t, "007"), Some(ScalarValue::U8(7)));
    assert_eq!(parse(i128t, "-170141183460469231731687303715884105728"), Some(ScalarValue::I128(i128::MIN)));
    assert_eq!(parse(i128t, "170141183460469231731687303715884105728"), None);
    assert_eq!(parse(u128t, "340282366920938463463374607431768211455"), Some(ScalarValue::U128(u128::MAX)));
    assert_eq!(parse(u128t, "340282366920938463463374607431768211456"), None);
    assert_eq!(parse(u128t, "99999999999999999999999999999999999999999x"), None);
}

#[test]
fn bool_char_and_text_parsing() {
    assert_eq!(parse(ScalarType::Bool, "True"), None);
    assert_eq!(parse(ScalarType::Bool, "false"), Some(ScalarValue::Bool(false)));
    assert_eq!(parse(ScalarType::Char, "é"), Some(ScalarValue::Char('é')));
    assert_eq!(parse(ScalarType::Char, ""), None);
    assert_eq!(parse(ScalarType::Char, "ab"), None);
    assert_eq!(parse(ScalarType::Text, " as is "), Some(ScalarValue::Text(" as is ".to_string())));
}

#[test]
fn type_names_match_rust_spelling() {
    assert_eq!(ScalarType::Text.name(), "String");
    assert_eq!(ScalarType::Bool.name(), "bool");
    assert_eq!(ScalarType::Char.name(), "char");
    assert_eq!(ScalarType::Int(IntType::Isize).name(), "isize");
    assert_eq!(ScalarType::Int(IntType::U64).name(), "u64");
}

#[test]
fn error_messages() {
    assert_eq!(missing("PORT").message(), "missing required environment variable: PORT");
    assert_eq!(
        unparsable("PORT", "u16", "x").message(),
        "failed to parse environment variable PORT as u16"
    );
}

#[test]
fn schema_rejects_default_on_optional() {
    let r = SchemaNode::new(vec![FieldDescriptor::optional("level", ScalarType::Text).with_default("x")]);
    assert_eq!(r.err(), Some(SchemaError::DefaultOnOptional { field: "level".to_string() }));
}

#[test]
fn schema_rejects_default_and_var_on_nested() {
    let r = SchemaNode::new(vec![FieldDescriptor::nested("db", database()).with_default("x")]);
    assert_eq!(r.err(), Some(SchemaError::DefaultOnNested { field: "db".to_string() }));
    let r = SchemaNode::with_prefix("APP_", vec![
        FieldDescriptor::scalar("ok", ScalarType::Text),
        FieldDescriptor::nested("db", database()).with_var("DB"),
    ]);
    assert_eq!(r.err(), Some(SchemaError::VarOnNested { field: "db".to_string() }));
}

#[test]
fn schema_checks_nested_structures_built_directly() {
    let inner = SchemaNode {
        fields: vec![FieldDescriptor::optional("deep", ScalarType::Bool).with_default("true")],
        own_prefix: None,
    };
    assert_eq!(inner.validate(), Err(SchemaError::DefaultOnOptional { field: "deep".to_string() }));
    let r = SchemaNode::new(vec![FieldDescriptor {
        name: "outer".to_string(),
        kind: FieldKind::Nested(inner),
        var: None,
        rename: None,
        default: None,
        no_prefix: false,
    }]);
    assert_eq!(r.err(), Some(SchemaError::DefaultOnOptional { field: "deep".to_string() }));
    assert_eq!(database().validate(), Ok(()));
}

#[test]
fn empty_schema_resolves_to_empty_node() {
    let schema = SchemaNode::new(vec![]).unwrap();
    assert_eq!(resolve_root(&schema, &Env::new()).unwrap(), Value::Node(vec![]));
}
