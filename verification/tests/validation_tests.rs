use mcp_probe::json::{JsonNumber, JsonValue};
use mcp_probe::validation::{
    NumberReading, ParameterValidator, ValidationError, auto_fix_url, parse_bool_word, parse_i64,
    validate_parameters, validate_parameters_strict,
};

fn obj(entries: Vec<(&str, JsonValue)>) -> JsonValue {
    JsonValue::object(entries.into_iter().map(|(k, v)| (k.to_string(), v)).collect())
}

fn s(t: &str) -> JsonValue {
    JsonValue::String(t.to_string())
}

fn arr(items: Vec<JsonValue>) -> JsonValue {
    JsonValue::array(items)
}

fn field<'a>(v: &'a JsonValue, key: &str) -> &'a JsonValue {
    v.get(key).expect("member present")
}

fn text_of(v: &JsonValue) -> &str {
    v.as_str().expect("a string")
}

/// How the standard library reads each text as a floating-point number,
/// in the notation of the library's JSON numbers.
fn readings_for(texts: &[&str]) -> Vec<(String, NumberReading)> {
    texts
        .iter()
        .map(|t| {
            let reading = match t.parse::<f64>() {
                Ok(f) if f.is_finite() => NumberReading::Finite(f.to_string()),
                Ok(_) => NumberReading::NotFinite,
                Err(_) => NumberReading::NotANumber,
            };
            (t.to_string(), reading)
        })
        .collect()
}

fn url_schema(required: bool) -> JsonValue {
    let mut entries = vec![
        ("type", s("object")),
        (
            "properties",
            obj(vec![("url", obj(vec![("type", s("string")), ("description", s("The URL to navigate to"))]))]),
        ),
    ];
    if required {
        entries.push(("required", arr(vec![s("url")])));
    }
    obj(entries)
}

#[test]
fn test_url_auto_prefixing() {
    let schema = url_schema(true);
    let params = obj(vec![("url", s("www.google.com"))]);
    let validator = ParameterValidator::new();
    let result = validator.validate(&schema, &params, &readings_for(&["www.google.com"]));

    assert!(result.is_valid);
    assert_eq!(text_of(field(&result.validated_params, "url")), "https://www.google.com");
    assert!(!result.transformations.is_empty());
}

#[test]
fn test_localhost_url_prefixing() {
    let schema = url_schema(false);
    let params = obj(vec![("url", s("localhost:3000"))]);
    let validator = ParameterValidator::new();
    let result = validator.validate(&schema, &params, &readings_for(&["localhost:3000"]));

    assert!(result.is_valid);
    assert_eq!(text_of(field(&result.validated_params, "url")), "http://localhost:3000");
}

#[test]
fn test_type_coercion() {
    let schema = obj(vec![
        ("type", s("object")),
        (
            "properties",
            obj(vec![
                ("width", obj(vec![("type", s("number"))])),
                ("height", obj(vec![("type", s("integer"))])),
                ("visible", obj(vec![("type", s("boolean"))])),
            ]),
        ),
    ]);
    let params = obj(vec![("width", s("800.5")), ("height", s("600")), ("visible", s("true"))]);

    let validator = ParameterValidator::new();
    let result = validator.validate(&schema, &params, &readings_for(&["800.5", "600", "true"]));

    assert!(result.is_valid);
    assert!(matches!(field(&result.validated_params, "width"), JsonValue::Number(JsonNumber::Float(t)) if t == "800.5"));
    assert!(matches!(field(&result.validated_params, "height"), JsonValue::Number(JsonNumber::Int(600))));
    assert!(matches!(field(&result.validated_params, "visible"), JsonValue::Bool(true)));
    assert_eq!(result.transformations.len(), 3);
}

#[test]
fn test_required_field_validation() {
    let schema = obj(vec![
        ("type", s("object")),
        ("properties", obj(vec![("url", obj(vec![("type", s("string"))]))])),
        ("required", arr(vec![s("url")])),
    ]);
    let params = obj(vec![]);
    let validator = ParameterValidator::new();
    let result = validator.validate(&schema, &params, &Vec::new());

    assert!(!result.is_valid);
    assert!(result
        .errors
        .iter()
        .any(|e| matches!(e, ValidationError::MissingRequired { field } if field == "url")));
}

#[test]
fn test_strict_mode_no_transforms() {
    let schema = obj(vec![
        ("type", s("object")),
        ("properties", obj(vec![("url", obj(vec![("type", s("string"))]))])),
    ]);
    let params = obj(vec![("url", s("www.google.com"))]);
    let validator = ParameterValidator::strict();
    let result = validator.validate(&schema, &params, &readings_for(&["www.google.com"]));

    assert_eq!(text_of(field(&result.validated_params, "url")), "www.google.com");
    assert!(result.transformations.is_empty());
}

#[test]
fn schema_that_is_not_an_object_is_refused() {
    let result = validate_parameters(&s("nope"), &obj(vec![]), &Vec::new());
    assert!(!result.is_valid);
    assert_eq!(result.errors.len(), 1);
    assert!(matches!(&result.errors[0], ValidationError::InvalidSchema(m) if m == "Schema must be a JSON object"));
    assert_eq!(result.errors[0].to_string(), "JSON Schema is invalid: Schema must be a JSON object");
}

#[test]
fn wrong_type_is_reported_with_both_types() {
    let schema = obj(vec![
        ("type", s("object")),
        ("properties", obj(vec![("count", obj(vec![("type", s("integer"))]))])),
    ]);
    let params = obj(vec![("count", JsonValue::Number(JsonNumber::Float("2.5".to_string())))]);
    let result = validate_parameters_strict(&schema, &params);
    assert!(!result.is_valid);
    match &result.errors[0] {
        ValidationError::ValidationFailed { field, reason } => {
            assert_eq!(field, "count");
            assert_eq!(reason, "Expected type 'integer' but got 'number'");
        }
        other => panic!("unexpected error {:?}", other),
    }
    assert_eq!(
        result.errors[0].to_string(),
        "Parameter 'count' validation failed: Expected type 'integer' but got 'number'"
    );
    // A whole floating-point number is an integer.
    let whole = obj(vec![("count", JsonValue::Number(JsonNumber::Float("600".to_string())))]);
    assert!(validate_parameters_strict(&schema, &whole).is_valid);
}

#[test]
fn type_error_and_missing_field_are_both_reported() {
    let schema = obj(vec![
        ("type", s("object")),
        (
            "properties",
            obj(vec![("a", obj(vec![("type", s("boolean"))])), ("b", obj(vec![("type", s("string"))]))]),
        ),
        ("required", arr(vec![s("a"), s("b")])),
    ]);
    let params = obj(vec![("a", s("maybe"))]);
    let result = validate_parameters(&schema, &params, &readings_for(&["maybe"]));
    assert!(!result.is_valid);
    assert_eq!(result.errors.len(), 2);
    assert!(matches!(&result.errors[0], ValidationError::ValidationFailed { field, reason }
        if field == "a" && reason == "Expected type 'boolean' but got 'string'"));
    assert!(matches!(&result.errors[1], ValidationError::MissingRequired { field } if field == "b"));
    assert_eq!(result.errors[1].to_string(), "Parameter 'b' is required but missing");
}

#[test]
fn transformation_notes_name_the_change() {
    let schema = obj(vec![
        ("type", s("object")),
        (
            "properties",
            obj(vec![
                ("flag", obj(vec![("type", s("boolean"))])),
                ("n", obj(vec![("type", s("integer"))])),
                ("site_url", obj(vec![("type", s("string")), ("description", s("Where to go"))])),
            ]),
        ),
    ]);
    let params = obj(vec![("flag", s("OFF")), ("n", s("-42")), ("site_url", s("127.0.0.1:8080"))]);
    let result = validate_parameters(&schema, &params, &readings_for(&["OFF", "-42", "127.0.0.1:8080"]));
    assert!(result.is_valid);
    assert_eq!(
        result.transformations,
        vec![
            "Converted string to boolean in 'flag': 'OFF' → false".to_string(),
            "Converted string to integer in 'n': '-42' → -42".to_string(),
            "Auto-prefixed URL in 'site_url': '127.0.0.1:8080' → 'http://127.0.0.1:8080'".to_string(),
        ]
    );
    assert!(matches!(field(&result.validated_params, "n"), JsonValue::Number(JsonNumber::Int(-42))));
}

#[test]
fn url_fixing_rules() {
    assert_eq!(auto_fix_url(""), None);
    assert_eq!(auto_fix_url("http://a.b"), None);
    assert_eq!(auto_fix_url("https://a.b"), None);
    assert_eq!(auto_fix_url("localhost"), Some("http://localhost".to_string()));
    assert_eq!(auto_fix_url("0.0.0.0:1"), Some("http://0.0.0.0:1".to_string()));
    assert_eq!(auto_fix_url("example.com/x"), Some("https://example.com/x".to_string()));
    assert_eq!(auto_fix_url("example com"), None);
    assert_eq!(auto_fix_url("nodots"), None);
}

#[test]
fn integer_and_boolean_words() {
    assert_eq!(parse_i64("+17"), Some(17));
    assert_eq!(parse_i64("-9223372036854775808"), Some(i64::MIN));
    assert_eq!(parse_i64("9223372036854775807"), Some(i64::MAX));
    assert_eq!(parse_i64("9223372036854775808"), None);
    assert_eq!(parse_i64("99999999999999999999999"), None);
    assert_eq!(parse_i64("-"), None);
    assert_eq!(parse_i64(""), None);
    assert_eq!(parse_i64("12a"), None);
    assert_eq!(parse_bool_word("Yes"), Some(true));
    assert_eq!(parse_bool_word("on"), Some(true));
    assert_eq!(parse_bool_word("0"), Some(false));
    assert_eq!(parse_bool_word("nah"), None);
}

#[test]
fn parameter_hints_follow_the_schema() {
    let schema = obj(vec![
        ("type", s("object")),
        (
            "properties",
            obj(vec![
                (
                    "name",
                    obj(vec![
                        ("type", s("string")),
                        ("description", s("Who")),
                        ("minLength", JsonValue::Number(JsonNumber::Int(1))),
                        ("maxLength", JsonValue::Number(JsonNumber::Int(-3))),
                        ("enum", arr(vec![s("a"), s("b")])),
                        ("format", s("email")),
                    ]),
                ),
                ("size", obj(vec![("default", JsonValue::Number(JsonNumber::Int(3))), ("pattern", s("^[0-9]+$"))])),
            ]),
        ),
        ("required", arr(vec![s("name")])),
    ]);
    let hints = ParameterValidator::new().extract_parameter_hints(&schema);
    assert_eq!(hints.len(), 2);
    assert_eq!(hints[0].name, "name");
    assert_eq!(hints[0].param_type, "string");
    assert_eq!(hints[0].description.as_deref(), Some("Who"));
    assert!(hints[0].required);
    assert_eq!(hints[0].min_length, Some(1));
    assert_eq!(hints[0].max_length, None);
    assert_eq!(hints[0].enum_values.as_ref().map(|v| v.len()), Some(2));
    assert_eq!(hints[0].format.as_deref(), Some("email"));
    assert_eq!(hints[1].name, "size");
    assert_eq!(hints[1].param_type, "string");
    assert!(!hints[1].required);
    assert!(matches!(hints[1].default_value, Some(JsonValue::Number(JsonNumber::Int(3)))));
    assert_eq!(hints[1].pattern.as_deref(), Some("^[0-9]+$"));
    assert!(hints[1].enum_values.is_none());

    let no_props = obj(vec![("type", s("object"))]);
    assert!(ParameterValidator::new().extract_parameter_hints(&no_props).is_empty());
}

#[test]
fn strict_mode_refuses_unknown_properties() {
    let schema = obj(vec![("type", s("object")), ("properties", obj(vec![]))]);
    let params = obj(vec![("x", JsonValue::Number(JsonNumber::Int(1)))]);
    let result = ParameterValidator::strict().validate(&schema, &params, &Vec::new());
    assert!(!result.is_valid);
    assert_eq!(result.errors.len(), 1);
    assert_eq!(
        result.errors[0].to_string(),
        "Parameter 'x' validation failed: Unknown property not allowed in strict mode"
    );
    // The lenient validator lets the same parameters through.
    assert!(ParameterValidator::new().validate(&schema, &params, &Vec::new()).is_valid);
}
