//! Checking tool parameters against a JSON Schema, and repairing the
//! common mistakes of hand-written parameters: a URL without its scheme,
//! and numbers or booleans written as text.
use vstd::prelude::*;
use crate::json::{JsonArray, JsonNumber, JsonObject, JsonValue, JsonView, jview, aview, oview,
    ov_lookup, ov_insert, jv_field, lemma_oview_lookup, lemma_oview_insert};
use crate::text::{is_ascii_text, lemma_lowercase_ascii, chars_of, owned, push_str, str_equal, starts_with, contains_str, contains_char,
    to_lowercase, lowercase, is_prefix, contains_seq, i64_to_decimal, int_decimal};

verus! {

/// Why parameters were refused.
#[derive(Debug)]
pub enum ValidationError {
    /// The schema could not be compiled
    SchemaError(String),
    /// A required parameter is absent
    MissingRequired { field: String },
    /// A parameter does not match its schema
    ValidationFailed { field: String, reason: String },
    /// A parameter could not be converted
    TransformationFailed { field: String, reason: String },
    /// The schema itself is malformed
    InvalidSchema(String),
}

/// The content of a [`ValidationError`].
pub enum ValidationErrorView {
    SchemaError(Seq<char>),
    MissingRequired(Seq<char>),
    ValidationFailed(Seq<char>, Seq<char>),
    TransformationFailed(Seq<char>, Seq<char>),
    InvalidSchema(Seq<char>),
}

impl View for ValidationError {
    type V = ValidationErrorView;

    open spec fn view(&self) -> ValidationErrorView {
        match self {
            ValidationError::SchemaError(s) => ValidationErrorView::SchemaError(s@),
            ValidationError::MissingRequired { field } => ValidationErrorView::MissingRequired(field@),
            ValidationError::ValidationFailed { field, reason } => ValidationErrorView::ValidationFailed(field@, reason@),
            ValidationError::TransformationFailed { field, reason } => ValidationErrorView::TransformationFailed(field@, reason@),
            ValidationError::InvalidSchema(s) => ValidationErrorView::InvalidSchema(s@),
        }
    }
}

/// The text that describes an error.
pub open spec fn validation_error_text(e: ValidationErrorView) -> Seq<char> {
    match e {
        ValidationErrorView::SchemaError(s) => "Schema compilation failed: "@ + s,
        ValidationErrorView::MissingRequired(f) => "Parameter '"@ + f + "' is required but missing"@,
        ValidationErrorView::ValidationFailed(f, r) => "Parameter '"@ + f + "' validation failed: "@ + r,
        ValidationErrorView::TransformationFailed(f, r) => "Value transformation failed for '"@ + f + "': "@ + r,
        ValidationErrorView::InvalidSchema(s) => "JSON Schema is invalid: "@ + s,
    }
}

impl ValidationError {
    /// The text that describes the error.
    pub fn to_string(&self) -> (r: String)
        ensures
            r@ == validation_error_text(self@),
    {
        match self {
            ValidationError::SchemaError(s) => {
                let mut r = owned("Schema compilation failed: ");
                push_str(&mut r, s.as_str());
                r
            },
            ValidationError::MissingRequired { field } => {
                let mut r = owned("Parameter '");
                push_str(&mut r, field.as_str());
                push_str(&mut r, "' is required but missing");
                r
            },
            ValidationError::ValidationFailed { field, reason } => {
                let mut r = owned("Parameter '");
                push_str(&mut r, field.as_str());
                push_str(&mut r, "' validation failed: ");
                push_str(&mut r, reason.as_str());
                r
            },
            ValidationError::TransformationFailed { field, reason } => {
                let mut r = owned("Value transformation failed for '");
                push_str(&mut r, field.as_str());
                push_str(&mut r, "': ");
                push_str(&mut r, reason.as_str());
                r
            },
            ValidationError::InvalidSchema(s) => {
                let mut r = owned("JSON Schema is invalid: ");
                push_str(&mut r, s.as_str());
                r
            },
        }
    }
}

/// What reading a text as a floating-point number gives.
#[derive(Debug)]
pub enum NumberReading {
    /// The text is not a number
    NotANumber,
    /// A finite number, in the notation of this library's JSON numbers
    Finite(String),
    /// An infinite or undefined number
    NotFinite,
}

/// The reading given for a text: the first entry for it, and "not a
/// number" when there is none.
pub open spec fn reading_for(readings: Seq<(String, NumberReading)>, s: Seq<char>) -> NumberReading
    decreases readings.len(),
{
    if readings.len() == 0 {
        NumberReading::NotANumber
    } else if readings[0].0@ == s {
        readings[0].1
    } else {
        reading_for(readings.drop_first(), s)
    }
}

/// Whether a character is an ASCII decimal digit.
pub open spec fn is_digit(c: char) -> bool {
    '0' <= c <= '9'
}

/// The value of a sequence of decimal digits.
pub open spec fn digits_value(d: Seq<char>) -> nat
    decreases d.len(),
{
    if d.len() == 0 {
        0
    } else {
        digits_value(d.drop_last()) * 10 + (d.last() as nat - '0' as nat) as nat
    }
}

/// A text without its leading sign, if it has one.
pub open spec fn unsigned_part(s: Seq<char>) -> Seq<char> {
    if s.len() > 0 && (s[0] == '-' || s[0] == '+') { s.drop_first() } else { s }
}

/// The `i64` that a text denotes, as `str::parse::<i64>` reads it: an
/// optional `+` or `-`, then one or more decimal digits, within range.
pub open spec fn i64_reading(s: Seq<char>) -> Option<i64> {
    let neg = s.len() > 0 && s[0] == '-';
    let body = unsigned_part(s);
    if body.len() > 0 && (forall|i: int| 0 <= i < body.len() ==> #[trigger] is_digit(body[i])) {
        let v: int = if neg { -digits_value(body) } else { digits_value(body) as int };
        if i64::MIN <= v <= i64::MAX { Some(v as i64) } else { None }
    } else {
        None
    }
}

/// The boolean that a text names, ignoring case: true, yes, 1 and on, or
/// false, no, 0 and off.
pub open spec fn bool_reading(s: Seq<char>) -> Option<bool> {
    let l = lowercase(s);
    if l == "true"@ || l == "yes"@ || l == "1"@ || l == "on"@ {
        Some(true)
    } else if l == "false"@ || l == "no"@ || l == "0"@ || l == "off"@ {
        Some(false)
    } else {
        None
    }
}

/// `s` spells the lower-case word `w` in any mix of cases: the same
/// length, and at each place the same character or, for a letter of `w`,
/// its upper-case form (32 code points earlier).
pub open spec fn spells_ignoring_case(s: Seq<char>, w: Seq<char>) -> bool {
    &&& s.len() == w.len()
    &&& forall|i: int| 0 <= i < s.len() ==> (#[trigger] s[i] == w[i]
        || ('A' <= s[i] && s[i] <= 'Z' && s[i] as int + 32 == w[i] as int))
}

/// An ASCII text spelling `w` in any mix of cases lower-cases to `w`, and
/// a text that lower-cases to `w` spells it.
proof fn lemma_spells_lowercase(s: Seq<char>, w: Seq<char>)
    requires
        is_ascii_text(s),
        forall|i: int| 0 <= i < w.len() ==> !('A' <= #[trigger] w[i] && w[i] <= 'Z'),
    ensures
        spells_ignoring_case(s, w) <==> lowercase(s) == w,
{
    lemma_lowercase_ascii(s);
    if spells_ignoring_case(s, w) {
        assert forall|i: int| 0 <= i < s.len() implies #[trigger] lowercase(s)[i] == w[i] by {
            if 'A' <= s[i] && s[i] <= 'Z' {
                assert(lowercase(s)[i] as int == w[i] as int);
            }
        }
        assert(lowercase(s) =~= w);
    }
    if lowercase(s) == w {
        assert forall|i: int| 0 <= i < s.len() implies (#[trigger] s[i] == w[i]
            || ('A' <= s[i] && s[i] <= 'Z' && s[i] as int + 32 == w[i] as int)) by {
            assert(lowercase(s)[i] == w[i]);
        }
    }
}

/// Boolean words are read without regard to case: any spelling of "true",
/// "yes", "1" or "on" reads as true, any spelling of "false", "no", "0" or
/// "off" as false, and any other ASCII text as no boolean at all.
pub proof fn lemma_bool_words(s: Seq<char>)
    requires
        is_ascii_text(s),
    ensures
        spells_ignoring_case(s, "true"@) || spells_ignoring_case(s, "yes"@) || spells_ignoring_case(s, "1"@)
            || spells_ignoring_case(s, "on"@) ==> bool_reading(s) == Some(true),
        spells_ignoring_case(s, "false"@) || spells_ignoring_case(s, "no"@) || spells_ignoring_case(s, "0"@)
            || spells_ignoring_case(s, "off"@) ==> bool_reading(s) == Some(false),
        !(spells_ignoring_case(s, "true"@) || spells_ignoring_case(s, "yes"@) || spells_ignoring_case(s, "1"@)
            || spells_ignoring_case(s, "on"@) || spells_ignoring_case(s, "false"@) || spells_ignoring_case(s, "no"@)
            || spells_ignoring_case(s, "0"@) || spells_ignoring_case(s, "off"@)) ==> bool_reading(s) is None,
{
    reveal_strlit("true");
    reveal_strlit("yes");
    reveal_strlit("1");
    reveal_strlit("on");
    reveal_strlit("false");
    reveal_strlit("no");
    reveal_strlit("0");
    reveal_strlit("off");
    lemma_spells_lowercase(s, "true"@);
    lemma_spells_lowercase(s, "yes"@);
    lemma_spells_lowercase(s, "1"@);
    lemma_spells_lowercase(s, "on"@);
    lemma_spells_lowercase(s, "false"@);
    lemma_spells_lowercase(s, "no"@);
    lemma_spells_lowercase(s, "0"@);
    lemma_spells_lowercase(s, "off"@);
    assert("no"@ != "on"@) by { assert("no"@[0] != "on"@[0]); }
    assert("0"@ != "1"@) by { assert("0"@[0] != "1"@[0]); }
    assert("off"@ != "yes"@) by { assert("off"@[0] != "yes"@[0]); }
}

/// With repairs on, a parameter declared boolean that is given as text
/// spelling a boolean word in any case becomes that boolean: "false",
/// "no", "0" and "off" become false, "true", "yes", "1" and "on" true.
pub proof fn lemma_boolean_text_repaired(field: Seq<char>, fs: JsonView, s: Seq<char>, readings: Seq<(String, NumberReading)>)
    requires
        declared_type(fs) == Some("boolean"@),
        is_ascii_text(s),
    ensures
        spells_ignoring_case(s, "false"@) || spells_ignoring_case(s, "no"@) || spells_ignoring_case(s, "0"@)
            || spells_ignoring_case(s, "off"@) ==> transform_value(field, fs, JsonView::Str(s), readings).0 == JsonView::Bool(false),
        spells_ignoring_case(s, "true"@) || spells_ignoring_case(s, "yes"@) || spells_ignoring_case(s, "1"@)
            || spells_ignoring_case(s, "on"@) ==> transform_value(field, fs, JsonView::Str(s), readings).0 == JsonView::Bool(true),
{
    lemma_bool_words(s);
    reveal_strlit("boolean");
    reveal_strlit("string");
    reveal_strlit("number");
    reveal_strlit("integer");
    assert("boolean"@ != "integer"@) by { assert("boolean"@[0] != "integer"@[0]); }
}

/// The URL with the scheme it lacks: none for an empty text or one that
/// already starts with http:// or https://; http:// for local addresses;
/// https:// for anything that looks like a domain name (a dot, no space).
pub open spec fn url_fix(u: Seq<char>) -> Option<Seq<char>> {
    if u.len() == 0 || is_prefix("http://"@, u) || is_prefix("https://"@, u) {
        None
    } else if is_prefix("localhost"@, u) || is_prefix("127.0.0.1"@, u) || is_prefix("0.0.0.0"@, u) {
        Some("http://"@ + u)
    } else if u.contains('.') && !u.contains(' ') {
        Some("https://"@ + u)
    } else {
        None
    }
}

/// The text of a string value, if it is one.
pub open spec fn view_str(v: Option<JsonView>) -> Option<Seq<char>> {
    match v {
        Some(JsonView::Str(s)) => Some(s),
        _ => None,
    }
}

/// The type that a property's schema declares.
pub open spec fn declared_type(fs: JsonView) -> Option<Seq<char>> {
    view_str(jv_field(fs, "type"@))
}

/// Whether a number has no fractional part. Floating-point numbers are
/// held without an exponent, so they are whole exactly when they show no
/// decimal point.
pub open spec fn number_is_whole(v: JsonView) -> bool {
    match v {
        JsonView::Int(_) => true,
        JsonView::UInt(_) => true,
        JsonView::Float(t) => !t.contains('.'),
        _ => false,
    }
}

/// Whether a value has the type a schema names; unknown type names accept
/// anything.
pub open spec fn type_accepts(expected: Seq<char>, v: JsonView) -> bool {
    if expected == "string"@ {
        v is Str
    } else if expected == "number"@ {
        v is Int || v is UInt || v is Float
    } else if expected == "integer"@ {
        number_is_whole(v)
    } else if expected == "boolean"@ {
        v is Bool
    } else if expected == "array"@ {
        v is Array
    } else if expected == "object"@ {
        v is Object
    } else {
        true
    }
}

/// The name of a value's type.
pub open spec fn json_type_name(v: JsonView) -> Seq<char> {
    match v {
        JsonView::Str(_) => "string"@,
        JsonView::Int(_) => "number"@,
        JsonView::UInt(_) => "number"@,
        JsonView::Float(_) => "number"@,
        JsonView::Bool(_) => "boolean"@,
        JsonView::Array(_) => "array"@,
        JsonView::Object(_) => "object"@,
        JsonView::Null => "null"@,
    }
}

/// Why a value does not have the expected type.
pub open spec fn mismatch_reason(expected: Seq<char>, v: JsonView) -> Seq<char> {
    "Expected type '"@ + expected + "' but got '"@ + json_type_name(v) + "'"@
}

/// The first property, in schema order, whose parameter has the wrong
/// type, with the reason.
pub open spec fn first_type_problem(props: Seq<(Seq<char>, JsonView)>, params: Seq<(Seq<char>, JsonView)>) -> Option<(Seq<char>, Seq<char>)>
    decreases props.len(),
{
    if props.len() == 0 {
        None
    } else {
        let name = props[0].0;
        match (ov_lookup(params, name), declared_type(props[0].1)) {
            (Some(pv), Some(t)) => if !type_accepts(t, pv) {
                Some((name, mismatch_reason(t, pv)))
            } else {
                first_type_problem(props.drop_first(), params)
            },
            _ => first_type_problem(props.drop_first(), params),
        }
    }
}

/// The first type problem of object parameters against the schema's
/// properties; none when either is missing.
pub open spec fn schema_type_problem(schema: JsonView, params: JsonView) -> Option<(Seq<char>, Seq<char>)> {
    match (jv_field(schema, "properties"@), params) {
        (Some(JsonView::Object(props)), JsonView::Object(p)) => first_type_problem(props, p),
        _ => None,
    }
}

/// The first name in a `required` list that the parameters lack; entries
/// that are not strings are skipped.
pub open spec fn first_missing(required: Seq<JsonView>, params: Seq<(Seq<char>, JsonView)>) -> Option<Seq<char>>
    decreases required.len(),
{
    if required.len() == 0 {
        None
    } else {
        match required[0] {
            JsonView::Str(f) => if ov_lookup(params, f) is None {
                Some(f)
            } else {
                first_missing(required.drop_first(), params)
            },
            _ => first_missing(required.drop_first(), params),
        }
    }
}

/// The first required parameter that object parameters lack.
pub open spec fn schema_missing(schema: JsonView, params: JsonView) -> Option<Seq<char>> {
    match (jv_field(schema, "required"@), params) {
        (Some(JsonView::Array(req)), JsonView::Object(p)) => first_missing(req, p),
        _ => None,
    }
}

/// Whether a string property is a URL: its description mentions a URL or
/// URI, or its name mentions a URL.
pub open spec fn mentions_url(field: Seq<char>, fs: JsonView) -> bool {
    match view_str(jv_field(fs, "description"@)) {
        Some(d) => contains_seq(lowercase(d), "url"@) || contains_seq(lowercase(d), "uri"@)
            || contains_seq(lowercase(field), "url"@),
        None => false,
    }
}

/// The repaired value of a parameter and the note that records the repair;
/// the value unchanged and no note when nothing applies.
pub open spec fn transform_value(field: Seq<char>, fs: JsonView, v: JsonView, readings: Seq<(String, NumberReading)>) -> (JsonView, Option<Seq<char>>) {
    match (declared_type(fs), v) {
        (Some(t), JsonView::Str(s)) => if t == "string"@ {
            if mentions_url(field, fs) && url_fix(s) is Some {
                let fixed = url_fix(s)->0;
                (JsonView::Str(fixed), Some("Auto-prefixed URL in '"@ + field + "': '"@ + s + "' → '"@ + fixed + "'"@))
            } else {
                (v, None)
            }
        } else if t == "number"@ {
            match reading_for(readings, s) {
                NumberReading::Finite(n) => (JsonView::Float(n@),
                    Some("Converted string to number in '"@ + field + "': '"@ + s + "' → "@ + n@)),
                _ => (v, None),
            }
        } else if t == "integer"@ {
            match i64_reading(s) {
                Some(i) => (JsonView::Int(i),
                    Some("Converted string to integer in '"@ + field + "': '"@ + s + "' → "@ + int_decimal(i as int))),
                None => (v, None),
            }
        } else if t == "boolean"@ {
            match bool_reading(s) {
                Some(b) => (JsonView::Bool(b),
                    Some("Converted string to boolean in '"@ + field + "': '"@ + s + "' → "@ + if b { "true"@ } else { "false"@ })),
                None => (v, None),
            }
        } else {
            (v, None)
        },
        _ => (v, None),
    }
}

/// Whether repairing a parameter would read a text as an infinite or
/// undefined number, which has no JSON form.
pub open spec fn transform_fails(fs: JsonView, v: JsonView, readings: Seq<(String, NumberReading)>) -> bool {
    match (declared_type(fs), v) {
        (Some(t), JsonView::Str(s)) => t == "number"@ && reading_for(readings, s) is NotFinite,
        _ => false,
    }
}

/// The parameters after repairing each property in schema order, and the
/// notes of the repairs.
pub open spec fn transform_props(props: Seq<(Seq<char>, JsonView)>, params: Seq<(Seq<char>, JsonView)>, readings: Seq<(String, NumberReading)>) -> (Seq<(Seq<char>, JsonView)>, Seq<Seq<char>>)
    decreases props.len(),
{
    if props.len() == 0 {
        (params, Seq::empty())
    } else {
        let name = props[0].0;
        let (p1, m1) = match ov_lookup(params, name) {
            Some(pv) => match transform_value(name, props[0].1, pv, readings) {
                (nv, Some(note)) => (ov_insert(params, name, nv), seq![note]),
                (_, None) => (params, Seq::<Seq<char>>::empty()),
            },
            None => (params, Seq::<Seq<char>>::empty()),
        };
        let (p2, m2) = transform_props(props.drop_first(), p1, readings);
        (p2, m1 + m2)
    }
}

/// Whether some repair, in schema order, would fail.
pub open spec fn transform_props_fails(props: Seq<(Seq<char>, JsonView)>, params: Seq<(Seq<char>, JsonView)>, readings: Seq<(String, NumberReading)>) -> bool
    decreases props.len(),
{
    if props.len() == 0 {
        false
    } else {
        let name = props[0].0;
        match ov_lookup(params, name) {
            Some(pv) => transform_fails(props[0].1, pv, readings) || match transform_value(name, props[0].1, pv, readings) {
                (nv, Some(_)) => transform_props_fails(props.drop_first(), ov_insert(params, name, nv), readings),
                (_, None) => transform_props_fails(props.drop_first(), params, readings),
            },
            None => transform_props_fails(props.drop_first(), params, readings),
        }
    }
}

/// Object parameters after the repairs that the schema's properties call
/// for, with the notes; other parameters unchanged.
pub open spec fn schema_transform(schema: JsonView, params: JsonView, readings: Seq<(String, NumberReading)>) -> (JsonView, Seq<Seq<char>>) {
    match (jv_field(schema, "properties"@), params) {
        (Some(JsonView::Object(props)), JsonView::Object(p)) => {
            let (np, notes) = transform_props(props, p, readings);
            (JsonView::Object(np), notes)
        },
        _ => (params, Seq::empty()),
    }
}

/// Whether a repair that the schema calls for would fail.
pub open spec fn schema_transform_fails(schema: JsonView, params: JsonView, readings: Seq<(String, NumberReading)>) -> bool {
    match (jv_field(schema, "properties"@), params) {
        (Some(JsonView::Object(props)), JsonView::Object(p)) => transform_props_fails(props, p, readings),
        _ => false,
    }
}

/// The errors of parameters against a schema: the first type problem, then
/// the first missing required parameter.
pub open spec fn schema_errors(schema: JsonView, params: JsonView) -> Seq<ValidationErrorView> {
    (match schema_type_problem(schema, params) {
        Some((f, r)) => seq![ValidationErrorView::ValidationFailed(f, r)],
        None => Seq::empty(),
    }) + (match schema_missing(schema, params) {
        Some(f) => seq![ValidationErrorView::MissingRequired(f)],
        None => Seq::empty(),
    })
}

/// The first parameter, in the parameters' order, that the schema's
/// properties do not name.
pub open spec fn first_unknown(props: Seq<(Seq<char>, JsonView)>, params: Seq<(Seq<char>, JsonView)>) -> Option<Seq<char>>
    decreases params.len(),
{
    if params.len() == 0 {
        None
    } else if ov_lookup(props, params[0].0) is None {
        Some(params[0].0)
    } else {
        first_unknown(props, params.drop_first())
    }
}

/// The first parameter of object parameters that the schema's object of
/// properties does not name; none when either is not an object.
pub open spec fn schema_unknown(schema: JsonView, params: JsonView) -> Option<Seq<char>> {
    match (jv_field(schema, "properties"@), params) {
        (Some(JsonView::Object(props)), JsonView::Object(p)) => first_unknown(props, p),
        _ => None,
    }
}

/// Why a parameter that the schema does not name is refused.
pub open spec fn unknown_reason() -> Seq<char> {
    "Unknown property not allowed in strict mode"@
}

/// The errors of parameters against a schema: those of [`schema_errors`],
/// then, when strict, the first parameter that the schema's properties do
/// not name.
pub open spec fn checked_errors(strict: bool, schema: JsonView, params: JsonView) -> Seq<ValidationErrorView> {
    schema_errors(schema, params) + (if strict {
        match schema_unknown(schema, params) {
            Some(f) => seq![ValidationErrorView::ValidationFailed(f, unknown_reason())],
            None => Seq::empty(),
        }
    } else {
        Seq::empty()
    })
}

/// The `i64` a text denotes, if any.
pub fn parse_i64(s: &str) -> (r: Option<i64>)
    ensures
        r == i64_reading(s@),
{
    let cs = chars_of(s);
    let n = cs.len();
    let neg = n > 0 && cs[0] == '-';
    let start: usize = if n > 0 && (cs[0] == '-' || cs[0] == '+') { 1 } else { 0 };
    let ghost body = unsigned_part(s@);
    proof {
        assert(body =~= cs@.subrange(start as int, n as int));
    }
    if start >= n {
        return None;
    }
    let mut mag: u64 = 0;
    let mut overflow = false;
    let mut i: usize = start;
    while i < n
        invariant
            start <= i <= n,
            n == cs@.len(),
            body == cs@.subrange(start as int, n as int),
            cs@ == s@,
            body == unsigned_part(s@),
            forall|j: int| start <= j < i ==> #[trigger] is_digit(cs@[j]),
            !overflow ==> mag == digits_value(cs@.subrange(start as int, i as int)),
            overflow ==> digits_value(cs@.subrange(start as int, i as int)) > u64::MAX,
        decreases n - i,
    {
        let c = cs[i];
        if !('0' <= c && c <= '9') {
            proof {
                assert(!is_digit(body[i - start]));
            }
            return None;
        }
        let ghost prev = cs@.subrange(start as int, i as int);
        proof {
            assert(cs@.subrange(start as int, i + 1).drop_last() =~= prev);
        }
        if !overflow {
            let d: u64 = ((c as u32) - ('0' as u32)) as u64;
            match mag.checked_mul(10) {
                Some(m) => match m.checked_add(d) {
                    Some(v) => { mag = v; },
                    None => { overflow = true; },
                },
                None => {
                    proof {
                        assert(digits_value(cs@.subrange(start as int, i + 1)) >= digits_value(prev) * 10);
                    }
                    overflow = true;
                },
            }
        } else {
            proof {
                assert(digits_value(cs@.subrange(start as int, i + 1)) >= digits_value(prev) * 10) by (nonlinear_arith)
                    requires
                        digits_value(cs@.subrange(start as int, i + 1)) == digits_value(prev) * 10
                            + (cs@[i as int] as nat - '0' as nat) as nat,
                ;
            }
        }
        i = i + 1;
    }
    proof {
        assert forall|j: int| 0 <= j < body.len() implies #[trigger] is_digit(body[j]) by {
            assert(body[j] == cs@[j + start]);
        }
    }
    if overflow {
        return None;
    }
    if neg {
        if mag <= 0x8000_0000_0000_0000u64 {
            if mag == 0x8000_0000_0000_0000u64 {
                Some(i64::MIN)
            } else {
                Some(-(mag as i64))
            }
        } else {
            None
        }
    } else if mag <= 0x7fff_ffff_ffff_ffffu64 {
        Some(mag as i64)
    } else {
        None
    }
}

/// The boolean a text names, if any.
pub fn parse_bool_word(s: &str) -> (r: Option<bool>)
    ensures
        r == bool_reading(s@),
{
    let l = to_lowercase(s);
    let t = l.as_str();
    if str_equal(t, "true") || str_equal(t, "yes") || str_equal(t, "1") || str_equal(t, "on") {
        Some(true)
    } else if str_equal(t, "false") || str_equal(t, "no") || str_equal(t, "0") || str_equal(t, "off") {
        Some(false)
    } else {
        None
    }
}

/// The reading given for a text.
pub fn find_reading<'a>(readings: &'a Vec<(String, NumberReading)>, s: &str) -> (r: &'a NumberReading)
    ensures
        *r == reading_for(readings@, s@),
{
    let mut i: usize = 0;
    proof {
        assert(readings@.skip(0) =~= readings@);
    }
    while i < readings.len()
        invariant
            i <= readings@.len(),
            reading_for(readings@, s@) == reading_for(readings@.skip(i as int), s@),
        decreases readings@.len() - i,
    {
        proof {
            assert(readings@.skip(i as int).drop_first() =~= readings@.skip(i + 1));
        }
        if str_equal(readings[i].0.as_str(), s) {
            return &readings[i].1;
        }
        i = i + 1;
    }
    &NumberReading::NotANumber
}

/// A member of a value's content, as the value's own lookup finds it.
proof fn lemma_field_view(v: JsonValue, key: Seq<char>)
    ensures
        match v.field(key) {
            Some(x) => jv_field(jview(v), key) == Some(jview(x)),
            None => jv_field(jview(v), key) is None,
        },
{
    match v {
        JsonValue::Object(o) => lemma_oview_lookup(o, key),
        _ => {},
    }
}

/// The text of the string member `key` of a value, if it has one.
fn field_str<'a>(v: &'a JsonValue, key: &str) -> (r: Option<&'a str>)
    ensures
        r is Some == view_str(jv_field(jview(*v), key@)) is Some,
        r is Some ==> r->0@ == view_str(jv_field(jview(*v), key@))->0,
{
    proof {
        lemma_field_view(*v, key@);
    }
    match v.get(key) {
        Some(x) => x.as_str(),
        None => None,
    }
}

/// The URL with the scheme it lacks, if it lacks one.
pub fn auto_fix_url(url: &str) -> (r: Option<String>)
    ensures
        r is Some == url_fix(url@) is Some,
        r is Some ==> r->0@ == url_fix(url@)->0,
{
    if url.unicode_len() == 0 || starts_with(url, "http://") || starts_with(url, "https://") {
        return None;
    }
    if starts_with(url, "localhost") || starts_with(url, "127.0.0.1") || starts_with(url, "0.0.0.0") {
        let mut r = owned("http://");
        push_str(&mut r, url);
        Some(r)
    } else if contains_char(url, '.') && !contains_char(url, ' ') {
        let mut r = owned("https://");
        push_str(&mut r, url);
        Some(r)
    } else {
        None
    }
}

/// Whether a value has the type a schema names.
fn value_has_type(expected: &str, v: &JsonValue) -> (r: bool)
    ensures
        r == type_accepts(expected@, jview(*v)),
{
    if str_equal(expected, "string") {
        v.is_string()
    } else if str_equal(expected, "number") {
        v.is_number()
    } else if str_equal(expected, "integer") {
        match v {
            JsonValue::Number(JsonNumber::Float(t)) => !contains_char(t.as_str(), '.'),
            JsonValue::Number(_) => true,
            _ => false,
        }
    } else if str_equal(expected, "boolean") {
        v.is_boolean()
    } else if str_equal(expected, "array") {
        v.is_array()
    } else if str_equal(expected, "object") {
        v.is_object()
    } else {
        true
    }
}

/// The name of a value's type.
fn value_type_name(v: &JsonValue) -> (r: &'static str)
    ensures
        r@ == json_type_name(jview(*v)),
{
    match v {
        JsonValue::String(_) => "string",
        JsonValue::Number(_) => "number",
        JsonValue::Bool(_) => "boolean",
        JsonValue::Array(_) => "array",
        JsonValue::Object(_) => "object",
        JsonValue::Null => "null",
    }
}

/// The first property whose parameter has the wrong type.
fn find_type_problem(props: &JsonObject, params: &JsonObject) -> (r: Option<(String, String)>)
    ensures
        match first_type_problem(oview(*props), oview(*params)) {
            Some((f, why)) => r matches Some((a, b)) && a@ == f && b@ == why,
            None => r is None,
        },
    decreases props,
{
    match props {
        JsonObject::Nil => None,
        JsonObject::Cons(k, fs, rest) => {
            proof {
                assert(oview(*props).drop_first() =~= oview(**rest));
                lemma_oview_lookup(*params, k@);
            }
            let found = match (params.get(k.as_str()), field_str(&**fs, "type")) {
                (Some(pv), Some(t)) => {
                    if !value_has_type(t, pv) {
                        let mut why = owned("Expected type '");
                        push_str(&mut why, t);
                        push_str(&mut why, "' but got '");
                        push_str(&mut why, value_type_name(pv));
                        push_str(&mut why, "'");
                        Some((k.clone(), why))
                    } else {
                        None
                    }
                },
                _ => None,
            };
            match found {
                Some(x) => Some(x),
                None => find_type_problem(&**rest, params),
            }
        },
    }
}

/// The first parameter that the properties do not name.
fn find_unknown(props: &JsonObject, params: &JsonObject) -> (r: Option<String>)
    ensures
        match first_unknown(oview(*props), oview(*params)) {
            Some(f) => r matches Some(a) && a@ == f,
            None => r is None,
        },
    decreases params,
{
    match params {
        JsonObject::Nil => None,
        JsonObject::Cons(k, v, rest) => {
            proof {
                assert(oview(*params).drop_first() =~= oview(**rest));
                lemma_oview_lookup(*props, k@);
            }
            if !props.contains_key(k.as_str()) {
                Some(k.clone())
            } else {
                find_unknown(props, &**rest)
            }
        },
    }
}

/// The first required name that the parameters lack.
fn find_missing(required: &JsonArray, params: &JsonObject) -> (r: Option<String>)
    ensures
        match first_missing(aview(*required), oview(*params)) {
            Some(f) => r matches Some(a) && a@ == f,
            None => r is None,
        },
    decreases required,
{
    match required {
        JsonArray::Nil => None,
        JsonArray::Cons(v, rest) => {
            proof {
                assert(aview(*required).drop_first() =~= aview(**rest));
                assert(aview(*required)[0] == jview(**v));
            }
            match &**v {
                JsonValue::String(f) => {
                    proof {
                        lemma_oview_lookup(*params, f@);
                    }
                    if !params.contains_key(f.as_str()) {
                        Some(f.clone())
                    } else {
                        find_missing(&**rest, params)
                    }
                },
                _ => find_missing(&**rest, params),
            }
        },
    }
}

/// The repaired value of a parameter and the note of the repair, if one
/// applies.
fn transform_field(field: &str, fs: &JsonValue, v: &JsonValue, readings: &Vec<(String, NumberReading)>) -> (r: Option<(JsonValue, String)>)
    requires
        !transform_fails(jview(*fs), jview(*v), readings@),
    ensures
        match transform_value(field@, jview(*fs), jview(*v), readings@) {
            (nv, Some(note)) => r matches Some((x, t)) && jview(x) == nv && t@ == note,
            (_, None) => r is None,
        },
{
    let t = match field_str(fs, "type") {
        Some(t) => t,
        None => return None,
    };
    let s = match v {
        JsonValue::String(s) => s.as_str(),
        _ => return None,
    };
    if str_equal(t, "string") {
        let mentions = match field_str(fs, "description") {
            Some(d) => {
                let dl = to_lowercase(d);
                let fl = to_lowercase(field);
                contains_str(dl.as_str(), "url") || contains_str(dl.as_str(), "uri") || contains_str(fl.as_str(), "url")
            },
            None => false,
        };
        if !mentions {
            return None;
        }
        match auto_fix_url(s) {
            Some(fixed) => {
                let mut note = owned("Auto-prefixed URL in '");
                push_str(&mut note, field);
                push_str(&mut note, "': '");
                push_str(&mut note, s);
                push_str(&mut note, "' → '");
                push_str(&mut note, fixed.as_str());
                push_str(&mut note, "'");
                Some((JsonValue::String(fixed), note))
            },
            None => None,
        }
    } else if str_equal(t, "number") {
        match find_reading(readings, s) {
            NumberReading::Finite(n) => {
                let mut note = owned("Converted string to number in '");
                push_str(&mut note, field);
                push_str(&mut note, "': '");
                push_str(&mut note, s);
                push_str(&mut note, "' → ");
                push_str(&mut note, n.as_str());
                Some((JsonValue::Number(JsonNumber::Float(n.clone())), note))
            },
            _ => None,
        }
    } else if str_equal(t, "integer") {
        match parse_i64(s) {
            Some(i) => {
                let mut note = owned("Converted string to integer in '");
                push_str(&mut note, field);
                push_str(&mut note, "': '");
                push_str(&mut note, s);
                push_str(&mut note, "' → ");
                let d = i64_to_decimal(i);
                push_str(&mut note, d.as_str());
                Some((JsonValue::Number(JsonNumber::Int(i)), note))
            },
            None => None,
        }
    } else if str_equal(t, "boolean") {
        match parse_bool_word(s) {
            Some(b) => {
                let mut note = owned("Converted string to boolean in '");
                push_str(&mut note, field);
                push_str(&mut note, "': '");
                push_str(&mut note, s);
                push_str(&mut note, "' → ");
                push_str(&mut note, if b { "true" } else { "false" });
                Some((JsonValue::Bool(b), note))
            },
            None => None,
        }
    } else {
        None
    }
}

/// Repairs the parameters property by property, in schema order, and
/// appends the notes of the repairs.
fn transform_members(props: &JsonObject, params: JsonObject, readings: &Vec<(String, NumberReading)>, notes: &mut Vec<String>) -> (r: JsonObject)
    requires
        !transform_props_fails(oview(*props), oview(params), readings@),
    ensures
        oview(r) == transform_props(oview(*props), oview(params), readings@).0,
        final(notes)@.map_values(|t: String| t@) == old(notes)@.map_values(|t: String| t@)
            + transform_props(oview(*props), oview(params), readings@).1,
    decreases props,
{
    match props {
        JsonObject::Nil => {
            proof {
                assert(old(notes)@.map_values(|t: String| t@) + Seq::<Seq<char>>::empty() =~= old(notes)@.map_values(|t: String| t@));
            }
            params
        },
        JsonObject::Cons(k, fs, rest) => {
            proof {
                assert(oview(*props).drop_first() =~= oview(**rest));
                lemma_oview_lookup(params, k@);
            }
            let change = match params.get(k.as_str()) {
                Some(pv) => transform_field(k.as_str(), &**fs, pv, readings),
                None => None,
            };
            match change {
                Some((nv, note)) => {
                    let key = k.clone();
                    proof {
                        lemma_oview_insert(params, key, nv);
                    }
                    let p1 = params.set(key, nv);
                    let ghost before = notes@.map_values(|t: String| t@);
                    notes.push(note);
                    proof {
                        assert(notes@.map_values(|t: String| t@) =~= before + seq![note@]);
                    }
                    let r = transform_members(&**rest, p1, readings, notes);
                    proof {
                        let tail = transform_props(oview(**rest), oview(p1), readings@).1;
                        assert(old(notes)@.map_values(|t: String| t@) + seq![note@] + tail
                            =~= old(notes)@.map_values(|t: String| t@) + (seq![note@] + tail));
                    }
                    r
                },
                None => {
                    let r = transform_members(&**rest, params, readings, notes);
                    proof {
                        let tail = transform_props(oview(**rest), oview(params), readings@).1;
                        assert(Seq::<Seq<char>>::empty() + tail =~= tail);
                    }
                    r
                },
            }
        },
    }
}

/// The outcome of checking parameters against a schema.
#[derive(Debug)]
pub struct ValidationResult {
    /// Whether the parameters passed
    pub is_valid: bool,
    /// Why they did not
    pub errors: Vec<ValidationError>,
    /// Issues that do not block the call
    pub warnings: Vec<String>,
    /// The parameters, repaired where repairs apply
    pub validated_params: JsonValue,
    /// Notes of the repairs, in the order they were made
    pub transformations: Vec<String>,
}

/// The parameters after the repairs that are enabled, and their notes.
pub open spec fn repaired(auto_transform: bool, schema: JsonView, params: JsonView, readings: Seq<(String, NumberReading)>) -> (JsonView, Seq<Seq<char>>) {
    if auto_transform {
        schema_transform(schema, params, readings)
    } else {
        (params, Seq::empty())
    }
}

/// Whether validation with the given settings would meet a repair that
/// fails.
pub open spec fn validation_fails(auto_transform: bool, schema: JsonView, params: JsonView, readings: Seq<(String, NumberReading)>) -> bool {
    auto_transform && schema is Object && schema_transform_fails(schema, params, readings)
}

/// Checks tool parameters against a JSON Schema, repairing them first when
/// repairs are enabled.
#[derive(Debug)]
pub struct ParameterValidator {
    /// Whether to repair parameters before checking them
    pub auto_transform: bool,
    /// Whether to be strict about unknown properties
    pub strict_mode: bool,
}

impl Default for ParameterValidator {
    /// Repairs enabled, lenient about unknown properties.
    fn default() -> (r: Self)
        ensures
            r.auto_transform,
            !r.strict_mode,
    {
        ParameterValidator { auto_transform: true, strict_mode: false }
    }
}

impl ParameterValidator {
    /// A validator that repairs parameters and is lenient.
    pub fn new() -> (r: Self)
        ensures
            r.auto_transform,
            !r.strict_mode,
    {
        Self::default()
    }

    /// A validator that repairs nothing and is strict.
    pub fn strict() -> (r: Self)
        ensures
            !r.auto_transform,
            r.strict_mode,
    {
        ParameterValidator { auto_transform: false, strict_mode: true }
    }

    /// Checks `params` against `schema`. A schema that is not an object is
    /// refused. Otherwise, when repairs are enabled, URL parameters get
    /// their missing scheme and text parameters of number, integer or
    /// boolean type are converted (`readings` says how each text reads as
    /// a floating-point number); then the first parameter of the wrong
    /// type and the first missing required parameter are reported, and, in
    /// strict mode, the first parameter that the schema's properties do not
    /// name.
    pub fn validate(&self, schema: &JsonValue, params: &JsonValue, readings: &Vec<(String, NumberReading)>) -> (r: ValidationResult)
        requires
            !validation_fails(self.auto_transform, jview(*schema), jview(*params), readings@),
        ensures
            r.warnings@.len() == 0,
            !self.auto_transform ==> r.validated_params == *params && r.transformations@.len() == 0,
            !(jview(*schema) is Object) ==> {
                &&& !r.is_valid
                &&& r.errors@.map_values(|e: ValidationError| e@) == seq![ValidationErrorView::InvalidSchema("Schema must be a JSON object"@)]
                &&& r.validated_params == *params
                &&& r.transformations@.len() == 0
            },
            jview(*schema) is Object ==> {
                let (vp, notes) = repaired(self.auto_transform, jview(*schema), jview(*params), readings@);
                &&& jview(r.validated_params) == vp
                &&& r.transformations@.map_values(|t: String| t@) == notes
                &&& r.errors@.map_values(|e: ValidationError| e@) == checked_errors(self.strict_mode, jview(*schema), vp)
                &&& r.is_valid == (checked_errors(self.strict_mode, jview(*schema), vp).len() == 0)
            },
    {
        let mut errors: Vec<ValidationError> = Vec::new();
        let mut notes: Vec<String> = Vec::new();
        if !schema.is_object() {
            errors.push(ValidationError::InvalidSchema(owned("Schema must be a JSON object")));
            proof {
                assert(errors@.map_values(|e: ValidationError| e@) =~= seq![ValidationErrorView::InvalidSchema("Schema must be a JSON object"@)]);
            }
            return ValidationResult {
                is_valid: false,
                errors,
                warnings: Vec::new(),
                validated_params: params.duplicate(),
                transformations: notes,
            };
        }
        proof {
            lemma_field_view(*schema, "properties"@);
            lemma_field_view(*schema, "required"@);
        }
        let props = schema.get("properties");
        let mut vp = params.duplicate();
        if self.auto_transform {
            match props {
                Some(JsonValue::Object(pr)) => {
                    vp = match vp {
                        JsonValue::Object(p) => JsonValue::Object(transform_members(pr, p, readings, &mut notes)),
                        other => other,
                    };
                    proof {
                        assert(notes@.map_values(|t: String| t@) =~= repaired(self.auto_transform, jview(*schema), jview(*params), readings@).1);
                    }
                },
                _ => {
                    proof {
                        assert(notes@.map_values(|t: String| t@) =~= Seq::<Seq<char>>::empty());
                    }
                },
            }
        } else {
            proof {
                assert(notes@.map_values(|t: String| t@) =~= Seq::<Seq<char>>::empty());
            }
        }
        let ghost vpv = jview(vp);
        let problem = match (props, &vp) {
            (Some(JsonValue::Object(pr)), JsonValue::Object(p)) => find_type_problem(pr, p),
            _ => None,
        };
        let missing = match (schema.get("required"), &vp) {
            (Some(JsonValue::Array(a)), JsonValue::Object(p)) => find_missing(a, p),
            _ => None,
        };
        match problem {
            Some((field, reason)) => errors.push(ValidationError::ValidationFailed { field, reason }),
            None => {},
        }
        match missing {
            Some(field) => errors.push(ValidationError::MissingRequired { field }),
            None => {},
        }
        proof {
            assert(errors@.map_values(|e: ValidationError| e@) =~= schema_errors(jview(*schema), vpv));
        }
        if self.strict_mode {
            let unknown = match (props, &vp) {
                (Some(JsonValue::Object(pr)), JsonValue::Object(p)) => find_unknown(pr, p),
                _ => None,
            };
            match unknown {
                Some(field) => errors.push(ValidationError::ValidationFailed {
                    field,
                    reason: owned("Unknown property not allowed in strict mode"),
                }),
                None => {},
            }
        }
        proof {
            reveal_strlit("Unknown property not allowed in strict mode");
            assert(errors@.map_values(|e: ValidationError| e@) =~= checked_errors(self.strict_mode, jview(*schema), vpv));
        }
        let is_valid = errors.len() == 0;
        ValidationResult { is_valid, errors, warnings: Vec::new(), validated_params: vp, transformations: notes }
    }

    /// Whether `params` pass the check against `schema`.
    pub fn is_valid(&self, schema: &JsonValue, params: &JsonValue, readings: &Vec<(String, NumberReading)>) -> (r: bool)
        requires
            !validation_fails(self.auto_transform, jview(*schema), jview(*params), readings@),
        ensures
            r == (jview(*schema) is Object
                && checked_errors(self.strict_mode, jview(*schema), repaired(self.auto_transform, jview(*schema), jview(*params), readings@).0).len() == 0),
    {
        self.validate(schema, params, readings).is_valid
    }
}

/// Checks parameters with repairs enabled.
pub fn validate_parameters(schema: &JsonValue, params: &JsonValue, readings: &Vec<(String, NumberReading)>) -> (r: ValidationResult)
    requires
        !validation_fails(true, jview(*schema), jview(*params), readings@),
    ensures
        r.warnings@.len() == 0,
        !(jview(*schema) is Object) ==> {
            &&& !r.is_valid
            &&& r.errors@.map_values(|e: ValidationError| e@) == seq![ValidationErrorView::InvalidSchema("Schema must be a JSON object"@)]
            &&& r.validated_params == *params
            &&& r.transformations@.len() == 0
        },
        jview(*schema) is Object ==> {
            let (vp, notes) = schema_transform(jview(*schema), jview(*params), readings@);
            &&& jview(r.validated_params) == vp
            &&& r.transformations@.map_values(|t: String| t@) == notes
            &&& r.errors@.map_values(|e: ValidationError| e@) == checked_errors(false, jview(*schema), vp)
            &&& r.is_valid == (checked_errors(false, jview(*schema), vp).len() == 0)
        },
{
    ParameterValidator::new().validate(schema, params, readings)
}

/// Checks parameters without repairing them, refusing parameters that the
/// schema does not name.
pub fn validate_parameters_strict(schema: &JsonValue, params: &JsonValue) -> (r: ValidationResult)
    ensures
        r.warnings@.len() == 0,
        r.validated_params == *params,
        r.transformations@.len() == 0,
        !(jview(*schema) is Object) ==> !r.is_valid
            && r.errors@.map_values(|e: ValidationError| e@) == seq![ValidationErrorView::InvalidSchema("Schema must be a JSON object"@)],
        jview(*schema) is Object ==> {
            &&& r.errors@.map_values(|e: ValidationError| e@) == checked_errors(true, jview(*schema), jview(*params))
            &&& r.is_valid == (checked_errors(true, jview(*schema), jview(*params)).len() == 0)
        },
{
    let readings: Vec<(String, NumberReading)> = Vec::new();
    ParameterValidator::strict().validate(schema, params, &readings)
}

/// What the UI shows about a parameter, read from its schema.
#[derive(Debug)]
pub struct ParameterHint {
    /// The parameter's name
    pub name: String,
    /// Its declared type; "string" when none is declared
    pub param_type: String,
    /// Its description
    pub description: Option<String>,
    /// Whether the schema lists it as required
    pub required: bool,
    /// Its default value
    pub default_value: Option<JsonValue>,
    /// The values it may take, when the schema lists them
    pub enum_values: Option<Vec<JsonValue>>,
    /// A format constraint, such as "uri" or "email"
    pub format: Option<String>,
    /// A pattern the value must match
    pub pattern: Option<String>,
    /// The least length of a text value
    pub min_length: Option<u64>,
    /// The greatest length of a text value
    pub max_length: Option<u64>,
}

/// The text of an optional string.
pub open spec fn opt_text(s: Option<String>) -> Option<Seq<char>> {
    match s {
        Some(t) => Some(t@),
        None => None,
    }
}

/// The unsigned integer a value holds, if it holds one.
pub open spec fn view_u64(v: Option<JsonView>) -> Option<u64> {
    match v {
        Some(JsonView::Int(i)) => if i >= 0 { Some(i as u64) } else { None },
        Some(JsonView::UInt(u)) => Some(u),
        _ => None,
    }
}

/// Whether the schema's `required` list names `name`.
pub open spec fn is_required(schema: JsonView, name: Seq<char>) -> bool {
    match jv_field(schema, "required"@) {
        Some(JsonView::Array(items)) => items.contains(JsonView::Str(name)),
        _ => false,
    }
}

/// Whether a hint says what the schema says of property `name` with
/// schema `fs`.
pub open spec fn hint_agrees(h: ParameterHint, name: Seq<char>, fs: JsonView, schema: JsonView) -> bool {
    &&& h.name@ == name
    &&& h.param_type@ == match declared_type(fs) {
        Some(t) => t,
        None => "string"@,
    }
    &&& opt_text(h.description) == view_str(jv_field(fs, "description"@))
    &&& h.required == is_required(schema, name)
    &&& match h.default_value {
        Some(d) => jv_field(fs, "default"@) == Some(jview(d)),
        None => jv_field(fs, "default"@) is None,
    }
    &&& match jv_field(fs, "enum"@) {
        Some(JsonView::Array(items)) => h.enum_values matches Some(vs) && vs@.map_values(|x: JsonValue| jview(x)) == items,
        _ => h.enum_values is None,
    }
    &&& opt_text(h.format) == view_str(jv_field(fs, "format"@))
    &&& opt_text(h.pattern) == view_str(jv_field(fs, "pattern"@))
    &&& h.min_length == view_u64(jv_field(fs, "minLength"@))
    &&& h.max_length == view_u64(jv_field(fs, "maxLength"@))
}

/// The optional string member `key` of a value, as an owned text.
fn field_string(v: &JsonValue, key: &str) -> (r: Option<String>)
    ensures
        opt_text(r) == view_str(jv_field(jview(*v), key@)),
{
    match field_str(v, key) {
        Some(t) => Some(owned(t)),
        None => None,
    }
}

/// The unsigned integer member `key` of a value, if it holds one.
fn field_u64(v: &JsonValue, key: &str) -> (r: Option<u64>)
    ensures
        r == view_u64(jv_field(jview(*v), key@)),
{
    proof {
        lemma_field_view(*v, key@);
    }
    match v.get(key) {
        Some(JsonValue::Number(JsonNumber::Int(i))) => if *i >= 0 { Some(*i as u64) } else { None },
        Some(JsonValue::Number(JsonNumber::UInt(u))) => Some(*u),
        _ => None,
    }
}

/// Whether an array holds the string `s`.
fn array_has_text(a: &JsonArray, s: &str) -> (r: bool)
    ensures
        r == aview(*a).contains(JsonView::Str(s@)),
    decreases a,
{
    match a {
        JsonArray::Nil => false,
        JsonArray::Cons(v, rest) => {
            proof {
                assert(aview(*a) =~= seq![jview(**v)] + aview(**rest));
                assert(aview(*a)[0] == jview(**v));
                assert forall|x: JsonView| aview(*a).contains(x) <==> (x == jview(**v) || aview(**rest).contains(x)) by {
                    if aview(**rest).contains(x) {
                        let j = choose|j: int| 0 <= j < aview(**rest).len() && aview(**rest)[j] == x;
                        assert(aview(*a)[j + 1] == x);
                    }
                    if aview(*a).contains(x) && x != jview(**v) {
                        let j = choose|j: int| 0 <= j < aview(*a).len() && aview(*a)[j] == x;
                        assert(aview(**rest)[j - 1] == x);
                    }
                }
            }
            let here = match &**v {
                JsonValue::String(t) => str_equal(t.as_str(), s),
                _ => false,
            };
            here || array_has_text(&**rest, s)
        },
    }
}

/// The elements of an array, as a vector of copies.
fn array_items(a: &JsonArray) -> (r: Vec<JsonValue>)
    ensures
        r@.map_values(|x: JsonValue| jview(x)) == aview(*a),
    decreases a,
{
    match a {
        JsonArray::Nil => {
            let r: Vec<JsonValue> = Vec::new();
            proof {
                assert(r@.map_values(|x: JsonValue| jview(x)) =~= aview(*a));
            }
            r
        },
        JsonArray::Cons(v, rest) => {
            let mut r = array_items(&**rest);
            let ghost before = r@;
            r.insert(0, v.duplicate());
            proof {
                assert(r@ =~= seq![**v] + before);
                assert(r@.map_values(|x: JsonValue| jview(x)) =~= aview(*a));
            }
            r
        },
    }
}

/// The hint for property `name` with schema `fs`.
fn make_hint(name: &String, fs: &JsonValue, schema: &JsonValue) -> (h: ParameterHint)
    ensures
        hint_agrees(h, name@, jview(*fs), jview(*schema)),
{
    proof {
        lemma_field_view(*fs, "default"@);
        lemma_field_view(*fs, "enum"@);
        lemma_field_view(*schema, "required"@);
    }
    let param_type = match field_str(fs, "type") {
        Some(t) => owned(t),
        None => owned("string"),
    };
    let required = match schema.get("required") {
        Some(JsonValue::Array(a)) => array_has_text(a, name.as_str()),
        _ => false,
    };
    let default_value = match fs.get("default") {
        Some(d) => Some(d.duplicate()),
        None => None,
    };
    let enum_values = match fs.get("enum") {
        Some(JsonValue::Array(a)) => Some(array_items(a)),
        _ => None,
    };
    ParameterHint {
        name: name.clone(),
        param_type,
        description: field_string(fs, "description"),
        required,
        default_value,
        enum_values,
        format: field_string(fs, "format"),
        pattern: field_string(fs, "pattern"),
        min_length: field_u64(fs, "minLength"),
        max_length: field_u64(fs, "maxLength"),
    }
}

/// Appends the hints of the properties, in order.
fn collect_hints(props: &JsonObject, schema: &JsonValue, out: &mut Vec<ParameterHint>)
    ensures
        final(out)@.len() == old(out)@.len() + oview(*props).len(),
        forall|i: int| 0 <= i < old(out)@.len() ==> #[trigger] final(out)@[i] == old(out)@[i],
        forall|j: int| 0 <= j < oview(*props).len() ==> #[trigger] hint_agrees(final(out)@[old(out)@.len() + j],
            oview(*props)[j].0, oview(*props)[j].1, jview(*schema)),
    decreases props,
{
    match props {
        JsonObject::Nil => {},
        JsonObject::Cons(k, fs, rest) => {
            proof {
                assert(oview(*props) =~= seq![(k@, jview(**fs))] + oview(**rest));
            }
            let h = make_hint(k, &**fs, schema);
            out.push(h);
            let ghost mid = out@;
            collect_hints(&**rest, schema, out);
            proof {
                assert forall|j: int| 0 <= j < oview(*props).len() implies #[trigger] hint_agrees(out@[old(out)@.len() + j],
                    oview(*props)[j].0, oview(*props)[j].1, jview(*schema)) by {
                    if j == 0 {
                        assert(out@[old(out)@.len() as int] == mid[old(out)@.len() as int]);
                    } else {
                        assert(oview(*props)[j] == oview(**rest)[j - 1]);
                        assert(hint_agrees(out@[mid.len() + (j - 1)], oview(**rest)[j - 1].0, oview(**rest)[j - 1].1, jview(*schema)));
                    }
                }
            }
        },
    }
}

impl ParameterValidator {
    /// The hints for the UI: one per property of the schema, in order.
    pub fn extract_parameter_hints(&self, schema: &JsonValue) -> (r: Vec<ParameterHint>)
        ensures
            match jv_field(jview(*schema), "properties"@) {
                Some(JsonView::Object(props)) => {
                    &&& r@.len() == props.len()
                    &&& forall|i: int| 0 <= i < props.len() ==> #[trigger] hint_agrees(r@[i], props[i].0, props[i].1, jview(*schema))
                },
                _ => r@.len() == 0,
            },
    {
        proof {
            lemma_field_view(*schema, "properties"@);
        }
        let mut hints: Vec<ParameterHint> = Vec::new();
        match schema.get("properties") {
            Some(JsonValue::Object(props)) => {
                collect_hints(props, schema, &mut hints);
                proof {
                    assert forall|i: int| 0 <= i < oview(*props).len() implies #[trigger] hint_agrees(hints@[i], oview(*props)[i].0, oview(*props)[i].1, jview(*schema)) by {
                        assert(hints@[0 + i] == hints@[i]);
                    }
                }
            },
            _ => {},
        }
        hints
    }
}

} // verus!
