//! Rule-based modification of message payloads: each rule names a method
//! (or "*"), a dotted path into the payload and an operation to perform
//! there.
use vstd::prelude::*;
use crate::interceptor::{InterceptionResult, InterceptorStats, MessageContext, join_strings, join_with, message_method};
use crate::json::{JsonNumber, JsonObject, JsonValue, JsonView, jview, oview, ov_insert, ov_lookup, ov_remove, jv_field, lemma_oview_insert, lemma_oview_lookup, lemma_oview_remove};
use crate::messages::jsonrpc::{JsonRpcMessage, JsonRpcNotification, JsonRpcRequest, JsonRpcResponse};
use crate::text::{chars_of, owned, push_str, str_equal, string_from_chars, to_lowercase, to_uppercase, lowercase, uppercase, is_ascii_text, lemma_lowercase_ascii, lemma_uppercase_ascii};

verus! {

/// The parts of a dotted path, as `str::split('.')` gives them: the texts
/// between dots, empty ones included.
pub open spec fn split_dots(s: Seq<char>) -> Seq<Seq<char>>
    decreases s.len(),
{
    if s.len() == 0 {
        seq![Seq::<char>::empty()]
    } else {
        let rest = split_dots(s.drop_first());
        if s[0] == '.' {
            seq![Seq::<char>::empty()] + rest
        } else {
            rest.update(0, seq![s[0]] + rest[0])
        }
    }
}

/// A path always has at least one part.
proof fn lemma_split_nonempty(s: Seq<char>)
    ensures
        split_dots(s).len() >= 1,
    decreases s.len(),
{
    if s.len() > 0 {
        lemma_split_nonempty(s.drop_first());
    }
}

/// The parts of a dotted path.
pub fn split_path(path: &str) -> (r: Vec<String>)
    ensures
        r@.map_values(|x: String| x@) == split_dots(path@),
        r@.len() >= 1,
{
    let cs = chars_of(path);
    let n = cs.len();
    let mut parts: Vec<Vec<char>> = Vec::new();
    parts.push(Vec::new());
    let mut i: usize = n;
    proof {
        assert(cs@.subrange(n as int, n as int) =~= Seq::<char>::empty());
        assert(parts@.map_values(|x: Vec<char>| x@) =~= seq![Seq::<char>::empty()]);
    }
    while i > 0
        invariant
            i <= n,
            n == cs@.len(),
            cs@ == path@,
            parts@.map_values(|x: Vec<char>| x@) == split_dots(cs@.subrange(i as int, n as int)),
            parts@.len() >= 1,
        decreases i,
    {
        let c = cs[i - 1];
        let ghost before = parts@.map_values(|x: Vec<char>| x@);
        proof {
            let t = cs@.subrange(i - 1, n as int);
            assert(t.drop_first() =~= cs@.subrange(i as int, n as int));
            assert(t[0] == c);
            lemma_split_nonempty(t.drop_first());
        }
        if c == '.' {
            parts.insert(0, Vec::new());
            proof {
                assert(parts@.map_values(|x: Vec<char>| x@) =~= seq![Seq::<char>::empty()] + before);
            }
        } else {
            let ghost pv = parts@;
            let mut first = parts.remove(0);
            proof {
                assert(first@ == before[0]);
            }
            first.insert(0, c);
            proof {
                assert(first@ =~= seq![c] + before[0]);
            }
            parts.insert(0, first);
            proof {
                assert(parts@.len() == pv.len());
                assert forall|k: int| 0 <= k < parts@.len() implies #[trigger] parts@[k]@ == before.update(0, seq![c] + before[0])[k] by {
                    if k > 0 {
                        assert(parts@[k] == pv[k]);
                    }
                }
                assert(parts@.map_values(|x: Vec<char>| x@) =~= before.update(0, seq![c] + before[0]));
            }
        }
        i = i - 1;
    }
    proof {
        assert(cs@.subrange(0, n as int) =~= cs@);
    }
    let mut r: Vec<String> = Vec::new();
    let mut j: usize = 0;
    while j < parts.len()
        invariant
            j <= parts@.len(),
            r@.len() == j,
            forall|k: int| 0 <= k < j ==> #[trigger] r@[k]@ == parts@[k]@,
        decreases parts@.len() - j,
    {
        r.push(string_from_chars(&parts[j]));
        j = j + 1;
    }
    proof {
        assert(r@.map_values(|x: String| x@) =~= parts@.map_values(|x: Vec<char>| x@));
    }
    r
}

/// The content found by following `p` from `v`, member by member.
pub open spec fn jv_get(v: JsonView, p: Seq<Seq<char>>) -> Option<JsonView>
    decreases p.len(),
{
    if p.len() == 0 {
        Some(v)
    } else {
        match jv_field(v, p[0]) {
            Some(c) => jv_get(c, p.drop_first()),
            None => None,
        }
    }
}

/// `v` with the content at `p` replaced by `nv`; unchanged where the path
/// leads nowhere.
pub open spec fn jv_update(v: JsonView, p: Seq<Seq<char>>, nv: JsonView) -> JsonView
    decreases p.len(),
{
    if p.len() == 0 {
        nv
    } else {
        match v {
            JsonView::Object(s) => match ov_lookup(s, p[0]) {
                Some(c) => JsonView::Object(ov_insert(s, p[0], jv_update(c, p.drop_first(), nv))),
                None => v,
            },
            _ => v,
        }
    }
}

/// The member `key` of a value agrees with its content.
proof fn lemma_field_view(v: JsonValue, key: Seq<char>)
    ensures
        match v.field(key) {
            Some(x) => jv_field(jview(v), key) == Some(jview(x)),
            None => jv_field(jview(v), key) is None,
        },
{
    match v {
        JsonValue::Object(o) => lemma_oview_lookup(o, key),
        _ => {},
    }
}

/// The part views of a list of path parts.
pub open spec fn part_views(parts: Seq<String>) -> Seq<Seq<char>> {
    parts.map_values(|x: String| x@)
}

/// Follows `parts[from..to]` from `v`.
fn get_in<'a>(v: &'a JsonValue, parts: &Vec<String>, from: usize, to: usize) -> (r: Option<&'a JsonValue>)
    requires
        from <= to <= parts@.len(),
    ensures
        match jv_get(jview(*v), part_views(parts@).subrange(from as int, to as int)) {
            Some(x) => r is Some && jview(*r->0) == x,
            None => r is None,
        },
    decreases to - from,
{
    let ghost p = part_views(parts@).subrange(from as int, to as int);
    if from == to {
        return Some(v);
    }
    proof {
        assert(p[0] == parts@[from as int]@);
        assert(p.drop_first() =~= part_views(parts@).subrange(from + 1, to as int));
        lemma_field_view(*v, parts@[from as int]@);
    }
    match v.get(parts[from].as_str()) {
        Some(c) => get_in(c, parts, from + 1, to),
        None => None,
    }
}

/// `v` with the value at `parts[from..to]` replaced by `nv`.
fn update_in(v: JsonValue, parts: &Vec<String>, from: usize, to: usize, nv: JsonValue) -> (r: JsonValue)
    requires
        from <= to <= parts@.len(),
    ensures
        jview(r) == jv_update(jview(v), part_views(parts@).subrange(from as int, to as int), jview(nv)),
    decreases to - from,
{
    let ghost p = part_views(parts@).subrange(from as int, to as int);
    if from == to {
        return nv;
    }
    proof {
        assert(p[0] == parts@[from as int]@);
        assert(p.drop_first() =~= part_views(parts@).subrange(from + 1, to as int));
    }
    match v {
        JsonValue::Object(o) => {
            let child = match o.get(parts[from].as_str()) {
                Some(c) => Some(c.duplicate()),
                None => None,
            };
            proof {
                lemma_oview_lookup(o, parts@[from as int]@);
            }
            match child {
                Some(c) => {
                    let nc = update_in(c, parts, from + 1, to, nv);
                    let key = parts[from].clone();
                    proof {
                        lemma_oview_insert(o, key, nc);
                    }
                    JsonValue::Object(o.set(key, nc))
                },
                None => JsonValue::Object(o),
            }
        },
        other => other,
    }
}

/// Operations that can be performed on message fields.
#[derive(Debug)]
pub enum TransformOperation {
    /// Set a field to a specific value
    SetField { value: JsonValue },
    /// Add a field if it doesn't exist
    AddIfMissing { value: JsonValue },
    /// Remove a field
    Remove,
    /// Rename a field
    Rename { new_name: String },
    /// Apply a function: "uppercase", "lowercase" or "increment"
    Function { name: String, args: Vec<JsonValue> },
}

/// Setting the field at `p` to `nv`: the parent must be an object.
pub open spec fn set_spec(v: JsonView, p: Seq<Seq<char>>, nv: JsonView) -> Result<JsonView, Seq<char>> {
    if p.len() == 0 {
        Err("Empty path"@)
    } else if p.len() == 1 {
        match v {
            JsonView::Object(s) => Ok(JsonView::Object(ov_insert(s, p[0], nv))),
            _ => Err("Cannot set field on non-object"@),
        }
    } else {
        match jv_get(v, p.drop_last()) {
            Some(JsonView::Object(s)) => Ok(jv_update(v, p.drop_last(), JsonView::Object(ov_insert(s, p.last(), nv)))),
            _ => Err("Path not found"@),
        }
    }
}

/// Removing the field at `p`; a missing parent leaves the value as it is,
/// except that a top-level field can only be removed from an object.
pub open spec fn remove_spec(v: JsonView, p: Seq<Seq<char>>) -> Result<JsonView, Seq<char>> {
    if p.len() == 0 {
        Err("Empty path"@)
    } else if p.len() == 1 {
        match v {
            JsonView::Object(s) => Ok(JsonView::Object(ov_remove(s, p[0]))),
            _ => Err("Cannot remove field from non-object"@),
        }
    } else {
        match jv_get(v, p.drop_last()) {
            Some(JsonView::Object(s)) => Ok(jv_update(v, p.drop_last(), JsonView::Object(ov_remove(s, p.last())))),
            _ => Ok(v),
        }
    }
}

/// Renaming the field at `p` to `new_name`, keeping its value; nothing
/// happens when there is no such field.
pub open spec fn rename_spec(v: JsonView, p: Seq<Seq<char>>, new_name: Seq<char>) -> JsonView {
    if p.len() == 0 {
        v
    } else {
        match jv_get(v, p.drop_last()) {
            Some(JsonView::Object(s)) => match ov_lookup(s, p.last()) {
                Some(x) => jv_update(v, p.drop_last(), JsonView::Object(ov_insert(ov_remove(s, p.last()), new_name, x))),
                None => v,
            },
            _ => v,
        }
    }
}

/// A number's value as an `i64`, when it has one.
pub open spec fn view_as_i64(v: JsonView) -> Option<i64> {
    match v {
        JsonView::Int(i) => Some(i),
        JsonView::UInt(u) => if u <= i64::MAX { Some(u as i64) } else { None },
        _ => None,
    }
}

/// `n + 1`, wrapping around at the top of the `i64` range.
pub open spec fn wrapping_succ(n: i64) -> i64 {
    if n == i64::MAX { i64::MIN } else { (n + 1) as i64 }
}

/// Applying the named function to the value at `p`: "uppercase" and
/// "lowercase" change strings, "increment" adds one to integers, other
/// values are left alone; an unknown name is an error when the path leads
/// somewhere.
pub open spec fn function_spec(v: JsonView, p: Seq<Seq<char>>, name: Seq<char>) -> Result<JsonView, Seq<char>> {
    match jv_get(v, p) {
        None => Ok(v),
        Some(t) => if name == "uppercase"@ {
            match t {
                JsonView::Str(s) => Ok(jv_update(v, p, JsonView::Str(uppercase(s)))),
                _ => Ok(v),
            }
        } else if name == "lowercase"@ {
            match t {
                JsonView::Str(s) => Ok(jv_update(v, p, JsonView::Str(lowercase(s)))),
                _ => Ok(v),
            }
        } else if name == "increment"@ {
            match view_as_i64(t) {
                Some(n) => Ok(jv_update(v, p, JsonView::Int(wrapping_succ(n)))),
                None => Ok(v),
            }
        } else {
            Err("Unknown function: "@ + name)
        },
    }
}

/// What an operation does to a payload, along path `p`.
pub open spec fn operation_spec(op: TransformOperation, v: JsonView, p: Seq<Seq<char>>) -> Result<JsonView, Seq<char>> {
    match op {
        TransformOperation::SetField { value } => set_spec(v, p, jview(value)),
        TransformOperation::AddIfMissing { value } => if jv_get(v, p) is None {
            set_spec(v, p, jview(value))
        } else {
            Ok(v)
        },
        TransformOperation::Remove => remove_spec(v, p),
        TransformOperation::Rename { new_name } => Ok(rename_spec(v, p, new_name@)),
        TransformOperation::Function { name, .. } => function_spec(v, p, name@),
    }
}

/// A rule for transforming JSON-RPC messages.
#[derive(Debug)]
pub struct TransformRule {
    /// Name of this rule
    pub name: String,
    /// Method pattern to match (e.g., "tools/call", "*" for all)
    pub method_pattern: String,
    /// Dotted path to modify (e.g., "arguments.verbose")
    pub path: String,
    /// Transformation operation
    pub operation: TransformOperation,
}

/// Whether a rule applies to a message with the given method: messages
/// without a method never match; "*" matches every method.
pub open spec fn rule_matches(rule: TransformRule, method: Option<Seq<char>>) -> bool {
    match method {
        Some(m) => rule.method_pattern@ == "*"@ || rule.method_pattern@ == m,
        None => false,
    }
}

/// The payload a rule works on: the parameters of requests and
/// notifications, the result of responses.
pub open spec fn payload(m: JsonRpcMessage) -> Option<JsonValue> {
    match m {
        JsonRpcMessage::Request(req) => req.params,
        JsonRpcMessage::Response(resp) => resp.result,
        JsonRpcMessage::Notification(n) => n.params,
    }
}

/// The content of the payload.
pub open spec fn payload_view(m: JsonRpcMessage) -> Option<JsonView> {
    match payload(m) {
        Some(p) => Some(jview(p)),
        None => None,
    }
}

/// Two messages that differ at most in their payloads.
pub open spec fn same_but_payload(a: JsonRpcMessage, b: JsonRpcMessage) -> bool {
    match (a, b) {
        (JsonRpcMessage::Request(x), JsonRpcMessage::Request(y)) => x.jsonrpc == y.jsonrpc && x.id == y.id && x.method == y.method,
        (JsonRpcMessage::Response(x), JsonRpcMessage::Response(y)) => x.jsonrpc == y.jsonrpc && x.id == y.id && x.error == y.error,
        (JsonRpcMessage::Notification(x), JsonRpcMessage::Notification(y)) => x.jsonrpc == y.jsonrpc && x.method == y.method,
        _ => false,
    }
}

/// What applying a rule does to a payload's content.
pub open spec fn rule_on_payload(rule: TransformRule, pv: Option<JsonView>) -> Result<Option<JsonView>, Seq<char>> {
    match pv {
        None => Ok(None),
        Some(v) => match operation_spec(rule.operation, v, split_dots(rule.path@)) {
            Ok(w) => Ok(Some(w)),
            Err(e) => Err(e),
        },
    }
}

impl TransformRule {
    /// A rule with the given parts.
    pub fn new(name: &str, method_pattern: &str, path: &str, operation: TransformOperation) -> (r: Self)
        ensures
            r.name@ == name@,
            r.method_pattern@ == method_pattern@,
            r.path@ == path@,
            r.operation == operation,
    {
        TransformRule { name: owned(name), method_pattern: owned(method_pattern), path: owned(path), operation }
    }

    /// Whether this rule applies to the message of `context`.
    pub fn matches(&self, context: &MessageContext) -> (r: bool)
        ensures
            r == rule_matches(*self, message_method(context.message)),
    {
        match context.method() {
            Some(m) => str_equal(self.method_pattern.as_str(), "*") || str_equal(self.method_pattern.as_str(), m),
            None => false,
        }
    }

    /// Applies the operation to a payload.
    fn apply_to_value(&self, v: JsonValue) -> (r: Result<JsonValue, String>)
        ensures
            match operation_spec(self.operation, jview(v), split_dots(self.path@)) {
                Ok(w) => r matches Ok(x) && jview(x) == w,
                Err(e) => r matches Err(x) && x@ == e,
            },
    {
        let parts = split_path(self.path.as_str());
        let ghost p = part_views(parts@);
        let n = parts.len();
        proof {
            assert(p.subrange(0, n as int) =~= p);
            assert(p.subrange(0, n - 1) =~= p.drop_last());
        }
        match &self.operation {
            TransformOperation::SetField { value } => set_in(v, &parts, value.duplicate()),
            TransformOperation::AddIfMissing { value } => {
                if get_in(&v, &parts, 0, n).is_none() {
                    set_in(v, &parts, value.duplicate())
                } else {
                    Ok(v)
                }
            },
            TransformOperation::Remove => remove_in(v, &parts),
            TransformOperation::Rename { new_name } => Ok(rename_in(v, &parts, new_name)),
            TransformOperation::Function { name, .. } => function_in(v, &parts, name.as_str()),
        }
    }

    /// Applies this rule to the payload of a message; the rest of the
    /// message is kept. A message without a payload is kept as it is.
    pub fn apply(&self, message: &JsonRpcMessage) -> (r: Result<JsonRpcMessage, String>)
        ensures
            match rule_on_payload(*self, payload_view(*message)) {
                Ok(pv) => r matches Ok(m) && same_but_payload(*message, m) && payload_view(m) == pv,
                Err(e) => r matches Err(x) && x@ == e,
            },
    {
        match message {
            JsonRpcMessage::Request(req) => match &req.params {
                Some(p) => match self.apply_to_value(p.duplicate()) {
                    Ok(np) => Ok(JsonRpcMessage::Request(JsonRpcRequest {
                        jsonrpc: req.jsonrpc.clone(),
                        id: req.id.duplicate(),
                        method: req.method.clone(),
                        params: Some(np),
                    })),
                    Err(e) => Err(e),
                },
                None => Ok(JsonRpcMessage::Request(req.duplicate())),
            },
            JsonRpcMessage::Response(resp) => match &resp.result {
                Some(p) => match self.apply_to_value(p.duplicate()) {
                    Ok(np) => Ok(JsonRpcMessage::Response(JsonRpcResponse {
                        jsonrpc: resp.jsonrpc.clone(),
                        id: resp.id.duplicate(),
                        result: Some(np),
                        error: match &resp.error {
                            Some(e) => Some(e.duplicate()),
                            None => None,
                        },
                    })),
                    Err(e) => Err(e),
                },
                None => Ok(JsonRpcMessage::Response(resp.duplicate())),
            },
            JsonRpcMessage::Notification(n) => match &n.params {
                Some(p) => match self.apply_to_value(p.duplicate()) {
                    Ok(np) => Ok(JsonRpcMessage::Notification(JsonRpcNotification {
                        jsonrpc: n.jsonrpc.clone(),
                        method: n.method.clone(),
                        params: Some(np),
                    })),
                    Err(e) => Err(e),
                },
                None => Ok(JsonRpcMessage::Notification(n.duplicate())),
            },
        }
    }
}

/// Sets the field at `parts` to `nv`.
fn set_in(v: JsonValue, parts: &Vec<String>, nv: JsonValue) -> (r: Result<JsonValue, String>)
    ensures
        match set_spec(jview(v), part_views(parts@), jview(nv)) {
            Ok(w) => r matches Ok(x) && jview(x) == w,
            Err(e) => r matches Err(x) && x@ == e,
        },
{
    let ghost p = part_views(parts@);
    let n = parts.len();
    if n == 0 {
        return Err(owned("Empty path"));
    }
    if n == 1 {
        return match v {
            JsonValue::Object(o) => {
                let key = parts[0].clone();
                proof {
                    lemma_oview_insert(o, key, nv);
                }
                Ok(JsonValue::Object(o.set(key, nv)))
            },
            _ => Err(owned("Cannot set field on non-object")),
        };
    }
    proof {
        assert(p.subrange(0, n - 1) =~= p.drop_last());
        assert(p.last() == parts@[n - 1]@);
    }
    let new_parent = match get_in(&v, parts, 0, n - 1) {
        Some(JsonValue::Object(po)) => {
            let key = parts[n - 1].clone();
            let po2 = po.duplicate();
            proof {
                lemma_oview_insert(po2, key, nv);
            }
            Some(JsonValue::Object(po2.set(key, nv)))
        },
        _ => None,
    };
    match new_parent {
        Some(np) => Ok(update_in(v, parts, 0, n - 1, np)),
        None => Err(owned("Path not found")),
    }
}

/// Removes the field at `parts`.
fn remove_in(v: JsonValue, parts: &Vec<String>) -> (r: Result<JsonValue, String>)
    ensures
        match remove_spec(jview(v), part_views(parts@)) {
            Ok(w) => r matches Ok(x) && jview(x) == w,
            Err(e) => r matches Err(x) && x@ == e,
        },
{
    let ghost p = part_views(parts@);
    let n = parts.len();
    if n == 0 {
        return Err(owned("Empty path"));
    }
    if n == 1 {
        return match v {
            JsonValue::Object(o) => {
                proof {
                    lemma_oview_remove(o, parts@[0]@);
                }
                Ok(JsonValue::Object(o.delete(parts[0].as_str())))
            },
            _ => Err(owned("Cannot remove field from non-object")),
        };
    }
    proof {
        assert(p.subrange(0, n - 1) =~= p.drop_last());
        assert(p.last() == parts@[n - 1]@);
    }
    let new_parent = match get_in(&v, parts, 0, n - 1) {
        Some(JsonValue::Object(po)) => {
            let po2 = po.duplicate();
            proof {
                lemma_oview_remove(po2, parts@[n - 1]@);
            }
            Some(JsonValue::Object(po2.delete(parts[n - 1].as_str())))
        },
        _ => None,
    };
    match new_parent {
        Some(np) => Ok(update_in(v, parts, 0, n - 1, np)),
        None => Ok(v),
    }
}

/// Renames the field at `parts` to `new_name`.
fn rename_in(v: JsonValue, parts: &Vec<String>, new_name: &String) -> (r: JsonValue)
    ensures
        jview(r) == rename_spec(jview(v), part_views(parts@), new_name@),
{
    let ghost p = part_views(parts@);
    let n = parts.len();
    if n == 0 {
        return v;
    }
    proof {
        assert(p.subrange(0, n - 1) =~= p.drop_last());
        assert(p.last() == parts@[n - 1]@);
    }
    let new_parent = match get_in(&v, parts, 0, n - 1) {
        Some(JsonValue::Object(po)) => {
            let po2 = po.duplicate();
            proof {
                lemma_oview_lookup(po2, parts@[n - 1]@);
                lemma_oview_remove(po2, parts@[n - 1]@);
            }
            let (rest, found) = po2.take(parts[n - 1].as_str());
            match found {
                Some(val) => {
                    let key = new_name.clone();
                    proof {
                        lemma_oview_insert(rest, key, val);
                    }
                    Some(JsonValue::Object(rest.set(key, val)))
                },
                None => None,
            }
        },
        _ => None,
    };
    match new_parent {
        Some(np) => update_in(v, parts, 0, n - 1, np),
        None => v,
    }
}

/// A number's value as an `i64`, when it has one.
fn as_i64(v: &JsonValue) -> (r: Option<i64>)
    ensures
        r == view_as_i64(jview(*v)),
{
    match v {
        JsonValue::Number(JsonNumber::Int(i)) => Some(*i),
        JsonValue::Number(JsonNumber::UInt(u)) => if *u <= 0x7fff_ffff_ffff_ffffu64 {
            Some(*u as i64)
        } else {
            None
        },
        _ => None,
    }
}

/// Applies the named function to the value at `parts`.
fn function_in(v: JsonValue, parts: &Vec<String>, name: &str) -> (r: Result<JsonValue, String>)
    ensures
        match function_spec(jview(v), part_views(parts@), name@) {
            Ok(w) => r matches Ok(x) && jview(x) == w,
            Err(e) => r matches Err(x) && x@ == e,
        },
{
    let ghost p = part_views(parts@);
    let n = parts.len();
    proof {
        assert(p.subrange(0, n as int) =~= p);
    }
    let replacement: Result<Option<JsonValue>, String> = match get_in(&v, parts, 0, n) {
        None => Ok(None),
        Some(target) => {
            if str_equal(name, "uppercase") {
                match target {
                    JsonValue::String(s) => Ok(Some(JsonValue::String(to_uppercase(s.as_str())))),
                    _ => Ok(None),
                }
            } else if str_equal(name, "lowercase") {
                match target {
                    JsonValue::String(s) => Ok(Some(JsonValue::String(to_lowercase(s.as_str())))),
                    _ => Ok(None),
                }
            } else if str_equal(name, "increment") {
                match as_i64(target) {
                    Some(k) => {
                        let next: i64 = if k == 0x7fff_ffff_ffff_ffffi64 { -0x8000_0000_0000_0000i64 } else { k + 1 };
                        Ok(Some(JsonValue::Number(JsonNumber::Int(next))))
                    },
                    None => Ok(None),
                }
            } else {
                let mut e = owned("Unknown function: ");
                push_str(&mut e, name);
                Err(e)
            }
        },
    };
    match replacement {
        Ok(Some(nv)) => Ok(update_in(v, parts, 0, n, nv)),
        Ok(None) => Ok(v),
        Err(e) => Err(e),
    }
}

/// What running the rules, in order, does to a payload's content: the
/// content after each matching rule that succeeded, and the names of those
/// rules.
pub open spec fn rules_fold(rules: Seq<TransformRule>, method: Option<Seq<char>>, pv: Option<JsonView>) -> (Option<JsonView>, Seq<Seq<char>>)
    decreases rules.len(),
{
    if rules.len() == 0 {
        (pv, Seq::empty())
    } else {
        let (cur, names) = rules_fold(rules.drop_last(), method, pv);
        let rule = rules.last();
        if rule_matches(rule, method) {
            match rule_on_payload(rule, cur) {
                Ok(next) => (next, names.push(rule.name@)),
                Err(_) => (cur, names),
            }
        } else {
            (cur, names)
        }
    }
}

/// What the transform interceptor does with `message`: runs its matching
/// rules in order on the payload, skipping those that fail; the message is
/// modified, with the names of the rules that applied, when any did, and
/// passes unchanged otherwise; and it is counted.
pub open spec fn transform_answer(before: TransformInterceptor, message: JsonRpcMessage, r: InterceptionResult, after: TransformInterceptor) -> bool {
    let (pv, names) = rules_fold(before.rules@, message_method(message), payload_view(message));
    &&& !r.block
    &&& r.modified == (names.len() > 0)
    &&& same_but_payload(message, r.message)
    &&& (r.modified ==> payload_view(r.message) == pv)
    &&& (!r.modified ==> r.message == message)
    &&& (r.modified ==> (r.reasoning matches Some(t) && t@ == "Applied rules: "@ + join_with(names, ", "@)))
    &&& (!r.modified ==> r.reasoning is None)
    &&& after.rules == before.rules
    &&& after.stats.total_intercepted == before.stats.total_intercepted + 1
    &&& after.stats.total_modified == before.stats.total_modified + if r.modified { 1int } else { 0int }
    &&& after.stats.total_blocked == before.stats.total_blocked
}

/// Interceptor that applies transformation rules to messages.
#[derive(Debug)]
pub struct TransformInterceptor {
    /// The rules, in the order they run
    pub rules: Vec<TransformRule>,
    /// What this interceptor has seen so far
    pub stats: InterceptorStats,
}

impl TransformInterceptor {
    /// An interceptor with no rules.
    pub fn new() -> (r: Self)
        ensures
            r.rules@.len() == 0,
            r.stats == (InterceptorStats { total_intercepted: 0, total_modified: 0, total_blocked: 0 }),
    {
        TransformInterceptor { rules: Vec::new(), stats: InterceptorStats::zero() }
    }

    /// The interceptor's name.
    pub fn name(&self) -> (r: &'static str)
        ensures
            r@ == "TransformInterceptor"@,
    {
        "TransformInterceptor"
    }

    /// Runs after validation and rate limiting.
    pub fn priority(&self) -> (r: u32)
        ensures
            r == 40,
    {
        40
    }

    /// Adds a rule after the others.
    pub fn add_rule(&mut self, rule: TransformRule)
        ensures
            final(self).rules@ == old(self).rules@.push(rule),
            final(self).stats == old(self).stats,
    {
        self.rules.push(rule);
    }

    /// Removes every rule named `name`; tells whether there was one.
    pub fn remove_rule(&mut self, name: &str) -> (found: bool)
        ensures
            final(self).rules@ == old(self).rules@.filter(|r: TransformRule| r.name@ != name@),
            found == exists|i: int| 0 <= i < old(self).rules@.len() && old(self).rules@[i].name@ == name@,
            final(self).stats == old(self).stats,
    {
        let ghost pred = |r: TransformRule| r.name@ != name@;
        let mut rest: Vec<TransformRule> = Vec::new();
        std::mem::swap(&mut rest, &mut self.rules);
        let ghost orig = rest@;
        let mut kept: Vec<TransformRule> = Vec::new();
        let mut found = false;
        let mut k: usize = 0;
        let n0 = rest.len();
        proof {
            assert(orig.take(0).filter(pred) =~= Seq::<TransformRule>::empty());
            assert(orig.skip(0) =~= orig);
        }
        while rest.len() > 0
            invariant
                orig.len() <= usize::MAX,
                k <= orig.len(),
                rest@ == orig.skip(k as int),
                kept@ == orig.take(k as int).filter(pred),
                found == exists|i: int| 0 <= i < k && orig[i].name@ == name@,
                pred == (|r: TransformRule| r.name@ != name@),
            decreases rest@.len(),
        {
            let e = rest.remove(0);
            proof {
                assert(orig[k as int] == e);
                assert(rest@ =~= orig.skip(k + 1));
                orig.lemma_take_succ_push(k as int);
                orig.take(k as int).lemma_filter_push(e, pred);
            }
            if str_equal(e.name.as_str(), name) {
                found = true;
            } else {
                kept.push(e);
            }
            k = k + 1;
        }
        proof {
            assert(k == orig.len()) by {
                assert(orig.skip(k as int).len() == 0);
            }
            assert(orig.take(k as int) =~= orig);
        }
        self.rules = kept;
        found
    }

    /// The rule names, in order.
    pub fn list_rules(&self) -> (r: Vec<String>)
        ensures
            r@.len() == self.rules@.len(),
            forall|i: int| 0 <= i < r@.len() ==> #[trigger] r@[i]@ == self.rules@[i].name@,
    {
        let mut r: Vec<String> = Vec::new();
        let mut i: usize = 0;
        while i < self.rules.len()
            invariant
                i <= self.rules@.len(),
                r@.len() == i,
                forall|j: int| 0 <= j < i ==> #[trigger] r@[j]@ == self.rules@[j].name@,
            decreases self.rules@.len() - i,
        {
            r.push(self.rules[i].name.clone());
            i = i + 1;
        }
        r
    }

    /// Whether some rule applies to the message.
    pub fn should_intercept(&self, context: &MessageContext) -> (r: bool)
        ensures
            r == exists|i: int| 0 <= i < self.rules@.len() && rule_matches(#[trigger] self.rules@[i], message_method(context.message)),
    {
        let mut i: usize = 0;
        while i < self.rules.len()
            invariant
                i <= self.rules@.len(),
                forall|j: int| 0 <= j < i ==> !rule_matches(#[trigger] self.rules@[j], message_method(context.message)),
            decreases self.rules@.len() - i,
        {
            if self.rules[i].matches(context) {
                return true;
            }
            i = i + 1;
        }
        false
    }

    /// Runs every matching rule, in order, on the message; a rule that fails
    /// is skipped. The result is modified, with the reason "Applied rules: "
    /// and the names of the rules that succeeded, if any did, and passes the
    /// message through otherwise.
    pub fn intercept(&mut self, context: MessageContext) -> (r: InterceptionResult)
        requires
            old(self).stats.total_intercepted < u64::MAX,
            old(self).stats.total_modified < u64::MAX,
            old(self).stats.total_blocked < u64::MAX,
        ensures
            ({
                let (pv, names) = rules_fold(old(self).rules@, message_method(context.message), payload_view(context.message));
                &&& !r.block
                &&& r.modified == (names.len() > 0)
                &&& same_but_payload(context.message, r.message)
                &&& (r.modified ==> payload_view(r.message) == pv)
                &&& (!r.modified ==> r.message == context.message)
                &&& (r.modified ==> (r.reasoning matches Some(t) && t@ == "Applied rules: "@ + join_with(names, ", "@)))
                &&& (!r.modified ==> r.reasoning is None)
                &&& final(self).stats.total_modified == old(self).stats.total_modified + if r.modified { 1int } else { 0int }
            }),
            final(self).rules == old(self).rules,
            final(self).stats.total_intercepted == old(self).stats.total_intercepted + 1,
            final(self).stats.total_blocked == old(self).stats.total_blocked,
            transform_answer(*old(self), context.message, r, *final(self)),
    {
        let ghost method = message_method(context.message);
        let ghost rules = self.rules@;
        let mut current = context.message.duplicate();
        let mut applied: Vec<String> = Vec::new();
        let mut i: usize = 0;
        proof {
            assert(rules.take(0) =~= Seq::<TransformRule>::empty());
            assert(applied@.map_values(|s: String| s@) =~= Seq::<Seq<char>>::empty());
        }
        while i < self.rules.len()
            invariant
                i <= self.rules@.len(),
                rules == self.rules@,
                method == message_method(context.message),
                same_but_payload(context.message, current),
                ({
                    let (pv, names) = rules_fold(rules.take(i as int), method, payload_view(context.message));
                    &&& payload_view(current) == pv
                    &&& applied@.map_values(|s: String| s@) == names
                }),
                applied@.len() == 0 ==> current == context.message,
            decreases self.rules@.len() - i,
        {
            proof {
                assert(rules.take(i + 1).drop_last() =~= rules.take(i as int));
                assert(rules.take(i + 1).last() == rules[i as int]);
            }
            let rule = &self.rules[i];
            if rule.matches(&context) {
                match rule.apply(&current) {
                    Ok(next) => {
                        let ghost before = applied@;
                        applied.push(rule.name.clone());
                        proof {
                            assert(applied@.map_values(|s: String| s@) =~= before.map_values(|s: String| s@).push(rule.name@));
                        }
                        current = next;
                    },
                    Err(_) => {},
                }
            }
            i = i + 1;
        }
        proof {
            assert(rules.take(rules.len() as int) =~= rules);
        }
        if applied.len() > 0 {
            self.stats = self.stats.record(true, false);
            let mut reason = owned("Applied rules: ");
            let joined = join_strings(&applied, ", ");
            push_str(&mut reason, joined.as_str());
            InterceptionResult::modified(current, reason)
        } else {
            self.stats = self.stats.record(false, false);
            InterceptionResult::pass_through(context.message)
        }
    }
}

/// Setting a member and then reading it gives the value that was set.
proof fn lemma_ov_insert_lookup(s: Seq<(Seq<char>, JsonView)>, k: Seq<char>, x: JsonView)
    ensures
        ov_lookup(ov_insert(s, k, x), k) == Some(x),
    decreases s.len(),
{
    if s.len() > 0 && s[0].0 != k {
        lemma_ov_insert_lookup(s.drop_first(), k, x);
        assert(ov_insert(s, k, x).drop_first() =~= ov_insert(s.drop_first(), k, x));
    }
}

/// Where a path leads somewhere, following it after replacing the content
/// there gives the new content.
proof fn lemma_update_get(v: JsonView, p: Seq<Seq<char>>, nv: JsonView)
    requires
        jv_get(v, p) is Some,
    ensures
        jv_get(jv_update(v, p, nv), p) == Some(nv),
    decreases p.len(),
{
    if p.len() > 0 {
        match v {
            JsonView::Object(s) => {
                let c = ov_lookup(s, p[0]).unwrap();
                lemma_update_get(c, p.drop_first(), nv);
                lemma_ov_insert_lookup(s, p[0], jv_update(c, p.drop_first(), nv));
            },
            _ => {},
        }
    }
}

/// The "lowercase" function lowers the text at the path: where an ASCII
/// string `s` stands at `p`, it succeeds, and at `p` the result holds a
/// string of the same length in which each letter A to Z became the letter
/// 32 code points later (a to z) and every other character is unchanged.
pub proof fn lemma_lowercase_function(v: JsonView, p: Seq<Seq<char>>, s: Seq<char>)
    requires
        jv_get(v, p) == Some(JsonView::Str(s)),
        is_ascii_text(s),
    ensures
        match function_spec(v, p, "lowercase"@) {
            Ok(w) => match jv_get(w, p) {
                Some(JsonView::Str(t)) => {
                    &&& t.len() == s.len()
                    &&& forall|i: int| 0 <= i < s.len() && 'A' <= #[trigger] s[i] && s[i] <= 'Z'
                        ==> t[i] as int == s[i] as int + 32
                    &&& forall|i: int| 0 <= i < s.len() && !('A' <= #[trigger] s[i] && s[i] <= 'Z')
                        ==> t[i] == s[i]
                },
                _ => false,
            },
            Err(_) => false,
        },
{
    reveal_strlit("lowercase");
    reveal_strlit("uppercase");
    assert("lowercase"@[0] != "uppercase"@[0]);
    lemma_lowercase_ascii(s);
    lemma_update_get(v, p, JsonView::Str(lowercase(s)));
}

/// The "uppercase" function raises the text at the path: where an ASCII
/// string `s` stands at `p`, it succeeds, and at `p` the result holds a
/// string of the same length in which each letter a to z became the letter
/// 32 code points earlier (A to Z) and every other character is unchanged.
pub proof fn lemma_uppercase_function(v: JsonView, p: Seq<Seq<char>>, s: Seq<char>)
    requires
        jv_get(v, p) == Some(JsonView::Str(s)),
        is_ascii_text(s),
    ensures
        match function_spec(v, p, "uppercase"@) {
            Ok(w) => match jv_get(w, p) {
                Some(JsonView::Str(t)) => {
                    &&& t.len() == s.len()
                    &&& forall|i: int| 0 <= i < s.len() && 'a' <= #[trigger] s[i] && s[i] <= 'z'
                        ==> t[i] as int == s[i] as int - 32
                    &&& forall|i: int| 0 <= i < s.len() && !('a' <= #[trigger] s[i] && s[i] <= 'z')
                        ==> t[i] == s[i]
                },
                _ => false,
            },
            Err(_) => false,
        },
{
    lemma_uppercase_ascii(s);
    lemma_update_get(v, p, JsonView::Str(uppercase(s)));
}

} // verus!
