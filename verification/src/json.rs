//! A JSON document model: the values that MCP messages carry as parameters,
//! results and schemas.
//!
//! Arrays and objects are linked lists, so that two values are equal in
//! specifications exactly when they have the same structure.
use vstd::prelude::*;
use crate::text::str_equal;

verus! {

/// A JSON number: an integer that fits `i64`, a larger unsigned integer, or
/// a floating-point number held in its shortest decimal notation.
#[derive(Debug)]
pub enum JsonNumber {
    Int(i64),
    UInt(u64),
    Float(String),
}

/// A JSON value.
#[derive(Debug)]
pub enum JsonValue {
    Null,
    Bool(bool),
    Number(JsonNumber),
    String(String),
    Array(JsonArray),
    Object(JsonObject),
}

/// The elements of a JSON array, first to last.
#[derive(Debug)]
pub enum JsonArray {
    Nil,
    Cons(Box<JsonValue>, Box<JsonArray>),
}

/// The members of a JSON object, in order.
#[derive(Debug)]
pub enum JsonObject {
    Nil,
    Cons(String, Box<JsonValue>, Box<JsonObject>),
}

impl JsonObject {
    /// The value of the first member named `key`.
    pub open spec fn lookup(self, key: Seq<char>) -> Option<JsonValue>
        decreases self,
    {
        match self {
            JsonObject::Nil => None,
            JsonObject::Cons(k, v, rest) => if k@ == key {
                Some(*v)
            } else {
                rest.lookup(key)
            },
        }
    }

    /// The object after setting `key` to `value`: the first member with that
    /// name gets the value, or a member is added at the end.
    pub open spec fn insert(self, key: String, value: JsonValue) -> JsonObject
        decreases self,
    {
        match self {
            JsonObject::Nil => JsonObject::Cons(key, Box::new(value), Box::new(JsonObject::Nil)),
            JsonObject::Cons(k, v, rest) => if k@ == key@ {
                JsonObject::Cons(k, Box::new(value), rest)
            } else {
                JsonObject::Cons(k, v, Box::new(rest.insert(key, value)))
            },
        }
    }

    /// The object without any member named `key`.
    pub open spec fn remove(self, key: Seq<char>) -> JsonObject
        decreases self,
    {
        match self {
            JsonObject::Nil => JsonObject::Nil,
            JsonObject::Cons(k, v, rest) => if k@ == key {
                rest.remove(key)
            } else {
                JsonObject::Cons(k, v, Box::new(rest.remove(key)))
            },
        }
    }

    /// The member names, in order.
    pub open spec fn keys(self) -> Seq<Seq<char>>
        decreases self,
    {
        match self {
            JsonObject::Nil => Seq::empty(),
            JsonObject::Cons(k, v, rest) => seq![k@] + rest.keys(),
        }
    }

    /// The members, in order.
    pub open spec fn members(self) -> Seq<(Seq<char>, JsonValue)>
        decreases self,
    {
        match self {
            JsonObject::Nil => Seq::empty(),
            JsonObject::Cons(k, v, rest) => seq![(k@, *v)] + rest.members(),
        }
    }

    /// The value of the first member named `key`.
    pub fn get(&self, key: &str) -> (r: Option<&JsonValue>)
        ensures
            r is Some == self.lookup(key@) is Some,
            r is Some ==> *r->0 == self.lookup(key@)->0,
        decreases self,
    {
        match self {
            JsonObject::Nil => None,
            JsonObject::Cons(k, v, rest) => {
                if str_equal(k.as_str(), key) {
                    Some(&**v)
                } else {
                    rest.get(key)
                }
            },
        }
    }

    /// Whether a member is named `key`.
    pub fn contains_key(&self, key: &str) -> (r: bool)
        ensures
            r == self.lookup(key@) is Some,
    {
        self.get(key).is_some()
    }

    /// The object with a member `key` of `value` put before the others.
    pub fn with_first(key: &str, value: JsonValue, rest: JsonObject) -> (r: JsonObject)
        ensures
            oview(r) == seq![(key@, jview(value))] + oview(rest),
    {
        JsonObject::Cons(crate::text::owned(key), Box::new(value), Box::new(rest))
    }

    /// Sets `key` to `value`.
    pub fn set(self, key: String, value: JsonValue) -> (r: JsonObject)
        ensures
            r == self.insert(key, value),
        decreases self,
    {
        match self {
            JsonObject::Nil => JsonObject::Cons(key, Box::new(value), Box::new(JsonObject::Nil)),
            JsonObject::Cons(k, v, rest) => {
                if str_equal(k.as_str(), key.as_str()) {
                    JsonObject::Cons(k, Box::new(value), rest)
                } else {
                    let r = (*rest).set(key, value);
                    JsonObject::Cons(k, v, Box::new(r))
                }
            },
        }
    }

    /// Removes every member named `key`.
    pub fn delete(self, key: &str) -> (r: JsonObject)
        ensures
            r == self.remove(key@),
        decreases self,
    {
        match self {
            JsonObject::Nil => JsonObject::Nil,
            JsonObject::Cons(k, v, rest) => {
                if str_equal(k.as_str(), key) {
                    (*rest).delete(key)
                } else {
                    let r = (*rest).delete(key);
                    JsonObject::Cons(k, v, Box::new(r))
                }
            },
        }
    }

    /// Removes every member named `key` and gives back the value of the first.
    pub fn take(self, key: &str) -> (r: (JsonObject, Option<JsonValue>))
        ensures
            r.0 == self.remove(key@),
            r.1 == self.lookup(key@),
        decreases self,
    {
        match self {
            JsonObject::Nil => (JsonObject::Nil, None),
            JsonObject::Cons(k, v, rest) => {
                if str_equal(k.as_str(), key) {
                    let (r, _) = (*rest).take(key);
                    (r, Some(*v))
                } else {
                    let (r, found) = (*rest).take(key);
                    (JsonObject::Cons(k, v, Box::new(r)), found)
                }
            },
        }
    }

    /// The object made of `entries`, in order.
    pub fn from_entries(entries: Vec<(String, JsonValue)>) -> (r: JsonObject)
        ensures
            r.members() == entries@.map_values(|e: (String, JsonValue)| (e.0@, e.1)),
    {
        let mut entries = entries;
        let ghost orig = entries@;
        let mut r = JsonObject::Nil;
        while entries.len() > 0
            invariant
                entries@ == orig.take(entries@.len() as int),
                entries@.len() <= orig.len(),
                r.members() == orig.skip(entries@.len() as int).map_values(|e: (String, JsonValue)| (e.0@, e.1)),
            decreases entries.len(),
        {
            let ghost n = entries@.len();
            let (k, v) = entries.pop().unwrap();
            proof {
                assert(entries@ =~= orig.take(n - 1));
                assert(orig.skip(n - 1).map_values(|e: (String, JsonValue)| (e.0@, e.1)) =~= seq![(k@, v)] + orig.skip(n as int).map_values(|e: (String, JsonValue)| (e.0@, e.1)));
            }
            r = JsonObject::Cons(k, Box::new(v), Box::new(r));
        }
        proof {
            assert(orig.skip(0) =~= orig);
        }
        r
    }

    /// A copy of this object.
    pub fn duplicate(&self) -> (r: JsonObject)
        ensures
            r == *self,
        decreases self,
    {
        match self {
            JsonObject::Nil => JsonObject::Nil,
            JsonObject::Cons(k, v, rest) => JsonObject::Cons(k.clone(), Box::new(v.duplicate()), Box::new(rest.duplicate())),
        }
    }
}

/// After setting `key`, looking it up gives the new value, and every other
/// name keeps its value.
pub proof fn lemma_insert_lookup(o: JsonObject, key: String, value: JsonValue)
    ensures
        o.insert(key, value).lookup(key@) == Some(value),
        forall|k: Seq<char>| k != key@ ==> o.insert(key, value).lookup(k) == o.lookup(k),
    decreases o,
{
    match o {
        JsonObject::Nil => {
            assert forall|k: Seq<char>| k != key@ implies o.insert(key, value).lookup(k) == o.lookup(k) by {
                assert(JsonObject::Nil.lookup(k) is None);
            }
        },
        JsonObject::Cons(k0, v, rest) => {
            lemma_insert_lookup(*rest, key, value);
            assert forall|k: Seq<char>| k != key@ implies o.insert(key, value).lookup(k) == o.lookup(k) by {
                assert(rest.insert(key, value).lookup(k) == rest.lookup(k));
            }
        },
    }
}

/// After removing `key`, it is absent, and every other name keeps its value.
pub proof fn lemma_remove_lookup(o: JsonObject, key: Seq<char>)
    ensures
        o.remove(key).lookup(key) is None,
        forall|k: Seq<char>| k != key ==> o.remove(key).lookup(k) == o.lookup(k),
    decreases o,
{
    match o {
        JsonObject::Nil => {},
        JsonObject::Cons(k0, v, rest) => {
            lemma_remove_lookup(*rest, key);
            assert forall|k: Seq<char>| k != key implies o.remove(key).lookup(k) == o.lookup(k) by {
                assert(rest.remove(key).lookup(k) == rest.lookup(k));
            }
        },
    }
}


/// The mathematical content of a JSON value: texts as character sequences,
/// arrays as sequences and objects as sequences of (name, value) members.
pub enum JsonView {
    Null,
    Bool(bool),
    Int(i64),
    UInt(u64),
    Float(Seq<char>),
    Str(Seq<char>),
    Array(Seq<JsonView>),
    Object(Seq<(Seq<char>, JsonView)>),
}

/// The content of a JSON value.
pub open spec fn jview(v: JsonValue) -> JsonView
    decreases v,
{
    match v {
        JsonValue::Null => JsonView::Null,
        JsonValue::Bool(b) => JsonView::Bool(b),
        JsonValue::Number(JsonNumber::Int(i)) => JsonView::Int(i),
        JsonValue::Number(JsonNumber::UInt(u)) => JsonView::UInt(u),
        JsonValue::Number(JsonNumber::Float(t)) => JsonView::Float(t@),
        JsonValue::String(s) => JsonView::Str(s@),
        JsonValue::Array(a) => JsonView::Array(aview(a)),
        JsonValue::Object(o) => JsonView::Object(oview(o)),
    }
}

/// The contents of the elements of an array.
pub open spec fn aview(a: JsonArray) -> Seq<JsonView>
    decreases a,
{
    match a {
        JsonArray::Nil => Seq::empty(),
        JsonArray::Cons(h, t) => seq![jview(*h)] + aview(*t),
    }
}

/// The members of an object, with their values' contents.
pub open spec fn oview(o: JsonObject) -> Seq<(Seq<char>, JsonView)>
    decreases o,
{
    match o {
        JsonObject::Nil => Seq::empty(),
        JsonObject::Cons(k, v, rest) => seq![(k@, jview(*v))] + oview(*rest),
    }
}

/// The value of the first member named `key`.
pub open spec fn ov_lookup(s: Seq<(Seq<char>, JsonView)>, key: Seq<char>) -> Option<JsonView>
    decreases s.len(),
{
    if s.len() == 0 {
        None
    } else if s[0].0 == key {
        Some(s[0].1)
    } else {
        ov_lookup(s.drop_first(), key)
    }
}

/// The members after setting `key` to `value`: the first member with that
/// name gets the value, or a member is added at the end.
pub open spec fn ov_insert(s: Seq<(Seq<char>, JsonView)>, key: Seq<char>, value: JsonView) -> Seq<(Seq<char>, JsonView)>
    decreases s.len(),
{
    if s.len() == 0 {
        seq![(key, value)]
    } else if s[0].0 == key {
        s.update(0, (key, value))
    } else {
        seq![s[0]] + ov_insert(s.drop_first(), key, value)
    }
}

/// The members without any named `key`.
pub open spec fn ov_remove(s: Seq<(Seq<char>, JsonView)>, key: Seq<char>) -> Seq<(Seq<char>, JsonView)>
    decreases s.len(),
{
    if s.len() == 0 {
        s
    } else if s[0].0 == key {
        ov_remove(s.drop_first(), key)
    } else {
        seq![s[0]] + ov_remove(s.drop_first(), key)
    }
}

/// The content of a JSON number holding `n`: a signed integer when it fits
/// `i64`, an unsigned one otherwise.
pub open spec fn json_u64_view(n: u64) -> JsonView {
    if n <= i64::MAX as u64 { JsonView::Int(n as i64) } else { JsonView::UInt(n) }
}

/// The member of a value's content named `key`, if it is an object.
pub open spec fn jv_field(v: JsonView, key: Seq<char>) -> Option<JsonView> {
    match v {
        JsonView::Object(s) => ov_lookup(s, key),
        _ => None,
    }
}

/// The content of an object is that of its members.
pub proof fn lemma_members_oview(o: JsonObject)
    ensures
        oview(o) == o.members().map_values(|m: (Seq<char>, JsonValue)| (m.0, jview(m.1))),
    decreases o,
{
    match o {
        JsonObject::Nil => {
            assert(o.members().map_values(|m: (Seq<char>, JsonValue)| (m.0, jview(m.1))) =~= Seq::<(Seq<char>, JsonView)>::empty());
        },
        JsonObject::Cons(k, v, rest) => {
            lemma_members_oview(*rest);
            assert(o.members().map_values(|m: (Seq<char>, JsonValue)| (m.0, jview(m.1)))
                =~= seq![(k@, jview(*v))] + rest.members().map_values(|m: (Seq<char>, JsonValue)| (m.0, jview(m.1))));
        },
    }
}

/// Looking a member up agrees with the content of the object.
pub proof fn lemma_oview_lookup(o: JsonObject, key: Seq<char>)
    ensures
        match o.lookup(key) {
            Some(x) => ov_lookup(oview(o), key) == Some(jview(x)),
            None => ov_lookup(oview(o), key) is None,
        },
    decreases o,
{
    match o {
        JsonObject::Nil => {},
        JsonObject::Cons(k, v, rest) => {
            lemma_oview_lookup(*rest, key);
            assert(oview(o).drop_first() =~= oview(*rest));
        },
    }
}

/// Setting a member agrees with the content of the object.
pub proof fn lemma_oview_insert(o: JsonObject, key: String, value: JsonValue)
    ensures
        oview(o.insert(key, value)) == ov_insert(oview(o), key@, jview(value)),
    decreases o,
{
    match o {
        JsonObject::Nil => {
            assert(oview(o.insert(key, value)) =~= seq![(key@, jview(value))]);
        },
        JsonObject::Cons(k, v, rest) => {
            lemma_oview_insert(*rest, key, value);
            assert(oview(o).drop_first() =~= oview(*rest));
            if k@ == key@ {
                assert(oview(o.insert(key, value)) =~= oview(o).update(0, (key@, jview(value))));
            } else {
                assert(oview(o.insert(key, value)) =~= seq![oview(o)[0]] + ov_insert(oview(*rest), key@, jview(value)));
            }
        },
    }
}

/// Removing a member agrees with the content of the object.
pub proof fn lemma_oview_remove(o: JsonObject, key: Seq<char>)
    ensures
        oview(o.remove(key)) == ov_remove(oview(o), key),
    decreases o,
{
    match o {
        JsonObject::Nil => {},
        JsonObject::Cons(k, v, rest) => {
            lemma_oview_remove(*rest, key);
            assert(oview(o).drop_first() =~= oview(*rest));
            if k@ != key {
                assert(oview(o.remove(key)) =~= seq![oview(o)[0]] + ov_remove(oview(*rest), key));
            }
        },
    }
}

impl JsonArray {
    /// The elements, first to last.
    pub open spec fn elements(self) -> Seq<JsonValue>
        decreases self,
    {
        match self {
            JsonArray::Nil => Seq::empty(),
            JsonArray::Cons(v, rest) => seq![*v] + rest.elements(),
        }
    }

    /// The array made of `items`, in order.
    pub fn from_vec(items: Vec<JsonValue>) -> (r: JsonArray)
        ensures
            r.elements() == items@,
    {
        let mut items = items;
        let ghost orig = items@;
        let mut r = JsonArray::Nil;
        while items.len() > 0
            invariant
                items@ == orig.take(items@.len() as int),
                items@.len() <= orig.len(),
                r.elements() == orig.skip(items@.len() as int),
            decreases items.len(),
        {
            let ghost n = items@.len();
            let v = items.pop().unwrap();
            proof {
                assert(items@ =~= orig.take(n - 1));
                assert(orig.skip(n - 1) =~= seq![v] + orig.skip(n as int));
            }
            r = JsonArray::Cons(Box::new(v), Box::new(r));
        }
        proof {
            assert(orig.skip(0) =~= orig);
        }
        r
    }

    /// A copy of this array.
    pub fn duplicate(&self) -> (r: JsonArray)
        ensures
            r == *self,
        decreases self,
    {
        match self {
            JsonArray::Nil => JsonArray::Nil,
            JsonArray::Cons(v, rest) => JsonArray::Cons(Box::new(v.duplicate()), Box::new(rest.duplicate())),
        }
    }
}

impl JsonValue {
    /// The member `key` of an object; no member for other values.
    pub open spec fn field(self, key: Seq<char>) -> Option<JsonValue> {
        match self {
            JsonValue::Object(o) => o.lookup(key),
            _ => None,
        }
    }

    /// The member `key` of an object (`None` for other values).
    pub fn get(&self, key: &str) -> (r: Option<&JsonValue>)
        ensures
            r is Some == self.field(key@) is Some,
            r is Some ==> *r->0 == self.field(key@)->0,
    {
        match self {
            JsonValue::Object(o) => o.get(key),
            _ => None,
        }
    }

    /// The members of an object.
    pub fn as_object(&self) -> (r: Option<&JsonObject>)
        ensures
            r is Some == (self is Object),
            r is Some ==> *r->0 == self->Object_0,
    {
        match self {
            JsonValue::Object(o) => Some(o),
            _ => None,
        }
    }

    /// The elements of an array.
    pub fn as_array(&self) -> (r: Option<&JsonArray>)
        ensures
            r is Some == (self is Array),
            r is Some ==> *r->0 == self->Array_0,
    {
        match self {
            JsonValue::Array(a) => Some(a),
            _ => None,
        }
    }

    /// Whether this is a JSON object.
    pub fn is_object(&self) -> (r: bool)
        ensures
            r == (self is Object),
    {
        match self {
            JsonValue::Object(_) => true,
            _ => false,
        }
    }

    /// Whether this is a JSON string.
    pub fn is_string(&self) -> (r: bool)
        ensures
            r == (self is String),
    {
        match self {
            JsonValue::String(_) => true,
            _ => false,
        }
    }

    /// Whether this is a JSON number.
    pub fn is_number(&self) -> (r: bool)
        ensures
            r == (self is Number),
    {
        match self {
            JsonValue::Number(_) => true,
            _ => false,
        }
    }

    /// Whether this is a JSON boolean.
    pub fn is_boolean(&self) -> (r: bool)
        ensures
            r == (self is Bool),
    {
        match self {
            JsonValue::Bool(_) => true,
            _ => false,
        }
    }

    /// Whether this is a JSON array.
    pub fn is_array(&self) -> (r: bool)
        ensures
            r == (self is Array),
    {
        match self {
            JsonValue::Array(_) => true,
            _ => false,
        }
    }

    /// Whether this is JSON null.
    pub fn is_null(&self) -> (r: bool)
        ensures
            r == (self is Null),
    {
        match self {
            JsonValue::Null => true,
            _ => false,
        }
    }

    /// The text of a JSON string.
    pub fn as_str(&self) -> (r: Option<&str>)
        ensures
            r is Some == (self is String),
            r is Some ==> r->0@ == self->String_0@,
    {
        match self {
            JsonValue::String(s) => Some(s.as_str()),
            _ => None,
        }
    }

    /// A copy of this value.
    pub fn duplicate(&self) -> (r: JsonValue)
        ensures
            r == *self,
        decreases self,
    {
        match self {
            JsonValue::Null => JsonValue::Null,
            JsonValue::Bool(b) => JsonValue::Bool(*b),
            JsonValue::Number(n) => JsonValue::Number(n.duplicate()),
            JsonValue::String(s) => JsonValue::String(s.clone()),
            JsonValue::Array(a) => JsonValue::Array(a.duplicate()),
            JsonValue::Object(o) => JsonValue::Object(o.duplicate()),
        }
    }

    /// A JSON number holding the unsigned integer `n`.
    pub fn from_u64(n: u64) -> (r: JsonValue)
        ensures
            jview(r) == json_u64_view(n),
    {
        if n <= 0x7fff_ffff_ffff_ffffu64 {
            JsonValue::Number(JsonNumber::Int(n as i64))
        } else {
            JsonValue::Number(JsonNumber::UInt(n))
        }
    }

    /// A JSON string holding `s`.
    pub fn string(s: &str) -> (r: JsonValue)
        ensures
            r is String,
            r->String_0@ == s@,
    {
        JsonValue::String(crate::text::owned(s))
    }

    /// A JSON object made of `entries`, in order.
    pub fn object(entries: Vec<(String, JsonValue)>) -> (r: JsonValue)
        ensures
            r is Object,
            r->Object_0.members() == entries@.map_values(|e: (String, JsonValue)| (e.0@, e.1)),
    {
        JsonValue::Object(JsonObject::from_entries(entries))
    }

    /// A JSON array made of `items`, in order.
    pub fn array(items: Vec<JsonValue>) -> (r: JsonValue)
        ensures
            r is Array,
            r->Array_0.elements() == items@,
    {
        JsonValue::Array(JsonArray::from_vec(items))
    }
}

impl JsonNumber {
    /// A copy of this number.
    pub fn duplicate(&self) -> (r: JsonNumber)
        ensures
            r == *self,
    {
        match self {
            JsonNumber::Int(i) => JsonNumber::Int(*i),
            JsonNumber::UInt(u) => JsonNumber::UInt(*u),
            JsonNumber::Float(t) => JsonNumber::Float(t.clone()),
        }
    }
}

/// How an optional text member `key` of an object reads: absent or null
/// is no text, a string is that text, anything else is unreadable
/// (`None`).
pub open spec fn opt_str_member(v: JsonView, key: Seq<char>) -> Option<Option<Seq<char>>> {
    match jv_field(v, key) {
        None => Some(None),
        Some(JsonView::Null) => Some(None),
        Some(JsonView::Str(t)) => Some(Some(t)),
        _ => None,
    }
}

/// How a required text member `key` of an object reads: its text when it
/// is a string.
pub open spec fn str_member(v: JsonView, key: Seq<char>) -> Option<Seq<char>> {
    match jv_field(v, key) {
        Some(JsonView::Str(t)) => Some(t),
        _ => None,
    }
}

/// A member of a value, as its content.
pub proof fn lemma_field_jview(v: JsonValue, key: Seq<char>)
    ensures
        match v.field(key) {
            Some(x) => jv_field(jview(v), key) == Some(jview(x)),
            None => jv_field(jview(v), key) is None,
        },
{
    match v {
        JsonValue::Object(o) => lemma_oview_lookup(o, key),
        _ => {},
    }
}

/// Reads an optional text member `key` of a value.
pub fn read_opt_str(v: &JsonValue, key: &str) -> (r: Option<Option<String>>)
    ensures
        match opt_str_member(jview(*v), key@) {
            Some(Some(t)) => r matches Some(Some(x)) && x@ == t,
            Some(None) => r matches Some(None),
            None => r is None,
        },
{
    proof {
        lemma_field_jview(*v, key@);
    }
    match v.get(key) {
        None => Some(None),
        Some(JsonValue::Null) => Some(None),
        Some(JsonValue::String(t)) => Some(Some(t.clone())),
        Some(_) => None,
    }
}

/// Reads a required text member `key` of a value.
pub fn read_str(v: &JsonValue, key: &str) -> (r: Option<String>)
    ensures
        match str_member(jview(*v), key@) {
            Some(t) => r matches Some(x) && x@ == t,
            None => r is None,
        },
{
    proof {
        lemma_field_jview(*v, key@);
    }
    match v.get(key) {
        Some(JsonValue::String(t)) => Some(t.clone()),
        _ => None,
    }
}

} // verus!
