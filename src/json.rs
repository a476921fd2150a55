//! A JSON document tree, the form in which manifest records are written to disk.

use vstd::prelude::*;

verus! {

broadcast use vstd::std_specs::vec::group_vec_axioms;

/// A JSON value. Object members keep the order in which they are written;
/// a number is held as its JSON text.
#[derive(Debug)]
pub enum Json {
    Null,
    Bool(bool),
    Num(String),
    Str(String),
    Arr(Vec<Json>),
    Obj(Vec<(String, Json)>),
}

/// The mathematical model of a [`Json`] value.
pub enum JsonValue {
    Null,
    Bool(bool),
    Num(Seq<char>),
    Str(Seq<char>),
    Arr(Seq<JsonValue>),
    Obj(Seq<(Seq<char>, JsonValue)>),
}

/// The model of a value: strings and numbers by their characters, members
/// and items in order.
pub open spec fn json_view(j: Json) -> JsonValue
    decreases j,
{
    match j {
        Json::Null => JsonValue::Null,
        Json::Bool(b) => JsonValue::Bool(b),
        Json::Num(n) => JsonValue::Num(n@),
        Json::Str(s) => JsonValue::Str(s@),
        Json::Arr(items) => JsonValue::Arr(
            Seq::new(
                items.len() as nat,
                |i: int|
                    if 0 <= i < items.len() {
                        json_view(items[i])
                    } else {
                        JsonValue::Null
                    },
            ),
        ),
        Json::Obj(fields) => JsonValue::Obj(
            Seq::new(
                fields.len() as nat,
                |i: int|
                    if 0 <= i < fields.len() {
                        (fields[i].0@, json_view(fields[i].1))
                    } else {
                        (Seq::empty(), JsonValue::Null)
                    },
            ),
        ),
    }
}

impl View for Json {
    type V = JsonValue;

    open spec fn view(&self) -> JsonValue {
        json_view(*self)
    }
}

/// The model of a list of object members.
pub open spec fn members_view(fields: Seq<(String, Json)>) -> Seq<(Seq<char>, JsonValue)> {
    fields.map_values(|f: (String, Json)| (f.0@, json_view(f.1)))
}

/// The model of an object is the model of its members.
pub proof fn lemma_obj_view(fields: Vec<(String, Json)>)
    ensures
        json_view(Json::Obj(fields)) == JsonValue::Obj(members_view(fields@)),
{
    let v = json_view(Json::Obj(fields));
    let m = members_view(fields@);
    match v {
        JsonValue::Obj(s) => {
            assert(s.len() == m.len());
            assert forall|i: int| 0 <= i < s.len() implies s[i] == m[i] by {}
            assert(s =~= m);
        },
        _ => {},
    }
}

/// `i` is the first position of `fields` whose name is `key`.
pub open spec fn is_first_key(fields: Seq<(Seq<char>, JsonValue)>, key: Seq<char>, i: int) -> bool {
    &&& 0 <= i < fields.len()
    &&& fields[i].0 == key
    &&& forall|k: int| 0 <= k < i ==> fields[k].0 != key
}

/// The value of the first member of `fields` named `key`, as a JSON reader
/// that keeps the first of repeated names sees it.
pub open spec fn lookup(fields: Seq<(Seq<char>, JsonValue)>, key: Seq<char>) -> Option<JsonValue> {
    if exists|i: int| is_first_key(fields, key, i) {
        Some(fields[choose|i: int| is_first_key(fields, key, i)].1)
    } else {
        None
    }
}

/// The member named `key` of `j`; `None` where `j` is not an object or has no
/// such member.
pub open spec fn member(j: JsonValue, key: Seq<char>) -> Option<JsonValue> {
    match j {
        JsonValue::Obj(fields) => lookup(fields, key),
        _ => None,
    }
}

/// Looking a name up finds the first member of that name.
pub proof fn lemma_lookup_at(fields: Seq<(Seq<char>, JsonValue)>, key: Seq<char>, i: int)
    requires
        is_first_key(fields, key, i),
    ensures
        lookup(fields, key) == Some(fields[i].1),
{
    let c = choose|c: int| is_first_key(fields, key, c);
    assert(c == i) by {
        if c < i {
            assert(fields[c].0 != key);
        } else if c > i {
            assert(fields[i].0 != key);
        }
    }
}

/// Looking up a name that no member has finds nothing.
pub proof fn lemma_lookup_absent(fields: Seq<(Seq<char>, JsonValue)>, key: Seq<char>)
    requires
        forall|k: int| 0 <= k < fields.len() ==> fields[k].0 != key,
    ensures
        lookup(fields, key).is_none(),
{
}

/// Finds the member named `key` of `j`.
pub fn get_member<'a>(j: &'a Json, key: &str) -> (r: Option<&'a Json>)
    ensures
        match r {
            Some(v) => member(j@, key@) == Some(v@),
            None => member(j@, key@).is_none(),
        },
{
    match j {
        Json::Obj(fields) => {
            proof {
                lemma_obj_view(*fields);
            }
            let ghost fs = members_view(fields@);
            assert(j@ == JsonValue::Obj(fs));
            let k = String::from_str(key);
            let mut i: usize = 0;
            while i < fields.len()
                invariant
                    fs == members_view(fields@),
                    j@ == JsonValue::Obj(fs),
                    k@ == key@,
                    i <= fields.len(),
                    forall|c: int| 0 <= c < i ==> fs[c].0 != key@,
                decreases fields.len() - i,
            {
                if fields[i].0 == k {
                    proof {
                        lemma_lookup_at(fs, key@, i as int);
                        assert(fs[i as int].1 == json_view(fields@[i as int].1));
                    }
                    return Some(&fields[i].1);
                }
                i = i + 1;
            }
            proof {
                lemma_lookup_absent(fs, key@);
            }
            None
        },
        _ => None,
    }
}

/// A JSON object with the given members, in order.
pub fn object(fields: Vec<(String, Json)>) -> (r: Json)
    ensures
        r@ == JsonValue::Obj(members_view(fields@)),
{
    proof {
        lemma_obj_view(fields);
    }
    Json::Obj(fields)
}

/// A JSON string, or `null` for `None`.
pub fn opt_string(s: &Option<String>) -> (r: Json)
    ensures
        r@ == match s {
            Some(t) => JsonValue::Str(t@),
            None => JsonValue::Null,
        },
{
    match s {
        Some(t) => Json::Str(t.clone()),
        None => Json::Null,
    }
}

// ----- JSON text, through serde_json -----

#[verifier::external_type_specification]
#[verifier::external_body]
pub struct ExValue(serde_json::Value);

/// The pretty-printed text that serde_json writes for a document.
pub uninterp spec fn pretty_text(j: JsonValue) -> Seq<char>;

/// The document that serde_json reads from a text; `None` where the text is
/// not JSON.
pub uninterp spec fn parsed_text(text: Seq<char>) -> Option<JsonValue>;

/// serde_json's value of a document, member for member and in order.
#[verifier::external_body]
fn to_value(j: &Json) -> serde_json::Value {
    match j {
        Json::Null => serde_json::Value::Null,
        Json::Bool(b) => serde_json::Value::Bool(*b),
        Json::Num(n) => n.parse().map(serde_json::Value::Number).unwrap_or(serde_json::Value::Null),
        Json::Str(s) => serde_json::Value::String(s.clone()),
        Json::Arr(a) => serde_json::Value::Array(a.iter().map(to_value).collect()),
        Json::Obj(o) => serde_json::Value::Object(
            o.iter().map(|(k, v)| (k.clone(), to_value(v))).collect(),
        ),
    }
}

/// The document of a serde_json value, member for member and in order.
#[verifier::external_body]
fn from_value(v: &serde_json::Value) -> Json {
    match v {
        serde_json::Value::Null => Json::Null,
        serde_json::Value::Bool(b) => Json::Bool(*b),
        serde_json::Value::Number(n) => Json::Num(n.to_string()),
        serde_json::Value::String(s) => Json::Str(s.clone()),
        serde_json::Value::Array(a) => Json::Arr(a.iter().map(from_value).collect()),
        serde_json::Value::Object(o) => Json::Obj(
            o.iter().map(|(k, v)| (k.clone(), from_value(v))).collect(),
        ),
    }
}

/// Relies on serde_json::to_string_pretty: the text of a document depends on
/// the document alone (members keep their order).
#[verifier::external_body]
pub(crate) fn render(j: &Json) -> (r: String)
    ensures
        r@ == pretty_text(j@),
{
    serde_json::to_string_pretty(&to_value(j)).unwrap_or_default()
}

/// Relies on serde_json::from_str: reads a document from a text, or finds
/// that the text is not JSON; the outcome depends on the text alone.
#[verifier::external_body]
pub(crate) fn parse(text: &str) -> (r: Option<Json>)
    ensures
        match r {
            Some(j) => parsed_text(text@) == Some(j@),
            None => parsed_text(text@) is None,
        },
{
    serde_json::from_str::<serde_json::Value>(text).ok().map(|v| from_value(&v))
}

} // verus!
