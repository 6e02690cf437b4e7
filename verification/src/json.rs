use vstd::prelude::*;

verus! {

/// A JSON document, held as plain values: what the logic reads of the
/// documents it handles. A number is kept only when it is a non-negative
/// integer that fits in `u64` — the one kind the counter store admits —
/// and is `NumOther` otherwise. An object is a key/value list in document
/// order.
#[derive(Debug)]
pub enum JsonValue {
    Null,
    Bool(bool),
    Num(u64),
    NumOther,
    Str(String),
    Arr(Vec<JsonValue>),
    Obj(Vec<(String, JsonValue)>),
}

/// Whether a document can be rendered as text: it holds no `NumOther`,
/// whose numeric value the library does not keep.
pub open spec fn printable(v: JsonValue) -> bool
    decreases v,
{
    match v {
        JsonValue::NumOther => false,
        JsonValue::Arr(xs) => forall|i: int| 0 <= i < xs@.len() ==> printable(#[trigger] xs@[i]),
        JsonValue::Obj(es) => forall|i: int|
            0 <= i < es@.len() ==> printable(#[trigger] es@[i].1),
        _ => true,
    }
}

/// The value under a key in an object's entry list: the first entry whose
/// key matches, if any.
pub open spec fn obj_lookup(es: Seq<(String, JsonValue)>, key: Seq<char>) -> Option<JsonValue>
    decreases es.len(),
{
    if es.len() == 0 {
        None
    } else if es[0].0@ == key {
        Some(es[0].1)
    } else {
        obj_lookup(es.drop_first(), key)
    }
}

/// Finds the value under a key in an object's entry list.
pub fn obj_get<'a>(es: &'a Vec<(String, JsonValue)>, key: &String) -> (r: Option<&'a JsonValue>)
    ensures
        match r {
            Some(v) => obj_lookup(es@, key@) == Some(*v),
            None => obj_lookup(es@, key@) is None,
        },
{
    let mut i: usize = 0;
    proof {
        assert(es@.skip(0) =~= es@);
    }
    while i < es.len()
        invariant
            i <= es@.len(),
            obj_lookup(es@, key@) == obj_lookup(es@.skip(i as int), key@),
        decreases es@.len() - i,
    {
        let e = &es[i];
        proof {
            assert(es@.skip(i as int)[0] == es@[i as int]);
            assert(es@.skip(i as int).drop_first() =~= es@.skip(i as int + 1));
        }
        if e.0 == *key {
            return Some(&e.1);
        }
        i = i + 1;
    }
    proof {
        assert(es@.skip(es@.len() as int).len() == 0);
    }
    None
}

#[verifier::external_type_specification]
#[verifier::external_body]
pub struct ExValue(serde_json::Value);

/// Carries a document of serde_json over into the library's own
/// representation, variant by variant; a number that is not a `u64`
/// becomes `NumOther`.
#[verifier::external_body]
fn from_serde(v: serde_json::Value) -> JsonValue {
    match v {
        serde_json::Value::Null => JsonValue::Null,
        serde_json::Value::Bool(b) => JsonValue::Bool(b),
        serde_json::Value::Number(n) => match n.as_u64() {
            Some(u) => JsonValue::Num(u),
            None => JsonValue::NumOther,
        },
        serde_json::Value::String(s) => JsonValue::Str(s),
        serde_json::Value::Array(xs) => JsonValue::Arr(xs.into_iter().map(from_serde).collect()),
        serde_json::Value::Object(es) => JsonValue::Obj(
            es.into_iter().map(|(k, x)| (k, from_serde(x))).collect(),
        ),
    }
}

/// Carries a document of the library over into serde_json's
/// representation, variant by variant. Callers rule `NumOther` out, so
/// its arm is never reached.
#[verifier::external_body]
fn to_serde(v: &JsonValue) -> serde_json::Value {
    match v {
        JsonValue::Null => serde_json::Value::Null,
        JsonValue::NumOther => serde_json::Value::Null,
        JsonValue::Bool(b) => serde_json::Value::Bool(*b),
        JsonValue::Num(u) => serde_json::Value::Number(serde_json::Number::from(*u)),
        JsonValue::Str(s) => serde_json::Value::String(s.clone()),
        JsonValue::Arr(xs) => serde_json::Value::Array(xs.iter().map(to_serde).collect()),
        JsonValue::Obj(es) => serde_json::Value::Object(
            es.iter().map(|(k, x)| (k.clone(), to_serde(x))).collect(),
        ),
    }
}

/// The document a text parses to, if it parses at all: a function of the
/// text alone.
pub uninterp spec fn json_parse(text: Seq<char>) -> Option<JsonValue>;

/// Relies on serde_json::from_str: whether a text parses, and to what
/// document, depends on the text alone.
#[verifier::external_body]
pub(crate) fn parse_json(text: &str) -> (r: Option<JsonValue>)
    ensures
        r == json_parse(text@),
{
    match serde_json::from_str::<serde_json::Value>(text) {
        Ok(v) => Some(from_serde(v)),
        Err(_) => None,
    }
}

/// The text a document is rendered to: a function of the document alone.
pub uninterp spec fn json_print(doc: JsonValue) -> Seq<char>;

/// Relies on serde_json::to_string: the text for a document depends on
/// the document alone (object keys come out sorted). On a document of
/// string-keyed objects it does not fail.
#[verifier::external_body]
pub(crate) fn json_to_text(doc: &JsonValue) -> (r: String)
    requires
        printable(*doc),
    ensures
        r@ == json_print(*doc),
{
    match serde_json::to_string(&to_serde(doc)) {
        Ok(t) => t,
        Err(_) => String::new(),
    }
}

} // verus!
