//! A plain JSON document tree and the trusted parse that produces it. The
//! tolerant reading of server messages is verified code over this tree; only
//! the parse of raw text into the tree is taken on trust.

use vstd::prelude::*;

use crate::text::str_eq;

verus! {

/// A parsed JSON document. Numbers carry their integer readings only: the
/// i64 reading when the number is an integer in i64 range, the u64 reading
/// when it is a nonnegative integer in u64 range. A number with neither
/// reading (a fraction, an exponent form, or an out-of-range integer) is kept
/// as a number with no usable value.
pub enum JsonVal {
    Null,
    Bool(bool),
    Num { int_val: Option<i64>, uint_val: Option<u64> },
    Text(String),
    Arr(Vec<JsonVal>),
    Obj(Vec<(String, JsonVal)>),
}

/// What serde_json parses the given text to, if it is valid JSON: the
/// document tree, with object keys deduplicated (later duplicates win) and
/// sorted. A function of the text alone.
pub uninterp spec fn json_doc(text: Seq<char>) -> Option<JsonVal>;

/// Relies on serde_json::from_str::<Value>: whether the text parses as JSON
/// and the resulting document depend on the text alone. The parsed Value is
/// copied into the crate's own tree by `tree_of_value`.
#[verifier::external_body]
pub fn json_parse(text: &str) -> (r: Option<JsonVal>)
    ensures
        r == json_doc(text@),
{
    match serde_json::from_str::<serde_json::Value>(text) {
        Ok(v) => Some(tree_of_value(v)),
        Err(_) => None,
    }
}

/// serde_json's document type, opaque here: `tree_of_value` consumes it.
#[verifier::external_type_specification]
#[verifier::external_body]
pub struct ExValue(serde_json::Value);

/// Relies on serde_json::Value and Number::as_i64/as_u64: copies the parsed
/// document, arm by arm, into the crate's own tree. Floating point readings
/// are not carried over.
#[verifier::external_body]
fn tree_of_value(v: serde_json::Value) -> JsonVal {
    match v {
        serde_json::Value::Null => JsonVal::Null,
        serde_json::Value::Bool(b) => JsonVal::Bool(b),
        serde_json::Value::Number(n) => JsonVal::Num { int_val: n.as_i64(), uint_val: n.as_u64() },
        serde_json::Value::String(s) => JsonVal::Text(s),
        serde_json::Value::Array(a) => JsonVal::Arr(a.into_iter().map(tree_of_value).collect()),
        serde_json::Value::Object(m) => JsonVal::Obj(
            m.into_iter().map(|(k, x)| (k, tree_of_value(x))).collect(),
        ),
    }
}

/// The value of the first field with the given name, if any. Keys coming out
/// of the parse are unique, so "first" is simply "the" match.
pub open spec fn obj_lookup(fields: Seq<(String, JsonVal)>, name: Seq<char>) -> Option<JsonVal>
    decreases fields.len(),
{
    if fields.len() == 0 {
        None
    } else if fields[0].0@ == name {
        Some(fields[0].1)
    } else {
        obj_lookup(fields.drop_first(), name)
    }
}

proof fn lemma_obj_lookup_step(fields: Seq<(String, JsonVal)>, name: Seq<char>, i: int)
    requires
        0 <= i <= fields.len(),
        forall|j: int| 0 <= j < i ==> fields[j].0@ != name,
    ensures
        obj_lookup(fields, name) == obj_lookup(fields.skip(i), name),
    decreases i,
{
    if i > 0 {
        lemma_obj_lookup_step(fields, name, i - 1);
        assert(fields.skip(i - 1).drop_first() =~= fields.skip(i));
        assert(fields.skip(i - 1)[0] == fields[i - 1]);
    } else {
        assert(fields.skip(0) =~= fields);
    }
}

/// Finds the field with the given name in an object's field list.
pub fn obj_get<'a>(fields: &'a Vec<(String, JsonVal)>, name: &str) -> (r: Option<&'a JsonVal>)
    ensures
        match r {
            Some(v) => obj_lookup(fields@, name@) == Some(*v),
            None => obj_lookup(fields@, name@) is None,
        },
{
    let n = fields.len();
    let mut i: usize = 0;
    while i < n
        invariant
            n == fields@.len(),
            i <= n,
            forall|j: int| 0 <= j < i ==> fields@[j].0@ != name@,
        decreases n - i,
    {
        if str_eq(fields[i].0.as_str(), name) {
            proof {
                lemma_obj_lookup_step(fields@, name@, i as int);
                assert(fields@.skip(i as int)[0] == fields@[i as int]);
            }
            return Some(&fields[i].1);
        }
        i += 1;
    }
    proof {
        lemma_obj_lookup_step(fields@, name@, n as int);
        assert(fields@.skip(n as int).len() == 0);
    }
    None
}

} // verus!
