//! JSON values as the library sees them: `serde_json::Value` carried through
//! the logic, read through a small set of accessors whose contracts speak of
//! a mathematical model of the value.
use vstd::prelude::*;

verus! {

/// A JSON number as serde_json holds it: a non-negative integer, a negative
/// integer, or a float (kept here as its IEEE-754 bit pattern).
pub ghost enum JsonNumber {
    PosInt(u64),
    NegInt(i64),
    Float(u64),
}

/// The model of a JSON value. Objects are maps from keys to values, as in
/// serde_json's default (ordered, key-unique) map.
pub ghost enum Json {
    Null,
    Bool(bool),
    Number(JsonNumber),
    Str(Seq<char>),
    Array(Seq<Json>),
    Object(Map<Seq<char>, Json>),
}

#[verifier::external_type_specification]
#[verifier::external_body]
pub struct ExValue(serde_json::Value);

/// What a `serde_json::Value` holds.
pub uninterp spec fn json_of(v: serde_json::Value) -> Json;

/// The compact JSON text that serde_json writes for a value.
pub uninterp spec fn json_text(j: Json) -> Seq<char>;

/// The value serde_json parses from a text, if the text is JSON.
pub uninterp spec fn parsed_json(t: Seq<char>) -> Option<Json>;

/// The map that key/value pairs describe; of two pairs with one key, the
/// later one counts.
pub open spec fn map_from_pairs<K, V>(pairs: Seq<(K, V)>) -> Map<K, V>
    decreases pairs.len(),
{
    if pairs.len() == 0 {
        Map::empty()
    } else {
        map_from_pairs(pairs.drop_last()).insert(pairs.last().0, pairs.last().1)
    }
}

/// Pairs with each value passed through `f`.
pub open spec fn map_pair_values<K, V, W>(pairs: Seq<(K, V)>, f: spec_fn(V) -> W) -> Seq<(K, W)> {
    Seq::new(pairs.len(), |i: int| (pairs[i].0, f(pairs[i].1)))
}

/// Mapping the values of the pairs maps the values of the map they describe.
pub proof fn lemma_map_from_pairs_values<K, V, W>(pairs: Seq<(K, V)>, f: spec_fn(V) -> W)
    ensures
        map_from_pairs(map_pair_values(pairs, f)) == map_from_pairs(pairs).map_values(f),
    decreases pairs.len(),
{
    if pairs.len() == 0 {
        assert(map_from_pairs(pairs).map_values(f) =~= Map::empty());
    } else {
        let init = pairs.drop_last();
        lemma_map_from_pairs_values(init, f);
        assert(map_pair_values(pairs, f).drop_last() =~= map_pair_values(init, f));
        assert(map_from_pairs(map_pair_values(pairs, f)) =~= map_from_pairs(pairs).map_values(f));
    }
}

/// With distinct keys, the map that pairs describe holds each pair.
pub proof fn lemma_map_from_distinct_pairs<K, V>(pairs: Seq<(K, V)>, i: int)
    requires
        distinct_keys(pairs),
        0 <= i < pairs.len(),
    ensures
        map_from_pairs(pairs).contains_key(pairs[i].0),
        map_from_pairs(pairs)[pairs[i].0] == pairs[i].1,
    decreases pairs.len(),
{
    if i < pairs.len() - 1 {
        lemma_map_from_distinct_pairs(pairs.drop_last(), i);
    }
}

/// A key is in the map that pairs describe exactly when some pair has it.
pub proof fn lemma_map_from_pairs_keys<K, V>(pairs: Seq<(K, V)>, k: K)
    ensures
        map_from_pairs(pairs).contains_key(k) <==> exists|i: int| 0 <= i < pairs.len() && pairs[i].0 == k,
    decreases pairs.len(),
{
    if pairs.len() > 0 {
        let init = pairs.drop_last();
        lemma_map_from_pairs_keys(init, k);
        if exists|i: int| 0 <= i < init.len() && init[i].0 == k {
            let i = choose|i: int| 0 <= i < init.len() && init[i].0 == k;
            assert(pairs[i].0 == k);
        }
        if exists|i: int| 0 <= i < pairs.len() && pairs[i].0 == k {
            let i = choose|i: int| 0 <= i < pairs.len() && pairs[i].0 == k;
            if i < pairs.len() - 1 {
                assert(init[i].0 == k);
            }
        }
    }
}

/// No key occurs twice among the pairs.
pub open spec fn distinct_keys<K, V>(pairs: Seq<(K, V)>) -> bool {
    forall|i: int, j: int| 0 <= i < j < pairs.len() ==> pairs[i].0 != pairs[j].0
}

/// The model of key/value pairs of the library's strings and values.
pub open spec fn pairs_model(pairs: Seq<(String, serde_json::Value)>) -> Seq<(Seq<char>, Json)> {
    pairs.map_values(|p: (String, serde_json::Value)| (p.0@, json_of(p.1)))
}

/// The member `key` of `j`, when `j` is an object that has it.
pub open spec fn member(j: Json, key: Seq<char>) -> Option<Json> {
    match j {
        Json::Object(m) => if m.contains_key(key) {
            Some(m[key])
        } else {
            None
        },
        _ => None,
    }
}

/// Relies on `serde_json::Value::get` with a `&str` index: the member of an
/// object under that key, and nothing for any other value.
#[verifier::external_body]
pub(crate) fn value_get<'a>(v: &'a serde_json::Value, key: &str) -> (r: Option<&'a serde_json::Value>)
    ensures
        r is Some <==> member(json_of(*v), key@) is Some,
        r matches Some(m) ==> member(json_of(*v), key@) == Some(json_of(*m)),
{
    v.get(key)
}

/// Relies on `serde_json::Value::as_str`: the text of a string value.
#[verifier::external_body]
pub(crate) fn value_as_str(v: &serde_json::Value) -> (r: Option<&str>)
    ensures
        r is Some <==> json_of(*v) is Str,
        r matches Some(s) ==> json_of(*v) == Json::Str(s@),
{
    v.as_str()
}

/// Relies on `serde_json::Value::as_u64`: the number, when the value is a
/// non-negative integer.
#[verifier::external_body]
pub(crate) fn value_as_u64(v: &serde_json::Value) -> (r: Option<u64>)
    ensures
        r is Some <==> json_of(*v) matches Json::Number(JsonNumber::PosInt(_)),
        r matches Some(n) ==> json_of(*v) == Json::Number(JsonNumber::PosInt(n)),
{
    v.as_u64()
}

/// Relies on `serde_json::Value::as_bool`: the flag of a boolean value.
#[verifier::external_body]
pub(crate) fn value_as_bool(v: &serde_json::Value) -> (r: Option<bool>)
    ensures
        r is Some <==> json_of(*v) is Bool,
        r matches Some(b) ==> json_of(*v) == Json::Bool(b),
{
    v.as_bool()
}

/// Relies on `serde_json::Value::is_null`.
#[verifier::external_body]
pub(crate) fn value_is_null(v: &serde_json::Value) -> (r: bool)
    ensures
        r == json_of(*v) is Null,
{
    v.is_null()
}

/// Relies on `serde_json::Value::as_array`: the elements of an array value.
#[verifier::external_body]
pub(crate) fn value_as_array(v: &serde_json::Value) -> (r: Option<&Vec<serde_json::Value>>)
    ensures
        r is Some <==> json_of(*v) is Array,
        r matches Some(a) ==> json_of(*v) == Json::Array(
            a@.map_values(|x: serde_json::Value| json_of(x)),
        ),
{
    v.as_array()
}

/// Relies on `serde_json::Value::as_object` and on iterating a clone of the
/// map: the members of an object value, each key once.
#[verifier::external_body]
pub(crate) fn value_members(v: &serde_json::Value) -> (r: Option<Vec<(String, serde_json::Value)>>)
    ensures
        r is Some <==> json_of(*v) is Object,
        r matches Some(ms) ==> {
            &&& distinct_keys(pairs_model(ms@))
            &&& json_of(*v) == Json::Object(map_from_pairs(pairs_model(ms@)))
        },
{
    match v.as_object() {
        Some(map) => Some(map.clone().into_iter().collect()),
        None => None,
    }
}

/// Relies on `Display` for `serde_json::Value`: the compact JSON text.
#[verifier::external_body]
pub(crate) fn value_text(v: &serde_json::Value) -> (r: String)
    ensures
        r@ == json_text(json_of(*v)),
{
    v.to_string()
}

/// Relies on `serde_json::from_str` into a `Value`: `None` when the text is
/// not JSON.
#[verifier::external_body]
pub(crate) fn parse_value(t: &str) -> (r: Option<serde_json::Value>)
    ensures
        r is Some <==> parsed_json(t@) is Some,
        r matches Some(x) ==> parsed_json(t@) == Some(json_of(x)),
{
    serde_json::from_str::<serde_json::Value>(t).ok()
}

/// Relies on `serde_json::Value::String`.
#[verifier::external_body]
pub(crate) fn value_string(s: String) -> (r: serde_json::Value)
    ensures
        json_of(r) == Json::Str(s@),
{
    serde_json::Value::String(s)
}

/// Relies on `serde_json::Value::Null`.
#[verifier::external_body]
pub(crate) fn value_null() -> (r: serde_json::Value)
    ensures
        json_of(r) == Json::Null,
{
    serde_json::Value::Null
}

/// Relies on collecting pairs into a `serde_json::Map`: with distinct keys,
/// the object holds exactly the pairs.
#[verifier::external_body]
pub(crate) fn value_object(pairs: Vec<(String, serde_json::Value)>) -> (r: serde_json::Value)
    requires
        distinct_keys(pairs_model(pairs@)),
    ensures
        json_of(r) == Json::Object(map_from_pairs(pairs_model(pairs@))),
{
    serde_json::Value::Object(pairs.into_iter().collect())
}

/// Relies on `Clone` for `serde_json::Value`: the copy holds the same value.
#[verifier::external_body]
pub(crate) fn value_clone(v: &serde_json::Value) -> (r: serde_json::Value)
    ensures
        json_of(r) == json_of(*v),
{
    v.clone()
}

} // verus!
