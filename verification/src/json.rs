//! The JSON boundary: a mathematical model of JSON documents, and thin
//! trusted shims over the `serde_json` crate whose contracts speak in that
//! model.
//!
//! A `serde_json::Value` itself is opaque to the verifier, so its contents
//! are given a name: [`json_model`] maps a value to a [`JsonView`], the
//! library's model of a JSON document. The shims' contracts say, over that
//! model, what each call returns: what parsing yields ([`parse_of`]), what
//! each accessor extracts, what each constructor builds, and what the
//! compact rendering of a value is ([`render_of`]). The verified decoder
//! and encoder then carry exact contracts over the model.

use vstd::prelude::*;

verus! {

/// The model of a JSON document, mirroring how the JSON crate stores one.
///
/// Numbers keep the crate's own split: `PosInt` is a number stored in
/// unsigned form, `NegInt` one stored in signed form (a number written with
/// a leading minus sign). An object is its bindings in order, keys unique.
/// `Other` covers what this library never reads or writes — `null`,
/// booleans, and floating-point numbers — about which nothing is claimed.
pub enum JsonView {
    PosInt(u64),
    NegInt(i64),
    Str(Seq<char>),
    Arr(Seq<JsonView>),
    Obj(Seq<(Seq<char>, JsonView)>),
    Other,
}

/// The binding under `key` among a model object's bindings.
pub open spec fn obj_lookup(bs: Seq<(Seq<char>, JsonView)>, key: Seq<char>) -> Option<JsonView>
    decreases bs.len(),
{
    if bs.len() == 0 {
        None
    } else if bs[0].0 == key {
        Some(bs[0].1)
    } else {
        obj_lookup(bs.drop_first(), key)
    }
}

/// Whether a model object binds `key`.
pub open spec fn obj_has_key(bs: Seq<(Seq<char>, JsonView)>, key: Seq<char>) -> bool {
    obj_lookup(bs, key) is Some
}

/// Whether a model pins its document down exactly: no `Other` anywhere.
/// Two values with the same exact model render identically, so
/// [`render_of`] is only claimed under this guard.
pub open spec fn model_exact(j: JsonView) -> bool
    decreases j,
{
    match j {
        JsonView::Other => false,
        JsonView::Arr(es) => forall|i: int| 0 <= i < es.len() ==> model_exact(#[trigger] es[i]),
        JsonView::Obj(bs) => forall|i: int|
            0 <= i < bs.len() ==> model_exact(#[trigger] bs[i].1),
        _ => true,
    }
}

/// Appending a binding leaves every lookup as it was, except that a key
/// not bound before now finds the appended value.
pub proof fn lemma_obj_lookup_push(
    bs: Seq<(Seq<char>, JsonView)>,
    k: Seq<char>,
    v: JsonView,
    key: Seq<char>,
)
    ensures
        obj_lookup(bs.push((k, v)), key) == (match obj_lookup(bs, key) {
            Some(x) => Some(x),
            None => if key == k {
                Some(v)
            } else {
                None
            },
        }),
    decreases bs.len(),
{
    if bs.len() == 0 {
        assert(bs.push((k, v))[0] == (k, v));
        assert(bs.push((k, v)).drop_first() =~= Seq::<(Seq<char>, JsonView)>::empty());
    } else {
        assert(bs.push((k, v)).drop_first() =~= bs.drop_first().push((k, v)));
        lemma_obj_lookup_push(bs.drop_first(), k, v, key);
    }
}

/// The models of a list of values, pointwise.
pub open spec fn models_of(vs: Seq<serde_json::Value>) -> Seq<JsonView> {
    Seq::new(vs.len(), |i: int| json_model(vs[i]))
}

/// What a signed read of a model number yields: the exact behaviour of the
/// JSON crate's `as_i64`.
pub open spec fn json_as_i64(j: JsonView) -> Option<i64> {
    match j {
        JsonView::PosInt(n) => if n <= i64::MAX as u64 {
            Some(n as i64)
        } else {
            None
        },
        JsonView::NegInt(n) => Some(n),
        _ => None,
    }
}

/// The model of the number the JSON crate builds from a signed integer:
/// signed form for a negative value, unsigned form otherwise.
pub open spec fn num_of_int(v: int) -> JsonView {
    if v < 0 {
        JsonView::NegInt(v as i64)
    } else {
        JsonView::PosInt(v as u64)
    }
}

/// The model of a `serde_json::Value`'s contents.
pub uninterp spec fn json_model(v: serde_json::Value) -> JsonView;

/// The model of the contents of an object under construction, bindings in
/// insertion order.
pub uninterp spec fn map_model(m: serde_json::Map<String, serde_json::Value>) -> Seq<
    (Seq<char>, JsonView),
>;

/// What parsing a text yields: `None` when the text is not one valid JSON
/// document, otherwise the model of the parsed value. Parsing is a pure
/// function of the text.
pub uninterp spec fn parse_of(s: Seq<char>) -> Option<JsonView>;

/// The compact single-line rendering of a document. Meaningful only for
/// exact models ([`model_exact`]), which pin the rendered text down.
pub uninterp spec fn render_of(j: JsonView) -> Seq<char>;

/// Declares `serde_json::Value` so it can stand in signatures; the
/// verifier sees a value of it only through [`json_model`].
#[verifier::external_type_specification]
#[verifier::external_body]
pub struct ExValue(serde_json::Value);

/// Declares `serde_json::Map` so an object under construction can stand in
/// signatures; the verifier sees it only through [`map_model`].
#[verifier::external_type_specification]
#[verifier::external_body]
#[verifier::reject_recursive_types(K)]
#[verifier::reject_recursive_types(V)]
pub struct ExMap<K, V>(serde_json::Map<K, V>);

/// Relies on `serde_json::from_str::<Value>`: parses one JSON document
/// from the text; fails exactly when the text is not valid JSON, and the
/// parse is deterministic in the text.
#[verifier::external_body]
pub(crate) fn parse_json(s: &str) -> (r: Option<serde_json::Value>)
    ensures
        r is Some <==> parse_of(s@) is Some,
        r matches Some(v) ==> parse_of(s@) == Some(json_model(v)),
{
    match serde_json::from_str::<serde_json::Value>(s) {
        Ok(v) => Some(v),
        Err(_) => None,
    }
}

/// Relies on `serde_json::Value::get`: the value under `key` when `v` is
/// an object holding that key, `None` otherwise.
#[verifier::external_body]
pub(crate) fn get_field<'a>(v: &'a serde_json::Value, key: &str) -> (r: Option<
    &'a serde_json::Value,
>)
    ensures
        r is Some <==> (json_model(*v) matches JsonView::Obj(bs) && obj_has_key(bs, key@)),
        r matches Some(f) ==> (json_model(*v) matches JsonView::Obj(bs) && obj_lookup(bs, key@)
            == Some(json_model(*f))),
{
    v.get(key)
}

/// Relies on `serde_json::Value::as_str`: the text of a JSON string,
/// `None` for any other kind of value.
#[verifier::external_body]
pub(crate) fn value_as_string(v: &serde_json::Value) -> (r: Option<String>)
    ensures
        r is Some <==> json_model(*v) is Str,
        r matches Some(s) ==> json_model(*v) == JsonView::Str(s@),
{
    match v.as_str() {
        Some(s) => Some(s.to_owned()),
        None => None,
    }
}

/// Relies on `serde_json::Value::as_u64`: the value of a number stored in
/// unsigned form, `None` for anything else.
#[verifier::external_body]
pub(crate) fn value_as_u64(v: &serde_json::Value) -> (r: Option<u64>)
    ensures
        r matches Some(n) ==> json_model(*v) == JsonView::PosInt(n),
        r is None ==> !(json_model(*v) is PosInt),
{
    v.as_u64()
}

/// Relies on `serde_json::Value::as_i64`: the value of an integer that
/// fits in an `i64`, `None` otherwise — exactly [`json_as_i64`] of the
/// model.
#[verifier::external_body]
pub(crate) fn value_as_i64(v: &serde_json::Value) -> (r: Option<i64>)
    ensures
        r == json_as_i64(json_model(*v)),
{
    v.as_i64()
}

/// Relies on `serde_json::Value::as_array`: the elements of a JSON array,
/// in order, `None` for any other kind of value.
#[verifier::external_body]
pub(crate) fn value_as_array<'a>(v: &'a serde_json::Value) -> (r: Option<
    &'a Vec<serde_json::Value>,
>)
    ensures
        r is Some <==> json_model(*v) is Arr,
        r matches Some(a) ==> json_model(*v) == JsonView::Arr(models_of(a@)),
{
    v.as_array()
}

/// Relies on the `serde_json::Value::String` constructor: a JSON string
/// holding exactly this text.
#[verifier::external_body]
pub(crate) fn json_string(s: &str) -> (r: serde_json::Value)
    ensures
        json_model(r) == JsonView::Str(s@),
{
    serde_json::Value::String(s.to_owned())
}

/// Relies on `From<u64> for serde_json::Value`: a number stored in
/// unsigned form, holding exactly this integer.
#[verifier::external_body]
pub(crate) fn json_u64(n: u64) -> (r: serde_json::Value)
    ensures
        json_model(r) == JsonView::PosInt(n),
{
    serde_json::Value::from(n)
}

/// Relies on `From<i64> for serde_json::Value`: a number holding exactly
/// this integer, stored in signed form when negative and unsigned form
/// otherwise.
#[verifier::external_body]
pub(crate) fn json_i64(n: i64) -> (r: serde_json::Value)
    ensures
        json_model(r) == num_of_int(n as int),
{
    serde_json::Value::from(n)
}

/// Relies on the `serde_json::Value::Array` constructor: a JSON array of
/// exactly these elements, in order.
#[verifier::external_body]
pub(crate) fn json_array(items: Vec<serde_json::Value>) -> (r: serde_json::Value)
    ensures
        json_model(r) == JsonView::Arr(models_of(items@)),
{
    serde_json::Value::Array(items)
}

/// Relies on `serde_json::Map::new`: an empty JSON object.
#[verifier::external_body]
pub(crate) fn new_object() -> (r: serde_json::Map<String, serde_json::Value>)
    ensures
        map_model(r) == Seq::<(Seq<char>, JsonView)>::empty(),
{
    serde_json::Map::new()
}

/// Relies on `serde_json::Map::insert`: binds `key` to `v`. The crate is
/// built so that objects keep their insertion order, so a binding under a
/// fresh key is appended at the end; of inserting over an existing key,
/// which this library never does, nothing is claimed.
#[verifier::external_body]
pub(crate) fn object_insert(
    m: &mut serde_json::Map<String, serde_json::Value>,
    key: &str,
    v: serde_json::Value,
)
    ensures
        !obj_has_key(map_model(*old(m)), key@) ==> map_model(*final(m)) == map_model(
            *old(m),
        ).push((key@, json_model(v))),
{
    m.insert(key.to_owned(), v);
}

/// Relies on the `serde_json::Value::Object` constructor: a JSON object
/// holding exactly these bindings.
#[verifier::external_body]
pub(crate) fn json_object(m: serde_json::Map<String, serde_json::Value>) -> (r:
    serde_json::Value)
    ensures
        json_model(r) == JsonView::Obj(map_model(m)),
{
    serde_json::Value::Object(m)
}

/// Relies on `Display for serde_json::Value`: the compact single-line JSON
/// rendering, a pure function of the value — and so of the model, where
/// the model is exact.
#[verifier::external_body]
pub(crate) fn value_to_string(v: &serde_json::Value) -> (r: String)
    ensures
        model_exact(json_model(*v)) ==> r@ == render_of(json_model(*v)),
{
    v.to_string()
}

} // verus!
