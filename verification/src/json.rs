//! An owned JSON tree, its mathematical view, and exact decoding helpers.
//!
//! Response bodies are modelled as trees of plain values: null, booleans,
//! integers, strings, arrays and objects. Numbers are held as integers; the
//! forum's documented payloads carry ids, counters and flags, none of which
//! is fractional. An object keeps its fields as an ordered list of
//! (key, value) pairs; a lookup takes the first pair with a matching key.

use vstd::prelude::*;

verus! {

broadcast use vstd::std_specs::vec::group_vec_axioms, vstd::seq::group_seq_axioms;

/// An owned JSON value.
#[derive(Debug, PartialEq)]
pub enum Json {
    Null,
    Bool(bool),
    /// An integer that fits in `i64`, the common case.
    Int(i64),
    /// A non-negative integer above `i64::MAX`.
    UInt(u64),
    Str(String),
    Arr(Vec<Json>),
    Obj(Vec<(String, Json)>),
}

/// The mathematical shape of a JSON value: strings as character sequences,
/// arrays and objects as sequences.
pub enum JsonV {
    Null,
    Bool(bool),
    Int(i64),
    UInt(u64),
    Str(Seq<char>),
    Arr(Seq<JsonV>),
    Obj(Seq<(Seq<char>, JsonV)>),
}

/// The view of an owned JSON tree.
pub open spec fn jview(j: Json) -> JsonV
    decreases j,
{
    match j {
        Json::Null => JsonV::Null,
        Json::Bool(b) => JsonV::Bool(b),
        Json::Int(i) => JsonV::Int(i),
        Json::UInt(u) => JsonV::UInt(u),
        Json::Str(s) => JsonV::Str(s@),
        Json::Arr(v) => JsonV::Arr(
            Seq::new(
                v@.len(),
                |i: int|
                    if 0 <= i < v@.len() {
                        proof {
                            assert(decreases_to!(j => v));
                            assert(decreases_to!(v => v@));
                            assert(decreases_to!(v@ => v@[i]));
                        }
                        jview(v@[i])
                    } else {
                        JsonV::Null
                    },
            ),
        ),
        Json::Obj(v) => JsonV::Obj(
            Seq::new(
                v@.len(),
                |i: int|
                    if 0 <= i < v@.len() {
                        proof {
                            assert(decreases_to!(j => v));
                            assert(decreases_to!(v => v@));
                            assert(decreases_to!(v@ => v@[i]));
                        }
                        (v@[i].0@, jview(v@[i].1))
                    } else {
                        (""@, JsonV::Null)
                    },
            ),
        ),
    }
}

impl View for Json {
    type V = JsonV;

    open spec fn view(&self) -> JsonV {
        jview(*self)
    }
}

impl DeepView for Json {
    type V = JsonV;

    open spec fn deep_view(&self) -> JsonV {
        jview(*self)
    }
}

/// The view of an optional JSON tree.
pub open spec fn opt_jview(p: Option<Json>) -> Option<JsonV> {
    match p {
        Option::Some(j) => Option::Some(jview(j)),
        Option::None => Option::None,
    }
}

/// Views of a sequence of JSON trees.
pub open spec fn jviews(s: Seq<Json>) -> Seq<JsonV> {
    Seq::new(s.len(), |i: int| jview(s[i]))
}

/// Views of an object's field list.
pub open spec fn jview_pairs(s: Seq<(String, Json)>) -> Seq<(Seq<char>, JsonV)> {
    Seq::new(s.len(), |i: int| (s[i].0@, jview(s[i].1)))
}

/// The view of an array tree is the array of element views.
pub proof fn lemma_jview_arr(v: Vec<Json>)
    ensures
        jview(Json::Arr(v)) == JsonV::Arr(jviews(v@)),
{
    assert(jview(Json::Arr(v))->Arr_0 =~= jviews(v@));
}

/// The view of an object tree is the list of viewed field pairs.
pub proof fn lemma_jview_obj(v: Vec<(String, Json)>)
    ensures
        jview(Json::Obj(v)) == JsonV::Obj(jview_pairs(v@)),
{
    assert(jview(Json::Obj(v))->Obj_0 =~= jview_pairs(v@));
}

/// First value paired with `key` in a field list, scanning from index `i`.
pub open spec fn j_get_from(fields: Seq<(Seq<char>, JsonV)>, key: Seq<char>, i: int) -> Option<
    JsonV,
>
    decreases fields.len() - i,
{
    if i < 0 || i >= fields.len() {
        Option::None
    } else if fields[i].0 == key {
        Option::Some(fields[i].1)
    } else {
        j_get_from(fields, key, i + 1)
    }
}

/// Field lookup on a JSON value: `None` unless the value is an object with
/// the key; the first pair with the key wins.
pub open spec fn j_field(j: JsonV, key: Seq<char>) -> Option<JsonV> {
    match j {
        JsonV::Obj(fields) => j_get_from(fields, key, 0),
        _ => Option::None,
    }
}

/// A JSON value read as a non-negative 64-bit integer.
pub open spec fn j_as_u64(j: JsonV) -> Option<u64> {
    match j {
        JsonV::Int(i) => if i >= 0 {
            Option::Some(i as u64)
        } else {
            Option::None
        },
        JsonV::UInt(u) => Option::Some(u),
        _ => Option::None,
    }
}

/// A JSON value read as a 32-bit counter.
pub open spec fn j_as_u32(j: JsonV) -> Option<u32> {
    match j_as_u64(j) {
        Option::Some(u) => if u <= u32::MAX as u64 {
            Option::Some(u as u32)
        } else {
            Option::None
        },
        Option::None => Option::None,
    }
}

// ---- required fields: absent, null or ill-typed means failure ----

/// Required unsigned integer field.
pub open spec fn req_u64(j: JsonV, key: Seq<char>) -> Option<u64> {
    match j_field(j, key) {
        Option::Some(v) => j_as_u64(v),
        Option::None => Option::None,
    }
}

/// Required 32-bit counter field.
pub open spec fn req_u32(j: JsonV, key: Seq<char>) -> Option<u32> {
    match j_field(j, key) {
        Option::Some(v) => j_as_u32(v),
        Option::None => Option::None,
    }
}

/// Required signed integer field.
pub open spec fn req_i64(j: JsonV, key: Seq<char>) -> Option<i64> {
    match j_field(j, key) {
        Option::Some(JsonV::Int(i)) => Option::Some(i),
        _ => Option::None,
    }
}

/// Required boolean field.
pub open spec fn req_bool(j: JsonV, key: Seq<char>) -> Option<bool> {
    match j_field(j, key) {
        Option::Some(JsonV::Bool(b)) => Option::Some(b),
        _ => Option::None,
    }
}

/// Required string field.
pub open spec fn req_string(j: JsonV, key: Seq<char>) -> Option<Seq<char>> {
    match j_field(j, key) {
        Option::Some(JsonV::Str(s)) => Option::Some(s),
        _ => Option::None,
    }
}

// ---- optional fields ----
//
// Absent or null is `None`; a present value must have the right shape.
// The remote service omits many fields on partial payloads, so every
// optional field tolerates absence.

/// Optional unsigned integer field; outer `None` marks an ill-typed value.
pub open spec fn opt_u64(j: JsonV, key: Seq<char>) -> Option<Option<u64>> {
    match j_field(j, key) {
        Option::None => Option::Some(Option::None),
        Option::Some(JsonV::Null) => Option::Some(Option::None),
        Option::Some(v) => match j_as_u64(v) {
            Option::Some(u) => Option::Some(Option::Some(u)),
            Option::None => Option::None,
        },
    }
}

/// Optional 32-bit counter field.
pub open spec fn opt_u32(j: JsonV, key: Seq<char>) -> Option<Option<u32>> {
    match j_field(j, key) {
        Option::None => Option::Some(Option::None),
        Option::Some(JsonV::Null) => Option::Some(Option::None),
        Option::Some(v) => match j_as_u32(v) {
            Option::Some(u) => Option::Some(Option::Some(u)),
            Option::None => Option::None,
        },
    }
}

/// Optional boolean field.
pub open spec fn opt_bool(j: JsonV, key: Seq<char>) -> Option<Option<bool>> {
    match j_field(j, key) {
        Option::None => Option::Some(Option::None),
        Option::Some(JsonV::Null) => Option::Some(Option::None),
        Option::Some(JsonV::Bool(b)) => Option::Some(Option::Some(b)),
        Option::Some(_) => Option::None,
    }
}

/// Optional string field.
pub open spec fn opt_string(j: JsonV, key: Seq<char>) -> Option<Option<Seq<char>>> {
    match j_field(j, key) {
        Option::None => Option::Some(Option::None),
        Option::Some(JsonV::Null) => Option::Some(Option::None),
        Option::Some(JsonV::Str(s)) => Option::Some(Option::Some(s)),
        Option::Some(_) => Option::None,
    }
}

/// Optional raw JSON field, kept as a tree: absent or null is `None`.
pub open spec fn opt_json(j: JsonV, key: Seq<char>) -> Option<JsonV> {
    match j_field(j, key) {
        Option::None => Option::None,
        Option::Some(JsonV::Null) => Option::None,
        Option::Some(v) => Option::Some(v),
    }
}

// ---- exec counterparts ----

/// Look a key up in a JSON object; first match wins.
pub fn obj_get<'a>(j: &'a Json, key: &str) -> (r: Option<&'a Json>)
    ensures
        match r {
            Option::Some(v) => j_field(jview(*j), key@) == Option::Some(jview(*v)),
            Option::None => j_field(jview(*j), key@) is None,
        },
{
    match j {
        Json::Obj(fields) => {
            let k: String = key.to_owned();
            let ghost fv: Seq<(Seq<char>, JsonV)> = jview_pairs(fields@);
            proof {
                lemma_jview_obj(*fields);
            }
            let mut i: usize = 0;
            loop
                invariant
                    i <= fields.len(),
                    k@ == key@,
                    fv == jview_pairs(fields@),
                    j_field(jview(*j), key@) == j_get_from(fv, key@, 0),
                    j_get_from(fv, key@, 0) == j_get_from(fv, key@, i as int),
                decreases fields.len() - i,
            {
                if i >= fields.len() {
                    return Option::None;
                }
                if fields[i].0 == k {
                    return Option::Some(&fields[i].1);
                }
                i = i + 1;
            }
        },
        _ => Option::None,
    }
}

/// Read one JSON value as a non-negative integer.
pub fn json_as_u64(v: &Json) -> (r: Option<u64>)
    ensures
        r == j_as_u64(jview(*v)),
{
    match v {
        Json::Int(i) => if *i >= 0 {
            Option::Some(*i as u64)
        } else {
            Option::None
        },
        Json::UInt(u) => Option::Some(*u),
        _ => Option::None,
    }
}

/// Read a required unsigned integer field.
pub fn get_u64(j: &Json, key: &str) -> (r: Option<u64>)
    ensures
        r == req_u64(jview(*j), key@),
{
    match obj_get(j, key) {
        Option::Some(v) => json_as_u64(v),
        Option::None => Option::None,
    }
}

/// Read a required 32-bit counter field.
pub fn get_u32(j: &Json, key: &str) -> (r: Option<u32>)
    ensures
        r == req_u32(jview(*j), key@),
{
    match get_u64(j, key) {
        Option::Some(u) => if u <= u32::MAX as u64 {
            Option::Some(u as u32)
        } else {
            Option::None
        },
        Option::None => Option::None,
    }
}

/// Read a required signed integer field.
pub fn get_i64(j: &Json, key: &str) -> (r: Option<i64>)
    ensures
        r == req_i64(jview(*j), key@),
{
    match obj_get(j, key) {
        Option::Some(Json::Int(i)) => Option::Some(*i),
        _ => Option::None,
    }
}

/// Read a required boolean field.
pub fn get_bool(j: &Json, key: &str) -> (r: Option<bool>)
    ensures
        r == req_bool(jview(*j), key@),
{
    match obj_get(j, key) {
        Option::Some(Json::Bool(b)) => Option::Some(*b),
        _ => Option::None,
    }
}

/// Read a required string field.
pub fn get_string(j: &Json, key: &str) -> (r: Option<String>)
    ensures
        match r {
            Option::Some(s) => req_string(jview(*j), key@) == Option::Some(s@),
            Option::None => req_string(jview(*j), key@) is None,
        },
{
    match obj_get(j, key) {
        Option::Some(Json::Str(s)) => Option::Some(s.clone()),
        _ => Option::None,
    }
}

/// Read an optional unsigned integer field.
pub fn get_opt_u64(j: &Json, key: &str) -> (r: Option<Option<u64>>)
    ensures
        r == opt_u64(jview(*j), key@),
{
    match obj_get(j, key) {
        Option::None => Option::Some(Option::None),
        Option::Some(Json::Null) => Option::Some(Option::None),
        Option::Some(v) => match json_as_u64(v) {
            Option::Some(u) => Option::Some(Option::Some(u)),
            Option::None => Option::None,
        },
    }
}

/// Read an optional 32-bit counter field.
pub fn get_opt_u32(j: &Json, key: &str) -> (r: Option<Option<u32>>)
    ensures
        r == opt_u32(jview(*j), key@),
{
    match obj_get(j, key) {
        Option::None => Option::Some(Option::None),
        Option::Some(Json::Null) => Option::Some(Option::None),
        Option::Some(v) => match json_as_u64(v) {
            Option::Some(u) => if u <= u32::MAX as u64 {
                Option::Some(Option::Some(u as u32))
            } else {
                Option::None
            },
            Option::None => Option::None,
        },
    }
}

/// Read an optional boolean field.
pub fn get_opt_bool(j: &Json, key: &str) -> (r: Option<Option<bool>>)
    ensures
        r == opt_bool(jview(*j), key@),
{
    match obj_get(j, key) {
        Option::None => Option::Some(Option::None),
        Option::Some(Json::Null) => Option::Some(Option::None),
        Option::Some(Json::Bool(b)) => Option::Some(Option::Some(*b)),
        Option::Some(_) => Option::None,
    }
}

/// Read an optional string field.
pub fn get_opt_string(j: &Json, key: &str) -> (r: Option<Option<String>>)
    ensures
        match r {
            Option::Some(Option::Some(s)) => opt_string(jview(*j), key@) == Option::Some(
                Option::Some(s@),
            ),
            Option::Some(Option::None) => opt_string(jview(*j), key@) == Option::Some(
                Option::None::<Seq<char>>,
            ),
            Option::None => opt_string(jview(*j), key@) is None,
        },
{
    match obj_get(j, key) {
        Option::None => Option::Some(Option::None),
        Option::Some(Json::Null) => Option::Some(Option::None),
        Option::Some(Json::Str(s)) => Option::Some(Option::Some(s.clone())),
        Option::Some(_) => Option::None,
    }
}

/// Copy a JSON tree; the copy has the same view.
pub fn json_deep_copy(j: &Json) -> (r: Json)
    ensures
        jview(r) == jview(*j),
    decreases *j,
{
    match j {
        Json::Null => Json::Null,
        Json::Bool(b) => Json::Bool(*b),
        Json::Int(i) => Json::Int(*i),
        Json::UInt(u) => Json::UInt(*u),
        Json::Str(s) => Json::Str(s.clone()),
        Json::Arr(v) => {
            let mut out: Vec<Json> = Vec::new();
            let mut i: usize = 0;
            while i < v.len()
                invariant
                    *j == Json::Arr(*v),
                    i <= v.len(),
                    out@.len() == i,
                    forall|m: int| 0 <= m < i ==> jview(out@[m]) == jview(v@[m]),
                decreases v.len() - i,
            {
                proof {
                    assert(decreases_to!(*j => (*j)->Arr_0));
                    assert(decreases_to!(*v => v@));
                    assert(decreases_to!(v@ => v@[i as int]));
                }
                out.push(json_deep_copy(&v[i]));
                i = i + 1;
            }
            proof {
                lemma_jview_arr(*v);
                lemma_jview_arr(out);
                assert(jviews(out@) =~= jviews(v@));
            }
            Json::Arr(out)
        },
        Json::Obj(v) => {
            let mut out: Vec<(String, Json)> = Vec::new();
            let mut i: usize = 0;
            while i < v.len()
                invariant
                    *j == Json::Obj(*v),
                    i <= v.len(),
                    out@.len() == i,
                    forall|m: int|
                        0 <= m < i ==> out@[m].0@ == v@[m].0@ && jview(out@[m].1) == jview(v@[m].1),
                decreases v.len() - i,
            {
                proof {
                    assert(decreases_to!(*j => (*j)->Obj_0));
                    assert(decreases_to!(*v => v@));
                    assert(decreases_to!(v@ => v@[i as int]));
                    assert(decreases_to!(v@[i as int] => v@[i as int].1));
                }
                let pair = (v[i].0.clone(), json_deep_copy(&v[i].1));
                out.push(pair);
                i = i + 1;
            }
            proof {
                lemma_jview_obj(*v);
                lemma_jview_obj(out);
                assert(jview_pairs(out@) =~= jview_pairs(v@));
            }
            Json::Obj(out)
        },
    }
}

/// Read an optional raw JSON field, copying the subtree out.
pub fn get_opt_json(j: &Json, key: &str) -> (r: Option<Json>)
    ensures
        match r {
            Option::Some(v) => opt_json(jview(*j), key@) == Option::Some(jview(v)),
            Option::None => opt_json(jview(*j), key@) is None,
        },
{
    match obj_get(j, key) {
        Option::None => Option::None,
        Option::Some(Json::Null) => Option::None,
        Option::Some(v) => Option::Some(json_deep_copy(v)),
    }
}

// ---- decoding values and arrays of values ----

/// A type that can be decoded from a JSON value, with an exact
/// specification of which values decode and to what.
pub trait Decodable: DeepView + Sized {
    /// The mathematical decoding: which JSON shapes yield which results.
    spec fn spec_decode(j: JsonV) -> Option<Self::V>;

    /// Decode one JSON value, exactly as `spec_decode` says.
    fn decode(j: &Json) -> (r: Option<Self>)
        ensures
            match r {
                Option::Some(t) => Self::spec_decode(jview(*j)) == Option::Some(t.deep_view()),
                Option::None => Self::spec_decode(jview(*j)) is None,
            },
    ;
}

/// Decode every element of a sequence; one bad element fails the whole.
pub open spec fn spec_decode_seq<T: Decodable>(items: Seq<JsonV>) -> Option<Seq<T::V>>
    decreases items.len(),
{
    if items.len() == 0 {
        Option::Some(Seq::empty())
    } else {
        match spec_decode_seq::<T>(items.drop_last()) {
            Option::None => Option::None,
            Option::Some(rest) => match T::spec_decode(items.last()) {
                Option::None => Option::None,
                Option::Some(t) => Option::Some(rest.push(t)),
            },
        }
    }
}

proof fn lemma_decode_seq_fail<T: Decodable>(items: Seq<JsonV>, i: int)
    requires
        0 <= i < items.len(),
        T::spec_decode(items[i]) is None,
    ensures
        spec_decode_seq::<T>(items) is None,
    decreases items.len(),
{
    if items.len() > 0 && i < items.len() - 1 {
        assert(items.drop_last()[i] == items[i]);
        lemma_decode_seq_fail::<T>(items.drop_last(), i);
    }
}

/// Decode a vector of JSON values element by element.
pub fn decode_vec<T: Decodable>(items: &Vec<Json>) -> (r: Option<Vec<T>>)
    ensures
        match r {
            Option::Some(v) => spec_decode_seq::<T>(jviews(items@)) == Option::Some(v.deep_view()),
            Option::None => spec_decode_seq::<T>(jviews(items@)) is None,
        },
{
    let mut out: Vec<T> = Vec::new();
    let mut i: usize = 0;
    proof {
        assert(jviews(items@).subrange(0, 0) =~= Seq::<JsonV>::empty());
        assert(out.deep_view() =~= Seq::<T::V>::empty());
    }
    while i < items.len()
        invariant
            i <= items.len(),
            spec_decode_seq::<T>(jviews(items@).subrange(0, i as int)) == Option::Some(
                out.deep_view(),
            ),
        decreases items.len() - i,
    {
        let ghost prev = out.deep_view();
        match T::decode(&items[i]) {
            Option::Some(t) => {
                out.push(t);
                proof {
                    assert(out.deep_view() =~= prev.push(t.deep_view()));
                }
            },
            Option::None => {
                proof {
                    lemma_decode_seq_fail::<T>(jviews(items@), i as int);
                }
                return Option::None;
            },
        }
        i = i + 1;
        proof {
            assert(jviews(items@).subrange(0, i as int).drop_last() =~= jviews(items@).subrange(
                0,
                i as int - 1,
            ));
            assert(jviews(items@).subrange(0, i as int).last() == jview(items@[i as int - 1]));
        }
    }
    proof {
        assert(jviews(items@).subrange(0, items@.len() as int) =~= jviews(items@));
    }
    Option::Some(out)
}

/// Required array field, decoded element by element.
pub open spec fn req_seq<T: Decodable>(j: JsonV, key: Seq<char>) -> Option<Seq<T::V>> {
    match j_field(j, key) {
        Option::Some(JsonV::Arr(items)) => spec_decode_seq::<T>(items),
        _ => Option::None,
    }
}

/// Optional array field: absent or null is the empty sequence.
pub open spec fn opt_seq<T: Decodable>(j: JsonV, key: Seq<char>) -> Option<Seq<T::V>> {
    match j_field(j, key) {
        Option::None => Option::Some(Seq::empty()),
        Option::Some(JsonV::Null) => Option::Some(Seq::empty()),
        Option::Some(JsonV::Arr(items)) => spec_decode_seq::<T>(items),
        Option::Some(_) => Option::None,
    }
}

/// Read a required array field.
pub fn get_vec<T: Decodable>(j: &Json, key: &str) -> (r: Option<Vec<T>>)
    ensures
        match r {
            Option::Some(v) => req_seq::<T>(jview(*j), key@) == Option::Some(v.deep_view()),
            Option::None => req_seq::<T>(jview(*j), key@) is None,
        },
{
    match obj_get(j, key) {
        Option::Some(v) => match v {
            Json::Arr(items) => {
                proof {
                    lemma_jview_arr(*items);
                }
                decode_vec(items)
            },
            _ => Option::None,
        },
        Option::None => Option::None,
    }
}

/// Read an optional array field; absent or null yields the empty vector.
pub fn get_opt_vec<T: Decodable>(j: &Json, key: &str) -> (r: Option<Vec<T>>)
    ensures
        match r {
            Option::Some(v) => opt_seq::<T>(jview(*j), key@) == Option::Some(v.deep_view()),
            Option::None => opt_seq::<T>(jview(*j), key@) is None,
        },
{
    match obj_get(j, key) {
        Option::None => {
            let out: Vec<T> = Vec::new();
            proof {
                assert(out.deep_view() =~= Seq::<T::V>::empty());
            }
            Option::Some(out)
        },
        Option::Some(v) => match v {
            Json::Null => {
                let out: Vec<T> = Vec::new();
                proof {
                    assert(out.deep_view() =~= Seq::<T::V>::empty());
                }
                Option::Some(out)
            },
            Json::Arr(items) => {
                proof {
                    lemma_jview_arr(*items);
                }
                decode_vec(items)
            },
            _ => Option::None,
        },
    }
}

/// Optional array field that stays optional: absent or null is `None`.
pub open spec fn opt_seq_opt<T: Decodable>(j: JsonV, key: Seq<char>) -> Option<
    Option<Seq<T::V>>,
> {
    match j_field(j, key) {
        Option::None => Option::Some(Option::None),
        Option::Some(JsonV::Null) => Option::Some(Option::None),
        Option::Some(JsonV::Arr(items)) => match spec_decode_seq::<T>(items) {
            Option::Some(s) => Option::Some(Option::Some(s)),
            Option::None => Option::None,
        },
        Option::Some(_) => Option::None,
    }
}

/// Read an optional array field without defaulting it: absent or null is
/// `None`, a present array must decode.
pub fn get_opt_vec_opt<T: Decodable>(j: &Json, key: &str) -> (r: Option<Option<Vec<T>>>)
    ensures
        match r {
            Option::Some(Option::Some(v)) => opt_seq_opt::<T>(jview(*j), key@) == Option::Some(
                Option::Some(v.deep_view()),
            ),
            Option::Some(Option::None) => opt_seq_opt::<T>(jview(*j), key@) == Option::Some(
                Option::None::<Seq<T::V>>,
            ),
            Option::None => opt_seq_opt::<T>(jview(*j), key@) is None,
        },
{
    match obj_get(j, key) {
        Option::None => Option::Some(Option::None),
        Option::Some(v) => match v {
            Json::Null => Option::Some(Option::None),
            Json::Arr(items) => {
                proof {
                    lemma_jview_arr(*items);
                }
                match decode_vec(items) {
                    Option::Some(out) => Option::Some(Option::Some(out)),
                    Option::None => Option::None,
                }
            },
            _ => Option::None,
        },
    }
}

/// Required nested record field.
pub open spec fn req_record<T: Decodable>(j: JsonV, key: Seq<char>) -> Option<T::V> {
    match j_field(j, key) {
        Option::Some(v) => T::spec_decode(v),
        Option::None => Option::None,
    }
}

/// Read a required nested record field.
pub fn get_record<T: Decodable>(j: &Json, key: &str) -> (r: Option<T>)
    ensures
        match r {
            Option::Some(t) => req_record::<T>(jview(*j), key@) == Option::Some(t.deep_view()),
            Option::None => req_record::<T>(jview(*j), key@) is None,
        },
{
    match obj_get(j, key) {
        Option::Some(v) => T::decode(v),
        Option::None => Option::None,
    }
}

/// A non-negative integer as a JSON number.
pub open spec fn spec_json_u64(n: u64) -> JsonV {
    if n <= i64::MAX as u64 {
        JsonV::Int(n as i64)
    } else {
        JsonV::UInt(n)
    }
}

/// Build the JSON number for a non-negative integer.
pub fn json_u64(n: u64) -> (r: Json)
    ensures
        jview(r) == spec_json_u64(n),
{
    if n <= i64::MAX as u64 {
        Json::Int(n as i64)
    } else {
        Json::UInt(n)
    }
}

impl Decodable for String {
    open spec fn spec_decode(j: JsonV) -> Option<Seq<char>> {
        match j {
            JsonV::Str(s) => Option::Some(s),
            _ => Option::None,
        }
    }

    fn decode(j: &Json) -> (r: Option<String>) {
        match j {
            Json::Str(s) => Option::Some(s.clone()),
            _ => Option::None,
        }
    }
}

impl Decodable for u64 {
    open spec fn spec_decode(j: JsonV) -> Option<u64> {
        j_as_u64(j)
    }

    fn decode(j: &Json) -> (r: Option<u64>) {
        json_as_u64(j)
    }
}

} // verus!
