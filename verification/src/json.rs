//! The crate's model of a JSON value: the currency that descriptors are
//! built in and that dispatch accepts and returns. Numbers keep the three
//! shapes a JSON number can take on the wire: signed, unsigned, and a
//! floating-point value carried by its IEEE-754 bit pattern.

use vstd::prelude::*;
use crate::text::str_eq;

verus! {

/// One `key: value` member of a JSON object. Members keep their order.
#[derive(Debug, PartialEq)]
pub struct JsonMember {
    pub key: String,
    pub value: JsonValue,
}

/// A JSON document tree.
#[derive(Debug, PartialEq)]
pub enum JsonValue {
    Null,
    Bool(bool),
    Int(i64),
    UInt(u64),
    /// A floating-point number, held by its IEEE-754 bit pattern so the
    /// tree itself stays free of float arithmetic.
    Float(u64),
    Str(String),
    Arr(Vec<JsonValue>),
    Obj(Vec<JsonMember>),
}

/// Mathematical model of a JSON tree.
pub enum JsonVal {
    Null,
    Bool(bool),
    Int(int),
    UInt(int),
    Float(u64),
    Str(Seq<char>),
    Arr(Seq<JsonVal>),
    Obj(Seq<(Seq<char>, JsonVal)>),
}

/// The model of a JSON value: the same tree over sequences and integers.
pub open spec fn spec_json(v: JsonValue) -> JsonVal
    decreases v,
{
    match v {
        JsonValue::Null => JsonVal::Null,
        JsonValue::Bool(b) => JsonVal::Bool(b),
        JsonValue::Int(i) => JsonVal::Int(i as int),
        JsonValue::UInt(u) => JsonVal::UInt(u as int),
        JsonValue::Float(bits) => JsonVal::Float(bits),
        JsonValue::Str(s) => JsonVal::Str(s@),
        JsonValue::Arr(items) => JsonVal::Arr(spec_json_arr(items@)),
        JsonValue::Obj(members) => JsonVal::Obj(spec_json_members(members@)),
    }
}

/// The models of a sequence of JSON values, element by element.
pub open spec fn spec_json_arr(items: Seq<JsonValue>) -> Seq<JsonVal>
    decreases items,
{
    if items.len() == 0 {
        Seq::empty()
    } else {
        seq![spec_json(items[0])] + spec_json_arr(items.drop_first())
    }
}

/// The models of a sequence of object members, element by element.
pub open spec fn spec_json_members(members: Seq<JsonMember>) -> Seq<(Seq<char>, JsonVal)>
    decreases members,
{
    if members.len() == 0 {
        Seq::empty()
    } else {
        seq![(members[0].key@, spec_json(members[0].value))] + spec_json_members(
            members.drop_first(),
        )
    }
}

/// `spec_json_arr` maps the sequence pointwise.
pub broadcast proof fn lemma_spec_json_arr(items: Seq<JsonValue>)
    ensures
        (#[trigger] spec_json_arr(items)).len() == items.len(),
        forall|i: int|
            0 <= i < items.len() ==> spec_json_arr(items)[i] == spec_json(items[i]),
    decreases items,
{
    if items.len() > 0 {
        lemma_spec_json_arr(items.drop_first());
    }
}

/// `spec_json_members` maps the sequence pointwise.
pub broadcast proof fn lemma_spec_json_members(members: Seq<JsonMember>)
    ensures
        (#[trigger] spec_json_members(members)).len() == members.len(),
        forall|i: int|
            0 <= i < members.len() ==> spec_json_members(members)[i] == (
                members[i].key@,
                spec_json(members[i].value),
            ),
    decreases members,
{
    if members.len() > 0 {
        lemma_spec_json_members(members.drop_first());
    }
}

impl View for JsonValue {
    type V = JsonVal;

    open spec fn view(&self) -> JsonVal {
        spec_json(*self)
    }
}

/// Looks a key up among an object's members: the first member carrying the
/// key, if any.
pub open spec fn spec_obj_lookup(
    members: Seq<(Seq<char>, JsonVal)>,
    key: Seq<char>,
) -> Option<JsonVal>
    decreases members.len(),
{
    if members.len() == 0 {
        None
    } else if members[0].0 == key {
        Some(members[0].1)
    } else {
        spec_obj_lookup(members.drop_first(), key)
    }
}

/// Skipping a prefix of members none of which carries the key leaves the
/// lookup result unchanged.
pub proof fn lemma_obj_lookup_skip(members: Seq<(Seq<char>, JsonVal)>, key: Seq<char>, i: int)
    requires
        0 <= i <= members.len(),
        forall|j: int| 0 <= j < i ==> members[j].0 != key,
    ensures
        spec_obj_lookup(members, key) == spec_obj_lookup(members.skip(i), key),
    decreases i,
{
    if i > 0 {
        assert(members.skip(1) =~= members.drop_first());
        lemma_obj_lookup_skip(members.drop_first(), key, i - 1);
        assert(members.drop_first().skip(i - 1) =~= members.skip(i));
    } else {
        assert(members.skip(0) =~= members);
    }
}

/// A key first carried by the member at position `k` looks up to that
/// member's value.
pub proof fn lemma_obj_lookup_at(members: Seq<(Seq<char>, JsonVal)>, key: Seq<char>, k: int)
    requires
        0 <= k < members.len(),
        members[k].0 == key,
        forall|j: int| 0 <= j < k ==> members[j].0 != key,
    ensures
        spec_obj_lookup(members, key) == Some(members[k].1),
{
    lemma_obj_lookup_skip(members, key, k);
    assert(members.skip(k)[0] == members[k]);
    assert(spec_obj_lookup(members.skip(k), key) == Some(members[k].1));
}

/// Reads the member named `key` out of a JSON object. Yields nothing when
/// the value is not an object or no member carries the key.
pub fn get_field<'a>(v: &'a JsonValue, key: &str) -> (r: Option<&'a JsonValue>)
    ensures
        match v@ {
            JsonVal::Obj(members) => match r {
                Some(f) => spec_obj_lookup(members, key@) == Some(f@),
                None => spec_obj_lookup(members, key@) is None,
            },
            _ => r is None,
        },
{
    broadcast use lemma_spec_json_members;

    match v {
        JsonValue::Obj(members) => {
            proof {
                assert(*v == JsonValue::Obj(*members));
                assert(v@ == JsonVal::Obj(spec_json_members(members@)));
            }
            let ghost model = spec_json_members(members@);
            let n = members.len();
            let mut i: usize = 0;
            while i < n
                invariant
                    n == members.len(),
                    0 <= i <= n,
                    model == spec_json_members(members@),
                    v@ == JsonVal::Obj(model),
                    model.len() == n,
                    forall|j: int| 0 <= j < n ==> model[j] == (members@[j].key@, spec_json(
                        members@[j].value,
                    )),
                    forall|j: int| 0 <= j < i ==> model[j].0 != key@,
                decreases n - i,
            {
                if str_eq(members[i].key.as_str(), key) {
                    proof {
                        lemma_obj_lookup_skip(model, key@, i as int);
                        assert(model.skip(i as int)[0] == model[i as int]);
                        assert(spec_obj_lookup(model.skip(i as int), key@) == Some(
                            model[i as int].1,
                        ));
                    }
                    return Some(&members[i].value);
                }
                i += 1;
            }
            proof {
                lemma_obj_lookup_skip(model, key@, n as int);
                assert(model.skip(n as int).len() == 0);
                assert(spec_obj_lookup(model.skip(n as int), key@) is None);
            }
            None
        },
        _ => None,
    }
}

/// The argument a JSON arguments object carries under a key, if the value
/// is an object and some member carries the key.
pub open spec fn spec_arg(v: JsonVal, key: Seq<char>) -> Option<JsonVal> {
    match v {
        JsonVal::Obj(members) => spec_obj_lookup(members, key),
        _ => None,
    }
}

/// What decoding into a string yields: the characters of a JSON string.
pub open spec fn spec_decode_string(v: JsonVal) -> Option<Seq<char>> {
    match v {
        JsonVal::Str(s) => Some(s),
        _ => None,
    }
}

/// What decoding into a `u32` yields: a JSON number within `u32`'s range.
pub open spec fn spec_decode_u32(v: JsonVal) -> Option<u32> {
    match v {
        JsonVal::UInt(u) => if u <= u32::MAX {
            Some(u as u32)
        } else {
            None
        },
        JsonVal::Int(i) => if 0 <= i <= u32::MAX {
            Some(i as u32)
        } else {
            None
        },
        _ => None,
    }
}

/// Decodes a JSON value into a string, when it is one.
pub fn decode_string(v: &JsonValue) -> (r: Option<String>)
    ensures
        match r {
            Some(out) => spec_decode_string(v@) == Some(out@),
            None => spec_decode_string(v@) is None,
        },
{
    match v {
        JsonValue::Str(s) => Some(s.clone()),
        _ => None,
    }
}

/// What decoding into an `i64` yields: a signed number, or an unsigned
/// one small enough to fit.
pub open spec fn spec_decode_i64(v: JsonVal) -> Option<i64> {
    match v {
        JsonVal::Int(i) => Some(i as i64),
        JsonVal::UInt(u) => if u <= i64::MAX {
            Some(u as i64)
        } else {
            None
        },
        _ => None,
    }
}

/// Decodes a JSON value into an `i64`: a signed number, or an unsigned one
/// small enough to fit.
pub fn decode_i64(v: &JsonValue) -> (r: Option<i64>)
    ensures
        r == spec_decode_i64(v@),
{
    match v {
        JsonValue::Int(i) => Some(*i),
        JsonValue::UInt(u) => {
            if *u <= i64::MAX as u64 {
                Some(*u as i64)
            } else {
                None
            }
        },
        _ => None,
    }
}

/// What decoding into a `u64` yields: an unsigned number, or a
/// non-negative signed one.
pub open spec fn spec_decode_u64(v: JsonVal) -> Option<u64> {
    match v {
        JsonVal::UInt(u) => Some(u as u64),
        JsonVal::Int(i) => if i >= 0 {
            Some(i as u64)
        } else {
            None
        },
        _ => None,
    }
}

/// Decodes a JSON value into a `u64`: an unsigned number, or a non-negative
/// signed one.
pub fn decode_u64(v: &JsonValue) -> (r: Option<u64>)
    ensures
        r == spec_decode_u64(v@),
{
    match v {
        JsonValue::UInt(u) => Some(*u),
        JsonValue::Int(i) => {
            if *i >= 0 {
                Some(*i as u64)
            } else {
                None
            }
        },
        _ => None,
    }
}

/// Decodes a JSON value into a `u32`: a number within `u32`'s range.
pub fn decode_u32(v: &JsonValue) -> (r: Option<u32>)
    ensures
        r == spec_decode_u32(v@),
{
    match v {
        JsonValue::UInt(u) => {
            if *u <= u32::MAX as u64 {
                Some(*u as u32)
            } else {
                None
            }
        },
        JsonValue::Int(i) => {
            if 0 <= *i && *i <= u32::MAX as i64 {
                Some(*i as u32)
            } else {
                None
            }
        },
        _ => None,
    }
}

/// What decoding into a boolean yields: a JSON boolean.
pub open spec fn spec_decode_bool(v: JsonVal) -> Option<bool> {
    match v {
        JsonVal::Bool(b) => Some(b),
        _ => None,
    }
}

/// Decodes a JSON value into a boolean, when it is one.
pub fn decode_bool(v: &JsonValue) -> (r: Option<bool>)
    ensures
        r == spec_decode_bool(v@),
{
    match v {
        JsonValue::Bool(b) => Some(*b),
        _ => None,
    }
}

/// What decoding into a floating-point bit pattern yields: the bits of a
/// JSON floating-point number.
pub open spec fn spec_decode_float_bits(v: JsonVal) -> Option<u64> {
    match v {
        JsonVal::Float(bits) => Some(bits),
        _ => None,
    }
}

/// Decodes a JSON value into the bit pattern of a floating-point number,
/// when it is one.
pub fn decode_float_bits(v: &JsonValue) -> (r: Option<u64>)
    ensures
        r == spec_decode_float_bits(v@),
{
    match v {
        JsonValue::Float(bits) => Some(*bits),
        _ => None,
    }
}

} // verus!
