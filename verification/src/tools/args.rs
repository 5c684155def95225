//! Reading the arguments of a tool call.
use vstd::prelude::*;
use crate::json::{
    as_array_spec, as_bool_spec, as_i64_spec, as_str_spec, get_spec, opt_string_view, JsonModel,
    JsonValue,
};

verus! {

pub open spec fn arg_i64_spec(a: JsonModel, key: Seq<char>) -> Option<i64> {
    match get_spec(a, key) {
        Some(v) => as_i64_spec(v),
        None => None,
    }
}

pub open spec fn arg_str_spec(a: JsonModel, key: Seq<char>) -> Option<Seq<char>> {
    match get_spec(a, key) {
        Some(v) => as_str_spec(v),
        None => None,
    }
}

pub open spec fn arg_bool_spec(a: JsonModel, key: Seq<char>) -> Option<bool> {
    match get_spec(a, key) {
        Some(v) => as_bool_spec(v),
        None => None,
    }
}

pub open spec fn arg_array_spec(a: JsonModel, key: Seq<char>) -> Option<Seq<JsonModel>> {
    match get_spec(a, key) {
        Some(v) => as_array_spec(v),
        None => None,
    }
}

/// A list of 64-bit ids cast to 32 bits, as `as i32` does.
pub open spec fn narrow_ids(v: Seq<i64>) -> Seq<i32> {
    v.map_values(|x: i64| x as i32)
}

/// `args[key]` as a 64-bit integer.
pub fn arg_i64(args: &JsonValue, key: &str) -> (r: Option<i64>)
    ensures
        r == arg_i64_spec(args@, key@),
{
    match args.get(key) {
        Some(v) => v.as_i64(),
        None => None,
    }
}

/// `args[key]` as a string.
pub fn arg_str(args: &JsonValue, key: &str) -> (r: Option<String>)
    ensures
        opt_string_view(r) == arg_str_spec(args@, key@),
{
    match args.get(key) {
        Some(v) => match v.as_str() {
            Some(s) => Some(s.clone()),
            None => None,
        },
        None => None,
    }
}

/// `args[key]` as a boolean.
pub fn arg_bool(args: &JsonValue, key: &str) -> (r: Option<bool>)
    ensures
        r == arg_bool_spec(args@, key@),
{
    match args.get(key) {
        Some(v) => v.as_bool(),
        None => None,
    }
}

/// `args[key]` as an array.
pub fn arg_array<'a>(args: &'a JsonValue, key: &str) -> (r: Option<&'a Vec<JsonValue>>)
    ensures
        match r {
            Some(items) => arg_array_spec(args@, key@) == Some(
                Seq::new(items@.len(), |i: int| items@[i]@),
            ),
            None => arg_array_spec(args@, key@) is None,
        },
{
    match args.get(key) {
        Some(v) => v.as_array(),
        None => None,
    }
}

/// The ids cast to 32 bits.
pub fn narrow(v: Vec<i64>) -> (r: Vec<i32>)
    ensures
        r@ == narrow_ids(v@),
{
    let mut out: Vec<i32> = Vec::new();
    let mut i: usize = 0;
    while i < v.len()
        invariant
            0 <= i <= v.len(),
            out@ == narrow_ids(v@.take(i as int)),
        decreases v.len() - i,
    {
        out.push(v[i] as i32);
        i = i + 1;
        assert(out@ =~= narrow_ids(v@.take(i as int)));
    }
    assert(v@.take(i as int) =~= v@);
    out
}

} // verus!
