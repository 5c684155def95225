//! A JSON value as the server reads and writes it, and its mathematical model.
use vstd::prelude::*;

verus! {

/// A JSON number as the wire format holds it: non-negative integers, negative
/// integers, and (as their decimal text) numbers with a fraction or exponent.
#[derive(Debug)]
pub enum JsonNumber {
    PosInt(u64),
    NegInt(i64),
    Float(String),
}

#[derive(Debug)]
pub enum JsonValue {
    Null,
    Bool(bool),
    Number(JsonNumber),
    Str(String),
    Array(Vec<JsonValue>),
    Object(Vec<(String, JsonValue)>),
}

pub enum NumberModel {
    PosInt(u64),
    NegInt(i64),
    Float(Seq<char>),
}

pub enum JsonModel {
    Null,
    Bool(bool),
    Number(NumberModel),
    Str(Seq<char>),
    Array(Seq<JsonModel>),
    Object(Seq<(Seq<char>, JsonModel)>),
}

pub open spec fn number_view(n: JsonNumber) -> NumberModel {
    match n {
        JsonNumber::PosInt(u) => NumberModel::PosInt(u),
        JsonNumber::NegInt(i) => NumberModel::NegInt(i),
        JsonNumber::Float(s) => NumberModel::Float(s@),
    }
}

pub open spec fn json_view(v: JsonValue) -> JsonModel
    decreases v,
{
    match v {
        JsonValue::Null => JsonModel::Null,
        JsonValue::Bool(b) => JsonModel::Bool(b),
        JsonValue::Number(n) => JsonModel::Number(number_view(n)),
        JsonValue::Str(s) => JsonModel::Str(s@),
        JsonValue::Array(items) => JsonModel::Array(
            Seq::new(
                items@.len(),
                |i: int|
                    if 0 <= i < items@.len() {
                        json_view(items@[i])
                    } else {
                        JsonModel::Null
                    },
            ),
        ),
        JsonValue::Object(entries) => JsonModel::Object(
            Seq::new(
                entries@.len(),
                |i: int|
                    if 0 <= i < entries@.len() {
                        (entries@[i].0@, json_view(entries@[i].1))
                    } else {
                        (Seq::empty(), JsonModel::Null)
                    },
            ),
        ),
    }
}

impl View for JsonValue {
    type V = JsonModel;

    open spec fn view(&self) -> JsonModel {
        json_view(*self)
    }
}

/// The value stored under `key` in a list of object entries: the first entry
/// with that key.
pub open spec fn lookup_entry(entries: Seq<(Seq<char>, JsonModel)>, key: Seq<char>) -> Option<JsonModel>
    decreases entries.len(),
{
    if entries.len() == 0 {
        None
    } else if entries[0].0 == key {
        Some(entries[0].1)
    } else {
        lookup_entry(entries.drop_first(), key)
    }
}

/// `v[key]` for an object; nothing for any other value.
pub open spec fn get_spec(v: JsonModel, key: Seq<char>) -> Option<JsonModel> {
    match v {
        JsonModel::Object(entries) => lookup_entry(entries, key),
        _ => None,
    }
}

/// The value as a signed 64-bit integer, where it is an integer that fits.
pub open spec fn as_i64_spec(v: JsonModel) -> Option<i64> {
    match v {
        JsonModel::Number(NumberModel::PosInt(n)) => if n <= i64::MAX {
            Some(n as i64)
        } else {
            None
        },
        JsonModel::Number(NumberModel::NegInt(n)) => Some(n),
        _ => None,
    }
}

pub open spec fn as_str_spec(v: JsonModel) -> Option<Seq<char>> {
    match v {
        JsonModel::Str(s) => Some(s),
        _ => None,
    }
}

pub open spec fn as_bool_spec(v: JsonModel) -> Option<bool> {
    match v {
        JsonModel::Bool(b) => Some(b),
        _ => None,
    }
}

pub open spec fn as_array_spec(v: JsonModel) -> Option<Seq<JsonModel>> {
    match v {
        JsonModel::Array(items) => Some(items),
        _ => None,
    }
}

/// The integers of an array, in order, skipping the items that are not
/// integers that fit in 64 bits.
pub open spec fn ints_of(items: Seq<JsonModel>) -> Seq<i64>
    decreases items.len(),
{
    if items.len() == 0 {
        Seq::empty()
    } else {
        let rest = ints_of(items.drop_last());
        match as_i64_spec(items.last()) {
            Some(n) => rest.push(n),
            None => rest,
        }
    }
}

/// The strings of an array, in order, skipping the items that are not strings.
pub open spec fn strs_of(items: Seq<JsonModel>) -> Seq<Seq<char>>
    decreases items.len(),
{
    if items.len() == 0 {
        Seq::empty()
    } else {
        let rest = strs_of(items.drop_last());
        match as_str_spec(items.last()) {
            Some(s) => rest.push(s),
            None => rest,
        }
    }
}

/// The views of a list of strings.
pub open spec fn strings_view(v: Seq<String>) -> Seq<Seq<char>> {
    v.map_values(|s: String| s@)
}

pub open spec fn opt_string_view(o: Option<String>) -> Option<Seq<char>> {
    match o {
        Some(s) => Some(s@),
        None => None,
    }
}

impl JsonValue {
    pub fn empty_object() -> (r: JsonValue)
        ensures
            r@ == JsonModel::Object(Seq::empty()),
    {
        let r = JsonValue::Object(Vec::new());
        assert(r@->Object_0 =~= Seq::<(Seq<char>, JsonModel)>::empty());
        r
    }

    /// `self[key]` where `self` is an object.
    pub fn get(&self, key: &str) -> (r: Option<&JsonValue>)
        ensures
            match r {
                Some(v) => get_spec(self@, key@) == Some(v@),
                None => get_spec(self@, key@) is None,
            },
    {
        match self {
            JsonValue::Object(entries) => {
                let k = String::from_str(key);
                let ghost m = self@->Object_0;
                let mut i: usize = 0;
                assert(m.subrange(0, m.len() as int) =~= m);
                while i < entries.len()
                    invariant
                        0 <= i <= entries.len(),
                        m == (json_view(JsonValue::Object(*entries)))->Object_0,
                        m.len() == entries@.len(),
                        k@ == key@,
                        get_spec(self@, key@) == lookup_entry(m, key@),
                        lookup_entry(m, key@) == lookup_entry(m.subrange(i as int, m.len() as int), key@),
                    decreases entries.len() - i,
                {
                    let entry = &entries[i];
                    assert(m[i as int] == (entries@[i as int].0@, entries@[i as int].1@));
                    assert(m.subrange(i as int, m.len() as int).drop_first() =~= m.subrange(
                        i + 1,
                        m.len() as int,
                    ));
                    assert(m.subrange(i as int, m.len() as int)[0] == m[i as int]);
                    if entry.0 == k {
                        assert(lookup_entry(m.subrange(i as int, m.len() as int), key@) == Some(
                            m[i as int].1,
                        ));
                        return Some(&entry.1);
                    }
                    i = i + 1;
                }
                None
            },
            _ => None,
        }
    }

    pub fn as_i64(&self) -> (r: Option<i64>)
        ensures
            r == as_i64_spec(self@),
    {
        match self {
            JsonValue::Number(JsonNumber::PosInt(n)) => {
                if *n <= 9223372036854775807u64 {
                    Some(*n as i64)
                } else {
                    None
                }
            },
            JsonValue::Number(JsonNumber::NegInt(n)) => Some(*n),
            _ => None,
        }
    }

    pub fn as_str(&self) -> (r: Option<&String>)
        ensures
            match r {
                Some(s) => as_str_spec(self@) == Some(s@),
                None => as_str_spec(self@) is None,
            },
    {
        match self {
            JsonValue::Str(s) => Some(s),
            _ => None,
        }
    }

    pub fn as_bool(&self) -> (r: Option<bool>)
        ensures
            r == as_bool_spec(self@),
    {
        match self {
            JsonValue::Bool(b) => Some(*b),
            _ => None,
        }
    }

    pub fn as_array(&self) -> (r: Option<&Vec<JsonValue>>)
        ensures
            match r {
                Some(items) => as_array_spec(self@) == Some(
                    Seq::new(items@.len(), |i: int| items@[i]@),
                ),
                None => as_array_spec(self@) is None,
            },
    {
        match self {
            JsonValue::Array(items) => {
                assert(self@->Array_0 =~= Seq::new(items@.len(), |i: int| items@[i]@));
                Some(items)
            },
            _ => None,
        }
    }
}

/// The integers of a JSON array, skipping the items that are not integers.
pub fn collect_ints(items: &Vec<JsonValue>) -> (r: Vec<i64>)
    ensures
        r@ == ints_of(Seq::new(items@.len(), |i: int| items@[i]@)),
{
    let ghost ms = Seq::new(items@.len(), |i: int| items@[i]@);
    let mut out: Vec<i64> = Vec::new();
    let mut i: usize = 0;
    while i < items.len()
        invariant
            0 <= i <= items.len(),
            ms == Seq::new(items@.len(), |i: int| items@[i]@),
            out@ == ints_of(ms.take(i as int)),
        decreases items.len() - i,
    {
        assert(ms.take(i + 1).drop_last() =~= ms.take(i as int));
        match items[i].as_i64() {
            Some(n) => out.push(n),
            None => {},
        }
        i = i + 1;
    }
    assert(ms.take(i as int) =~= ms);
    out
}

/// The strings of a JSON array, skipping the items that are not strings.
pub fn collect_strs(items: &Vec<JsonValue>) -> (r: Vec<String>)
    ensures
        strings_view(r@) == strs_of(Seq::new(items@.len(), |i: int| items@[i]@)),
{
    let ghost ms = Seq::new(items@.len(), |i: int| items@[i]@);
    let mut out: Vec<String> = Vec::new();
    let mut i: usize = 0;
    while i < items.len()
        invariant
            0 <= i <= items.len(),
            ms == Seq::new(items@.len(), |i: int| items@[i]@),
            strings_view(out@) == strs_of(ms.take(i as int)),
        decreases items.len() - i,
    {
        assert(ms.take(i + 1).drop_last() =~= ms.take(i as int));
        let ghost before = out@;
        match items[i].as_str() {
            Some(s) => {
                out.push(s.clone());
                assert(strings_view(out@) =~= strings_view(before).push(s@));
            },
            None => {},
        }
        i = i + 1;
    }
    assert(ms.take(i as int) =~= ms);
    out
}

/// The models of a list of object entries.
pub open spec fn entries_view(v: Seq<(String, JsonValue)>) -> Seq<(Seq<char>, JsonModel)> {
    Seq::new(v.len(), |i: int| (v[i].0@, v[i].1@))
}

/// The models of a list of values.
pub open spec fn items_view(v: Seq<JsonValue>) -> Seq<JsonModel> {
    Seq::new(v.len(), |i: int| v[i]@)
}

/// A string value.
pub fn json_str(s: &str) -> (r: JsonValue)
    ensures
        r@ == JsonModel::Str(s@),
{
    JsonValue::Str(String::from_str(s))
}

/// An object with the given entries, in order.
pub fn make_object(entries: Vec<(String, JsonValue)>) -> (r: JsonValue)
    ensures
        r@ == JsonModel::Object(entries_view(entries@)),
{
    let r = JsonValue::Object(entries);
    assert(r@->Object_0 =~= entries_view(entries@));
    r
}

/// An array with the given items, in order.
pub fn make_array(items: Vec<JsonValue>) -> (r: JsonValue)
    ensures
        r@ == JsonModel::Array(items_view(items@)),
{
    let r = JsonValue::Array(items);
    assert(r@->Array_0 =~= items_view(items@));
    r
}

/// Adds an entry at the end of an object's entries.
pub fn push_entry(entries: &mut Vec<(String, JsonValue)>, key: &str, value: JsonValue)
    ensures
        entries_view(final(entries)@) == entries_view(old(entries)@).push((key@, value@)),
{
    entries.push((String::from_str(key), value));
    assert(entries_view(entries@) =~= entries_view(old(entries)@).push((key@, value@)));
}

/// Adds an item at the end of an array's items.
pub fn push_item(items: &mut Vec<JsonValue>, value: JsonValue)
    ensures
        items_view(final(items)@) == items_view(old(items)@).push(value@),
{
    items.push(value);
    assert(items_view(items@) =~= items_view(old(items)@).push(value@));
}

} // verus!
