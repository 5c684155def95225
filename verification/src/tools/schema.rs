//! What a tool tells a client about itself: its name, what it does, and the
//! JSON schema of its arguments.
use vstd::prelude::*;
use vstd::string::*;
use crate::json::{
    entries_view, items_view, json_str, make_array, make_object, push_entry, push_item, JsonModel,
    JsonNumber, JsonValue, NumberModel,
};

verus! {

#[derive(Debug, Clone, Copy)]
pub enum ParamKind {
    Integer,
    Str,
    Boolean,
    Array,
    IntegerArray,
    StringArray,
}

#[derive(Debug, Clone, Copy)]
pub enum ParamDefault {
    Int(i64),
    Bool(bool),
}

/// One argument of a tool, as its schema describes it.
pub struct ParamSpec {
    pub name: &'static str,
    pub kind: ParamKind,
    pub description: Option<&'static str>,
    pub default: Option<ParamDefault>,
}

pub struct ParamModel {
    pub name: Seq<char>,
    pub kind: ParamKind,
    pub description: Option<Seq<char>>,
    pub default: Option<ParamDefault>,
}

pub open spec fn opt_str_view(o: Option<&'static str>) -> Option<Seq<char>> {
    match o {
        Some(s) => Some(s@),
        None => None,
    }
}

impl View for ParamSpec {
    type V = ParamModel;

    open spec fn view(&self) -> ParamModel {
        ParamModel {
            name: self.name@,
            kind: self.kind,
            description: opt_str_view(self.description),
            default: self.default,
        }
    }
}

pub open spec fn params_view(v: Seq<ParamSpec>) -> Seq<ParamModel> {
    v.map_values(|p: ParamSpec| p@)
}

pub open spec fn names_view(v: Seq<&'static str>) -> Seq<Seq<char>> {
    v.map_values(|s: &'static str| s@)
}

#[derive(Debug)]
pub struct ToolInfo {
    pub name: String,
    pub description: String,
    pub input_schema: JsonValue,
}

pub struct ToolInfoModel {
    pub name: Seq<char>,
    pub description: Seq<char>,
    pub input_schema: JsonModel,
}

impl View for ToolInfo {
    type V = ToolInfoModel;

    open spec fn view(&self) -> ToolInfoModel {
        ToolInfoModel {
            name: self.name@,
            description: self.description@,
            input_schema: self.input_schema@,
        }
    }
}

pub open spec fn json_type_of(k: ParamKind) -> Seq<char> {
    match k {
        ParamKind::Integer => "integer"@,
        ParamKind::Str => "string"@,
        ParamKind::Boolean => "boolean"@,
        _ => "array"@,
    }
}

pub open spec fn type_object(t: Seq<char>) -> JsonModel {
    JsonModel::Object(Seq::empty().push(("type"@, JsonModel::Str(t))))
}

pub open spec fn default_model(d: ParamDefault) -> JsonModel {
    match d {
        ParamDefault::Int(n) => if n >= 0 {
            JsonModel::Number(NumberModel::PosInt(n as u64))
        } else {
            JsonModel::Number(NumberModel::NegInt(n))
        },
        ParamDefault::Bool(b) => JsonModel::Bool(b),
    }
}

/// The schema of one argument: its JSON type, then the type of its items, its
/// description and its default, where it has them.
pub open spec fn param_schema(p: ParamModel) -> JsonModel {
    let e0 = Seq::empty().push(("type"@, JsonModel::Str(json_type_of(p.kind))));
    let e1 = match p.kind {
        ParamKind::IntegerArray => e0.push(("items"@, type_object("integer"@))),
        ParamKind::StringArray => e0.push(("items"@, type_object("string"@))),
        _ => e0,
    };
    let e2 = match p.description {
        Some(d) => e1.push(("description"@, JsonModel::Str(d))),
        None => e1,
    };
    let e3 = match p.default {
        Some(d) => e2.push(("default"@, default_model(d))),
        None => e2,
    };
    JsonModel::Object(e3)
}

pub open spec fn properties(ps: Seq<ParamModel>) -> Seq<(Seq<char>, JsonModel)>
    decreases ps.len(),
{
    if ps.len() == 0 {
        Seq::empty()
    } else {
        properties(ps.drop_last()).push((ps.last().name, param_schema(ps.last())))
    }
}

pub open spec fn required_items(names: Seq<Seq<char>>) -> Seq<JsonModel>
    decreases names.len(),
{
    if names.len() == 0 {
        Seq::empty()
    } else {
        required_items(names.drop_last()).push(JsonModel::Str(names.last()))
    }
}

/// The schema of a tool's arguments: an object with these properties, and the
/// list of required ones where the tool gives one.
pub open spec fn schema_model(ps: Seq<ParamModel>, required: Option<Seq<Seq<char>>>) -> JsonModel {
    let base = Seq::empty().push(("type"@, JsonModel::Str("object"@))).push(
        ("properties"@, JsonModel::Object(properties(ps))),
    );
    match required {
        Some(r) => JsonModel::Object(base.push(("required"@, JsonModel::Array(required_items(r))))),
        None => JsonModel::Object(base),
    }
}

fn type_json(t: &str) -> (r: JsonValue)
    ensures
        r@ == type_object(t@),
{
    let mut e: Vec<(String, JsonValue)> = Vec::new();
    push_entry(&mut e, "type", json_str(t));
    assert(entries_view(e@) =~= Seq::empty().push(("type"@, JsonModel::Str(t@))));
    make_object(e)
}

fn type_text(k: ParamKind) -> (r: &'static str)
    ensures
        r@ == json_type_of(k),
{
    match k {
        ParamKind::Integer => "integer",
        ParamKind::Str => "string",
        ParamKind::Boolean => "boolean",
        _ => "array",
    }
}

fn default_json(d: ParamDefault) -> (r: JsonValue)
    ensures
        r@ == default_model(d),
{
    match d {
        ParamDefault::Int(n) => if n >= 0 {
            JsonValue::Number(JsonNumber::PosInt(n as u64))
        } else {
            JsonValue::Number(JsonNumber::NegInt(n))
        },
        ParamDefault::Bool(b) => JsonValue::Bool(b),
    }
}

pub fn param_json(p: &ParamSpec) -> (r: JsonValue)
    ensures
        r@ == param_schema(p@),
{
    let mut e: Vec<(String, JsonValue)> = Vec::new();
    let ghost m = p@;
    push_entry(&mut e, "type", json_str(type_text(p.kind)));
    assert(entries_view(e@) =~= Seq::empty().push(("type"@, JsonModel::Str(json_type_of(m.kind)))));
    match p.kind {
        ParamKind::IntegerArray => push_entry(&mut e, "items", type_json("integer")),
        ParamKind::StringArray => push_entry(&mut e, "items", type_json("string")),
        _ => {},
    }
    match p.description {
        Some(d) => push_entry(&mut e, "description", json_str(d)),
        None => {},
    }
    match p.default {
        Some(d) => push_entry(&mut e, "default", default_json(d)),
        None => {},
    }
    make_object(e)
}

/// The JSON schema of a tool's arguments.
pub fn schema_json(params: &Vec<ParamSpec>, required: Option<Vec<&'static str>>) -> (r: JsonValue)
    ensures
        r@ == schema_model(
            params_view(params@),
            match required {
                Some(v) => Some(names_view(v@)),
                None => None,
            },
        ),
{
    let ghost ps = params_view(params@);
    let mut props: Vec<(String, JsonValue)> = Vec::new();
    let mut i: usize = 0;
    while i < params.len()
        invariant
            0 <= i <= params.len(),
            ps == params_view(params@),
            entries_view(props@) == properties(ps.take(i as int)),
        decreases params.len() - i,
    {
        assert(ps.take(i + 1).drop_last() =~= ps.take(i as int));
        push_entry(&mut props, params[i].name, param_json(&params[i]));
        i = i + 1;
    }
    assert(ps.take(i as int) =~= ps);
    let mut e: Vec<(String, JsonValue)> = Vec::new();
    push_entry(&mut e, "type", json_str("object"));
    push_entry(&mut e, "properties", make_object(props));
    let ghost base = Seq::empty().push(("type"@, JsonModel::Str("object"@))).push(
        ("properties"@, JsonModel::Object(properties(ps))),
    );
    assert(entries_view(e@) =~= base);
    match required {
        Some(names) => {
            let ghost ns = names_view(names@);
            let mut items: Vec<JsonValue> = Vec::new();
            let mut j: usize = 0;
            while j < names.len()
                invariant
                    0 <= j <= names.len(),
                    ns == names_view(names@),
                    items_view(items@) == required_items(ns.take(j as int)),
                decreases names.len() - j,
            {
                assert(ns.take(j + 1).drop_last() =~= ns.take(j as int));
                push_item(&mut items, json_str(names[j]));
                j = j + 1;
            }
            assert(ns.take(j as int) =~= ns);
            push_entry(&mut e, "required", make_array(items));
            assert(entries_view(e@) =~= base.push(("required"@, JsonModel::Array(required_items(ns)))));
        },
        None => {},
    }
    make_object(e)
}

/// The description of a tool, built from its parts.
pub fn build_info(
    name: &str,
    description: &str,
    params: Vec<ParamSpec>,
    required: Option<Vec<&'static str>>,
) -> (r: ToolInfo)
    ensures
        r@ == (ToolInfoModel {
            name: name@,
            description: description@,
            input_schema: schema_model(
                params_view(params@),
                match required {
                    Some(v) => Some(names_view(v@)),
                    None => None,
                },
            ),
        }),
{
    ToolInfo {
        name: String::from_str(name),
        description: String::from_str(description),
        input_schema: schema_json(&params, required),
    }
}

} // verus!
