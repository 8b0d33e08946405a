//! Translation of a chain configuration from JSON to TOML, on values.
//!
//! Reading JSON text into a [`JsonValue`] and writing a [`TomlValue`] out as
//! TOML text are the caller's work.

use vstd::prelude::*;

verus! {

/// A JSON number, as a JSON reader classes it.
#[derive(Clone, Copy, Debug, PartialEq, Eq)]
pub enum JsonNumber {
    /// An integer that is not negative.
    PosInt(u64),
    /// A negative integer.
    NegInt(i64),
    /// A number with a fraction or an exponent, by the bits of its 64-bit
    /// floating-point value.
    Float { bits: u64 },
}

/// A JSON value.
#[derive(Debug, PartialEq, Eq)]
pub enum JsonValue {
    Null,
    Bool(bool),
    Number(JsonNumber),
    Text(String),
    Array(Vec<JsonValue>),
    /// The members in the order the reader gives them.
    Object(Vec<(String, JsonValue)>),
}

/// A TOML value, as far as the translation makes one.
#[derive(Debug, PartialEq, Eq)]
pub enum TomlValue {
    Text(String),
    Integer(i64),
    /// By the bits of its 64-bit floating-point value.
    Float { bits: u64 },
    Boolean(bool),
    Array(Vec<TomlValue>),
    /// The entries in order; of two entries under one key the later counts.
    Table(Vec<(String, TomlValue)>),
}

/// A JSON value as mathematics.
pub enum JsonModel {
    Null,
    Bool(bool),
    Number(JsonNumber),
    Text(Seq<char>),
    Array(Seq<JsonModel>),
    Object(Seq<(Seq<char>, JsonModel)>),
}

/// A TOML value as mathematics.
pub enum TomlModel {
    Text(Seq<char>),
    Integer(i64),
    Float { bits: u64 },
    Boolean(bool),
    Array(Seq<TomlModel>),
    Table(Seq<(Seq<char>, TomlModel)>),
}

impl JsonValue {
    /// What the value stands for.
    pub open spec fn model(self) -> JsonModel
        decreases self,
    {
        match self {
            JsonValue::Null => JsonModel::Null,
            JsonValue::Bool(b) => JsonModel::Bool(b),
            JsonValue::Number(n) => JsonModel::Number(n),
            JsonValue::Text(s) => JsonModel::Text(s@),
            JsonValue::Array(items) => JsonModel::Array(
                Seq::new(
                    items@.len(),
                    |i: int|
                        if 0 <= i < items@.len() {
                            items@[i].model()
                        } else {
                            JsonModel::Null
                        },
                ),
            ),
            JsonValue::Object(members) => JsonModel::Object(
                Seq::new(
                    members@.len(),
                    |i: int|
                        if 0 <= i < members@.len() {
                            (members@[i].0@, members@[i].1.model())
                        } else {
                            (Seq::empty(), JsonModel::Null)
                        },
                ),
            ),
        }
    }
}

impl TomlValue {
    /// What the value stands for.
    pub open spec fn model(self) -> TomlModel
        decreases self,
    {
        match self {
            TomlValue::Text(s) => TomlModel::Text(s@),
            TomlValue::Integer(n) => TomlModel::Integer(n),
            TomlValue::Float { bits } => TomlModel::Float { bits },
            TomlValue::Boolean(b) => TomlModel::Boolean(b),
            TomlValue::Array(items) => TomlModel::Array(
                Seq::new(
                    items@.len(),
                    |i: int|
                        if 0 <= i < items@.len() {
                            items@[i].model()
                        } else {
                            TomlModel::Boolean(false)
                        },
                ),
            ),
            TomlValue::Table(entries) => TomlModel::Table(
                Seq::new(
                    entries@.len(),
                    |i: int|
                        if 0 <= i < entries@.len() {
                            (entries@[i].0@, entries@[i].1.model())
                        } else {
                            (Seq::empty(), TomlModel::Boolean(false))
                        },
                ),
            ),
        }
    }
}

/// The models of a list of TOML values.
pub open spec fn toml_models(items: Seq<TomlValue>) -> Seq<TomlModel> {
    Seq::new(items.len(), |i: int| items[i].model())
}

/// The models of a list of TOML entries.
pub open spec fn toml_entry_models(entries: Seq<(String, TomlValue)>) -> Seq<
    (Seq<char>, TomlModel),
> {
    Seq::new(entries.len(), |i: int| (entries[i].0@, entries[i].1.model()))
}

/// The TOML number for a JSON number: a float stays a float, an integer that
/// fits 64 signed bits stays an integer, a larger one has no counterpart.
pub open spec fn translate_number(n: JsonNumber) -> Option<TomlModel> {
    match n {
        JsonNumber::Float { bits } => Some(TomlModel::Float { bits }),
        JsonNumber::NegInt(v) => Some(TomlModel::Integer(v)),
        JsonNumber::PosInt(v) => if v <= i64::MAX {
            Some(TomlModel::Integer(v as i64))
        } else {
            None
        },
    }
}

/// The TOML value for a JSON value: null becomes the empty string; booleans,
/// strings and numbers keep their value; an array keeps, in order, those of
/// its items that have a counterpart, and an object becomes a table of those
/// of its members that have one. Only a number too large has none.
pub open spec fn translate(json: JsonModel) -> Option<TomlModel>
    decreases json, 1nat,
{
    match json {
        JsonModel::Null => Some(TomlModel::Text(Seq::empty())),
        JsonModel::Bool(b) => Some(TomlModel::Boolean(b)),
        JsonModel::Number(n) => translate_number(n),
        JsonModel::Text(s) => Some(TomlModel::Text(s)),
        JsonModel::Array(items) => Some(TomlModel::Array(translate_items(json, items.len() as int))),
        JsonModel::Object(members) => Some(
            TomlModel::Table(translate_members(json, members.len() as int)),
        ),
    }
}

/// The counterparts of the first `n` items of the array `json`.
pub open spec fn translate_items(json: JsonModel, n: int) -> Seq<TomlModel>
    decreases json, 0nat, n,
{
    if json is Array && 0 < n <= json->Array_0.len() {
        let front = translate_items(json, n - 1);
        match translate(json->Array_0[n - 1]) {
            Some(item) => front.push(item),
            None => front,
        }
    } else {
        Seq::empty()
    }
}

/// The counterparts of the first `n` members of the object `json`.
pub open spec fn translate_members(json: JsonModel, n: int) -> Seq<(Seq<char>, TomlModel)>
    decreases json, 0nat, n,
{
    if json is Object && 0 < n <= json->Object_0.len() {
        let front = translate_members(json, n - 1);
        match translate(json->Object_0[n - 1].1) {
            Some(value) => front.push((json->Object_0[n - 1].0, value)),
            None => front,
        }
    } else {
        Seq::empty()
    }
}

/// The model of a translated value, if there is one.
pub open spec fn translated_model(result: Option<TomlValue>) -> Option<TomlModel> {
    match result {
        Some(value) => Some(value.model()),
        None => None,
    }
}

/// Translates a JSON value to TOML.
pub fn json_to_toml(json: &JsonValue) -> (toml: Option<TomlValue>)
    ensures
        translated_model(toml) == translate(json.model()),
    decreases json,
{
    match json {
        JsonValue::Null => {
            let empty = String::new();
            assert(empty@ =~= Seq::<char>::empty());
            Some(TomlValue::Text(empty))
        },
        JsonValue::Bool(b) => Some(TomlValue::Boolean(*b)),
        JsonValue::Number(n) => match n {
            JsonNumber::Float { bits } => Some(TomlValue::Float { bits: *bits }),
            JsonNumber::NegInt(v) => Some(TomlValue::Integer(*v)),
            JsonNumber::PosInt(v) => if *v <= 9223372036854775807u64 {
                Some(TomlValue::Integer(*v as i64))
            } else {
                None
            },
        },
        JsonValue::Text(s) => Some(TomlValue::Text(s.clone())),
        JsonValue::Array(items) => {
            let ghost whole = json.model();
            let mut out: Vec<TomlValue> = Vec::new();
            let mut i: usize = 0;
            assert(toml_models(out@) =~= translate_items(whole, 0));
            while i < items.len()
                invariant
                    i <= items@.len(),
                    *json == JsonValue::Array(*items),
                    whole == json.model(),
                    toml_models(out@) == translate_items(whole, i as int),
                decreases items@.len() - i,
            {
                assert(whole->Array_0[i as int] == items@[i as int].model());
                match json_to_toml(&items[i]) {
                    Some(item) => {
                        out.push(item);
                        assert(toml_models(out@) =~= translate_items(whole, i + 1));
                    },
                    None => {},
                }
                i += 1;
            }
            assert(TomlValue::Array(out).model() == TomlModel::Array(toml_models(out@))) by {
                assert(TomlValue::Array(out).model()->Array_0 =~= toml_models(out@));
            }
            Some(TomlValue::Array(out))
        },
        JsonValue::Object(members) => {
            let ghost whole = json.model();
            let mut out: Vec<(String, TomlValue)> = Vec::new();
            let mut i: usize = 0;
            assert(toml_entry_models(out@) =~= translate_members(whole, 0));
            while i < members.len()
                invariant
                    i <= members@.len(),
                    *json == JsonValue::Object(*members),
                    whole == json.model(),
                    toml_entry_models(out@) == translate_members(whole, i as int),
                decreases members@.len() - i,
            {
                assert(whole->Object_0[i as int] == (
                    members@[i as int].0@,
                    members@[i as int].1.model(),
                ));
                match json_to_toml(&members[i].1) {
                    Some(value) => {
                        out.push((members[i].0.clone(), value));
                        assert(toml_entry_models(out@) =~= translate_members(whole, i + 1));
                    },
                    None => {},
                }
                i += 1;
            }
            assert(TomlValue::Table(out).model() == TomlModel::Table(toml_entry_models(out@))) by {
                assert(TomlValue::Table(out).model()->Table_0 =~= toml_entry_models(out@));
            }
            Some(TomlValue::Table(out))
        },
    }
}

/// The message for a configuration that has no TOML counterpart.
pub fn untranslatable() -> (text: &'static str)
    ensures
        text@ == "Failed to convert JSON to TOML"@,
{
    "Failed to convert JSON to TOML"
}

/// Every array and every object has a counterpart, whatever it holds: only a
/// bare number that is too large has none.
pub proof fn theorem_translation_total(json: JsonModel)
    ensures
        translate(json) is None <==> (json matches JsonModel::Number(JsonNumber::PosInt(v)) && v
            > i64::MAX),
{
}

} // verus!
