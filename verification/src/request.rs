//! What a tool asks of the backend: a method, a path and, for writes, a
//! JSON object body; with their views over `Seq<char>`.

use vstd::prelude::*;
use vstd::string::*;
use crate::text::{decimal, push_char, push_decimal};

verus! {

/// The HTTP method of a backend request.
#[derive(Debug, Clone, Copy, PartialEq, Eq, Structural)]
pub enum Method {
    Get,
    Post,
    Patch,
}

/// A JSON value of the kinds the tools send and report.
#[derive(Debug, Clone, PartialEq, Eq)]
pub enum JsonValue {
    Null,
    Str(String),
    Num(u64),
    StrList(Vec<String>),
    /// A value received from elsewhere, held as its JSON text.
    Raw(String),
}

/// The mathematical content of a [`JsonValue`].
pub enum JsonVal {
    Null,
    Str(Seq<char>),
    Num(nat),
    StrList(Seq<Seq<char>>),
    Raw(Seq<char>),
}

/// The views of a list of strings.
pub open spec fn texts(v: Seq<String>) -> Seq<Seq<char>> {
    v.map_values(|s: String| s@)
}

impl View for JsonValue {
    type V = JsonVal;

    open spec fn view(&self) -> JsonVal {
        match self {
            JsonValue::Null => JsonVal::Null,
            JsonValue::Str(s) => JsonVal::Str(s@),
            JsonValue::Num(n) => JsonVal::Num(*n as nat),
            JsonValue::StrList(v) => JsonVal::StrList(texts(v@)),
            JsonValue::Raw(s) => JsonVal::Raw(s@),
        }
    }
}

/// One member of a JSON object.
#[derive(Debug, Clone, PartialEq, Eq)]
pub struct JsonField {
    pub key: String,
    pub value: JsonValue,
}

/// A JSON object, its members in the order they were added.
#[derive(Debug, Clone, PartialEq, Eq)]
pub struct JsonObject {
    pub fields: Vec<JsonField>,
}

/// The content of a JSON object: its keys and values, in order.
pub type ObjectView = Seq<(Seq<char>, JsonVal)>;

impl View for JsonObject {
    type V = ObjectView;

    open spec fn view(&self) -> ObjectView {
        self.fields@.map_values(|f: JsonField| (f.key@, f.value@))
    }
}

/// The view of an optional string.
pub open spec fn opt_text(o: Option<String>) -> Option<Seq<char>> {
    match o {
        Some(s) => Some(s@),
        None => None,
    }
}

/// The JSON value of an optional string: `null` when absent.
pub open spec fn opt_json(o: Option<Seq<char>>) -> JsonVal {
    match o {
        Some(s) => JsonVal::Str(s),
        None => JsonVal::Null,
    }
}

/// The JSON value of an optional list of strings: `null` when absent.
pub open spec fn opt_list_json(o: Option<Vec<String>>) -> JsonVal {
    match o {
        Some(v) => JsonVal::StrList(texts(v@)),
        None => JsonVal::Null,
    }
}

/// The decimal text of an optional `u32`.
pub open spec fn shown_u32(o: Option<u32>) -> Option<Seq<char>> {
    match o {
        Some(n) => Some(decimal(n as nat)),
        None => None,
    }
}

/// The decimal text of an optional `u64`.
pub open spec fn shown_u64(o: Option<u64>) -> Option<Seq<char>> {
    match o {
        Some(n) => Some(decimal(n as nat)),
        None => None,
    }
}

/// `key` and the value when a value is present; nothing otherwise.
pub open spec fn param(key: Seq<char>, v: Option<Seq<char>>) -> Seq<char> {
    match v {
        Some(x) => key + x,
        None => seq![],
    }
}

/// `key`, the value and `&` when a value is present; nothing otherwise.
pub open spec fn param_amp(key: Seq<char>, v: Option<Seq<char>>) -> Seq<char> {
    match v {
        Some(x) => key + x + seq!['&'],
        None => seq![],
    }
}

impl JsonObject {
    /// An object with no members.
    pub fn new() -> (obj: JsonObject)
        ensures
            obj@ == Seq::<(Seq<char>, JsonVal)>::empty(),
    {
        let obj = JsonObject { fields: Vec::new() };
        assert(obj@ =~= Seq::<(Seq<char>, JsonVal)>::empty());
        obj
    }

    /// Adds a member with the given key and value at the end.
    pub fn insert(&mut self, key: &str, value: JsonValue)
        ensures
            final(self)@ == old(self)@.push((key@, value@)),
    {
        let f = JsonField { key: String::from_str(key), value };
        self.fields.push(f);
        assert(self@ =~= old(self)@.push((key@, value@)));
    }

    /// Adds a string member, `null` when the value is absent.
    pub fn insert_opt(&mut self, key: &str, value: &Option<String>)
        ensures
            final(self)@ == old(self)@.push((key@, opt_json(opt_text(*value)))),
    {
        let v = match value {
            Some(s) => JsonValue::Str(s.clone()),
            None => JsonValue::Null,
        };
        self.insert(key, v);
    }

    /// Adds a list-of-strings member, `null` when the value is absent.
    pub fn insert_opt_list(&mut self, key: &str, value: &Option<Vec<String>>)
        ensures
            final(self)@ == old(self)@.push((key@, opt_list_json(*value))),
    {
        let v = match value {
            Some(list) => JsonValue::StrList(list.clone()),
            None => JsonValue::Null,
        };
        self.insert(key, v);
    }
}

/// A request to the backend.
#[derive(Debug, Clone, PartialEq, Eq)]
pub struct ApiRequest {
    pub method: Method,
    pub path: String,
    pub body: Option<JsonObject>,
}

/// The content of an [`ApiRequest`].
pub struct RequestView {
    pub method: Method,
    pub path: Seq<char>,
    pub body: Option<ObjectView>,
}

impl View for ApiRequest {
    type V = RequestView;

    open spec fn view(&self) -> RequestView {
        RequestView {
            method: self.method,
            path: self.path@,
            body: match self.body {
                Some(b) => Some(b@),
                None => None,
            },
        }
    }
}

/// A read of `path`.
pub open spec fn get_of(path: Seq<char>) -> RequestView {
    RequestView { method: Method::Get, path, body: None }
}

/// A write of `body` to `path` with the given method.
pub open spec fn write_of(method: Method, path: Seq<char>, body: ObjectView) -> RequestView {
    RequestView { method, path, body: Some(body) }
}

/// Appends `key` and the value to `path` when a value is present.
pub fn push_param(path: &mut String, key: &str, value: &Option<String>)
    ensures
        final(path)@ == old(path)@ + param(key@, opt_text(*value)),
{
    match value {
        Some(v) => {
            path.append(key);
            path.append(v.as_str());
        },
        None => {},
    }
    assert(path@ =~= old(path)@ + param(key@, opt_text(*value)));
}

/// Appends `key`, the value and `&` to `path` when a value is present.
pub fn push_param_amp(path: &mut String, key: &str, value: &Option<String>)
    ensures
        final(path)@ == old(path)@ + param_amp(key@, opt_text(*value)),
{
    match value {
        Some(v) => {
            path.append(key);
            path.append(v.as_str());
            push_char(path, '&');
        },
        None => {},
    }
    assert(path@ =~= old(path)@ + param_amp(key@, opt_text(*value)));
}

/// Appends `key` and the number in decimal to `path` when a number is present.
pub fn push_num_param(path: &mut String, key: &str, value: Option<u64>)
    ensures
        final(path)@ == old(path)@ + param(key@, shown_u64(value)),
{
    match value {
        Some(n) => {
            path.append(key);
            push_decimal(path, n);
        },
        None => {},
    }
    assert(path@ =~= old(path)@ + param(key@, shown_u64(value)));
}

/// Appends `key`, the number in decimal and `&` to `path` when a number is
/// present.
pub fn push_num_param_amp(path: &mut String, key: &str, value: Option<u64>)
    ensures
        final(path)@ == old(path)@ + param_amp(key@, shown_u64(value)),
{
    match value {
        Some(n) => {
            path.append(key);
            push_decimal(path, n);
            push_char(path, '&');
        },
        None => {},
    }
    assert(path@ =~= old(path)@ + param_amp(key@, shown_u64(value)));
}

/// Widens an optional `u32`; its decimal text stays the same.
pub fn widen(o: Option<u32>) -> (res: Option<u64>)
    ensures
        shown_u64(res) == shown_u32(o),
{
    match o {
        Some(n) => Some(n as u64),
        None => None,
    }
}

} // verus!
