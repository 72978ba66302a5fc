//! JSON values, as `serde_json` holds them.
//!
//! The control planes of the nodes and the RPC interface of the chain daemons
//! all speak JSON. Values stay `serde_json::Value`; [`json_view`] is what such
//! a value holds, and every contract of this library that reads or builds JSON
//! speaks of that.

use vstd::prelude::*;

verus! {

/// What a JSON value holds.
///
/// An integer is in the range of `i64` or of `u64`. Any other number is a
/// finite `f64`, given by its bits.
pub enum JsonView {
    Null,
    Bool(bool),
    Int(int),
    Float(u64),
    Text(Seq<char>),
    List(Seq<JsonView>),
    Record(Map<Seq<char>, JsonView>),
}

impl JsonView {
    /// The value under `key`, and `Null` where there is none.
    pub open spec fn field(self, key: Seq<char>) -> JsonView {
        match self {
            JsonView::Record(m) => if m.contains_key(key) {
                m[key]
            } else {
                JsonView::Null
            },
            _ => JsonView::Null,
        }
    }

    /// The text of a string value.
    pub open spec fn text(self) -> Option<Seq<char>> {
        match self {
            JsonView::Text(s) => Some(s),
            _ => None,
        }
    }

    /// The number of a value that is an integer and not negative.
    pub open spec fn natural(self) -> Option<int> {
        match self {
            JsonView::Int(n) => if 0 <= n <= u64::MAX {
                Some(n)
            } else {
                None
            },
            _ => None,
        }
    }

    /// The number of a value that is an integer in the range of `i64`.
    pub open spec fn integer(self) -> Option<int> {
        match self {
            JsonView::Int(n) => if i64::MIN <= n <= i64::MAX {
                Some(n)
            } else {
                None
            },
            _ => None,
        }
    }

    /// The items of an array value.
    pub open spec fn items(self) -> Option<Seq<JsonView>> {
        match self {
            JsonView::List(s) => Some(s),
            _ => None,
        }
    }

    /// This record with `value` under `key`.
    pub open spec fn with(self, key: Seq<char>, value: JsonView) -> JsonView {
        match self {
            JsonView::Record(m) => JsonView::Record(m.insert(key, value)),
            _ => JsonView::Record(Map::empty().insert(key, value)),
        }
    }

    /// A record that holds nothing.
    pub open spec fn empty() -> JsonView {
        JsonView::Record(Map::empty())
    }
}

/// `serde_json::Value`.
#[verifier::external_type_specification]
#[verifier::external_body]
pub struct ExValue(serde_json::Value);

/// What a `serde_json::Value` holds.
pub uninterp spec fn json_view(v: serde_json::Value) -> JsonView;

/// What the values of a list hold, one by one.
pub open spec fn json_views(items: Seq<serde_json::Value>) -> Seq<JsonView> {
    items.map_values(|v: serde_json::Value| json_view(v))
}

/// `serde_json::Value::is_null` tells whether the value is `null`.
pub assume_specification[ serde_json::Value::is_null ](v: &serde_json::Value) -> (r: bool)
    ensures
        r == (json_view(*v) == JsonView::Null),
;

/// `serde_json::Value::as_str` gives the text of a string, and nothing for any
/// other value.
pub assume_specification[ serde_json::Value::as_str ](v: &serde_json::Value) -> (r: Option<&str>)
    ensures
        match r {
            Some(s) => json_view(*v).text() == Some(s@),
            None => json_view(*v).text() is None,
        },
;

/// `serde_json::Value::as_u64` gives an integer that is not negative, and
/// nothing for any other value.
pub assume_specification[ serde_json::Value::as_u64 ](v: &serde_json::Value) -> (r: Option<u64>)
    ensures
        match r {
            Some(n) => json_view(*v).natural() == Some(n as int),
            None => json_view(*v).natural() is None,
        },
;

/// `serde_json::Value::as_i64` gives an integer in the range of `i64`, and
/// nothing for any other value.
pub assume_specification[ serde_json::Value::as_i64 ](v: &serde_json::Value) -> (r: Option<i64>)
    ensures
        match r {
            Some(n) => json_view(*v).integer() == Some(n as int),
            None => json_view(*v).integer() is None,
        },
;

/// `serde_json::Value::as_array` gives the items of an array, and nothing for
/// any other value.
pub assume_specification[ serde_json::Value::as_array ](v: &serde_json::Value) -> (r: Option<
    &Vec<serde_json::Value>,
>)
    ensures
        match r {
            Some(items) => json_view(*v) == JsonView::List(json_views(items@)),
            None => json_view(*v).items() is None,
        },
;

/// The `Clone` impl of `serde_json::Value`: the clone holds what the value
/// holds.
pub assume_specification[ <serde_json::Value as Clone>::clone ](v: &serde_json::Value) -> (r:
    serde_json::Value)
    ensures
        json_view(r) == json_view(*v),
;

/// Reads `v[key]`, the `Index` impl of `serde_json::Value`: the value under
/// `key` where `v` is an object that has it, `null` otherwise.
#[verifier::external_body]
pub(crate) fn field<'a>(v: &'a serde_json::Value, key: &str) -> (r: &'a serde_json::Value)
    ensures
        json_view(*r) == json_view(*v).field(key@),
{
    &v[key]
}

/// An object without members: `serde_json::Value::Object` of an empty
/// `serde_json::Map`.
#[verifier::external_body]
pub(crate) fn empty_record() -> (r: serde_json::Value)
    ensures
        json_view(r) == JsonView::empty(),
{
    serde_json::Value::Object(serde_json::Map::new())
}

/// Writes `v[key]`, the `IndexMut` impl of `serde_json::Value`, which adds the
/// member or replaces it. It panics unless `v` is an object or `null`.
#[verifier::external_body]
pub(crate) fn set_field(v: &mut serde_json::Value, key: &str, value: serde_json::Value)
    requires
        json_view(*old(v)) is Record,
    ensures
        json_view(*final(v)) == json_view(*old(v)).with(key@, json_view(value)),
{
    v[key] = value;
}

/// `serde_json::Value::Null`.
#[verifier::external_body]
pub(crate) fn null() -> (r: serde_json::Value)
    ensures
        json_view(r) == JsonView::Null,
{
    serde_json::Value::Null
}

/// The `From<&str>` impl of `serde_json::Value`: a string.
#[verifier::external_body]
pub(crate) fn text(s: &str) -> (r: serde_json::Value)
    ensures
        json_view(r) == JsonView::Text(s@),
{
    serde_json::Value::from(s)
}

/// The `From<u64>` impl of `serde_json::Value`: an integer.
#[verifier::external_body]
pub(crate) fn number(n: u64) -> (r: serde_json::Value)
    ensures
        json_view(r) == JsonView::Int(n as int),
{
    serde_json::Value::from(n)
}

/// The `From<bool>` impl of `serde_json::Value`: a boolean.
#[verifier::external_body]
pub(crate) fn boolean(b: bool) -> (r: serde_json::Value)
    ensures
        json_view(r) == JsonView::Bool(b),
{
    serde_json::Value::from(b)
}

/// The `From<Vec<serde_json::Value>>` impl of `serde_json::Value`: an array.
#[verifier::external_body]
pub(crate) fn list(items: Vec<serde_json::Value>) -> (r: serde_json::Value)
    ensures
        json_view(r) == JsonView::List(json_views(items@)),
{
    serde_json::Value::from(items)
}

/// The compact text that `serde_json` writes of a value.
pub uninterp spec fn json_text(v: JsonView) -> Seq<char>;

/// The `Display` impl of `serde_json::Value`: the value's compact text, which
/// depends on what the value holds alone.
#[verifier::external_body]
pub(crate) fn render(v: &serde_json::Value) -> (r: String)
    ensures
        r@ == json_text(json_view(*v)),
{
    v.to_string()
}

/// What `serde_json` reads in a text: the value, or the text of its error.
pub uninterp spec fn json_read(s: Seq<char>) -> Result<JsonView, Seq<char>>;

/// `serde_json::from_str` into a `serde_json::Value`; an error is given by its
/// text.
#[verifier::external_body]
pub(crate) fn parse(s: &str) -> (r: Result<serde_json::Value, String>)
    ensures
        match r {
            Ok(v) => json_read(s@) == Ok::<JsonView, Seq<char>>(json_view(v)),
            Err(e) => json_read(s@) == Err::<JsonView, Seq<char>>(e@),
        },
{
    serde_json::from_str(s).map_err(|e: serde_json::Error| e.to_string())
}

} // verus!
