//! JSON objects whose values are flags, numbers, text and lists.
use vstd::prelude::*;
use vstd::string::*;

use crate::text::decimal;

verus! {

/// What an entry of an object can be set to.
#[derive(Debug)]
pub enum JsonValue {
    Flag(bool),
    Count(u64),
    Text(String),
    List(Vec<serde_json::Value>),
}

/// A JSON value, as text.
pub enum JsonView {
    Flag(bool),
    Count(nat),
    Text(Seq<char>),
    /// Anything else, by its JSON.
    Other(Seq<char>),
}

impl View for JsonValue {
    type V = JsonView;

    open spec fn view(&self) -> JsonView {
        match self {
            JsonValue::Flag(b) => JsonView::Flag(*b),
            JsonValue::Count(n) => JsonView::Count(*n as nat),
            JsonValue::Text(s) => JsonView::Text(s@),
            JsonValue::List(list) => JsonView::Other(list_text(list@)),
        }
    }
}

// ---------------------------------------------------------------------------
// JSON text
// ---------------------------------------------------------------------------

/// The lower-case hexadecimal digit of `d`.
pub open spec fn hex_digit(d: nat) -> char {
    if d < 10 {
        (48 + d) as char
    } else {
        (87 + d) as char
    }
}

/// A character as it stands in a JSON string: the quote, the backslash and the
/// control characters of ASCII are escaped.
pub open spec fn json_char(c: char) -> Seq<char> {
    if c == '"' || c == '\\' {
        seq!['\\', c]
    } else if c as u32 == 0x08 {
        seq!['\\', 'b']
    } else if c as u32 == 0x09 {
        seq!['\\', 't']
    } else if c as u32 == 0x0a {
        seq!['\\', 'n']
    } else if c as u32 == 0x0c {
        seq!['\\', 'f']
    } else if c as u32 == 0x0d {
        seq!['\\', 'r']
    } else if (c as u32) < 0x20 {
        seq!['\\', 'u', '0', '0', hex_digit(c as nat / 16), hex_digit(c as nat % 16)]
    } else {
        seq![c]
    }
}

/// Text as it stands between the quotes of a JSON string.
pub open spec fn json_chars(s: Seq<char>) -> Seq<char>
    decreases s.len(),
{
    if s.len() == 0 {
        Seq::empty()
    } else {
        json_chars(s.drop_last()) + json_char(s.last())
    }
}

/// Text as a JSON string.
pub open spec fn json_string(s: Seq<char>) -> Seq<char> {
    seq!['"'] + json_chars(s) + seq!['"']
}

/// A value as JSON.
pub open spec fn value_text(value: JsonView) -> Seq<char> {
    match value {
        JsonView::Flag(true) => "true"@,
        JsonView::Flag(false) => "false"@,
        JsonView::Count(n) => decimal(n),
        JsonView::Text(s) => json_string(s),
        JsonView::Other(json) => json,
    }
}

/// An entry of an object as JSON.
pub open spec fn entry_text(entry: (Seq<char>, JsonView)) -> Seq<char> {
    json_string(entry.0) + seq![':'] + value_text(entry.1)
}

/// The entries of an object as JSON, with a comma between them.
pub open spec fn entries_text(entries: Seq<(Seq<char>, JsonView)>) -> Seq<char>
    decreases entries.len(),
{
    if entries.len() == 0 {
        Seq::empty()
    } else if entries.len() == 1 {
        entry_text(entries[0])
    } else {
        entries_text(entries.drop_last()) + seq![','] + entry_text(entries.last())
    }
}

/// An object as JSON, without white space.
pub open spec fn object_text(entries: Seq<(Seq<char>, JsonView)>) -> Seq<char> {
    seq!['{'] + entries_text(entries) + seq!['}']
}

// ---------------------------------------------------------------------------
// Objects
// ---------------------------------------------------------------------------

/// Declares `serde_json::Value`.
#[verifier::external_type_specification]
#[verifier::external_body]
pub struct ExValue(serde_json::Value);

/// Declares `serde_json::Map`.
#[verifier::external_type_specification]
#[verifier::external_body]
#[verifier::reject_recursive_types(K)]
#[verifier::reject_recursive_types(V)]
pub struct ExMap<K, V>(serde_json::Map<K, V>);

/// The entries of a map, in the order in which it is walked. A value that is no
/// flag, no number that a `u64` holds and no text stands there by its JSON.
pub uninterp spec fn entries_of(map: serde_json::Map<String, serde_json::Value>) -> Seq<
    (Seq<char>, JsonView),
>;

/// `entries` with `key` standing for `value`: in the place that it has, or else
/// behind the others.
pub open spec fn with_entry(
    entries: Seq<(Seq<char>, JsonView)>,
    key: Seq<char>,
    value: JsonView,
) -> Seq<(Seq<char>, JsonView)> {
    if exists|i: int| 0 <= i < entries.len() && (#[trigger] entries[i]).0 == key {
        entries.map_values(
            |e: (Seq<char>, JsonView)|
                if e.0 == key {
                    (key, value)
                } else {
                    e
                },
        )
    } else {
        entries.push((key, value))
    }
}

/// What `to_string` makes of a `serde_json::Value`: its JSON, without white space.
pub uninterp spec fn value_json(value: serde_json::Value) -> Seq<char>;

/// Pieces of JSON with a comma between them.
pub open spec fn joined_json(pieces: Seq<Seq<char>>) -> Seq<char>
    decreases pieces.len(),
{
    if pieces.len() == 0 {
        Seq::empty()
    } else if pieces.len() == 1 {
        pieces[0]
    } else {
        joined_json(pieces.drop_last()) + seq![','] + pieces.last()
    }
}

/// An array as JSON, without white space, where `pieces` are its values as JSON.
pub open spec fn array_text(pieces: Seq<Seq<char>>) -> Seq<char> {
    seq!['['] + joined_json(pieces) + seq![']']
}

/// A list of values as JSON, without white space.
pub open spec fn list_text(list: Seq<serde_json::Value>) -> Seq<char> {
    array_text(list.map_values(|v: serde_json::Value| value_json(v)))
}

/// Calls `serde_json::Map::new`. Believed of it: the map is empty.
#[verifier::external_body]
fn map_new() -> (map: serde_json::Map<String, serde_json::Value>)
    ensures
        entries_of(map) == Seq::<(Seq<char>, JsonView)>::empty(),
{
    serde_json::Map::new()
}

/// Calls `serde_json::Map::insert`, built with the feature `preserve_order`.
/// Believed of it: a new key goes behind the others, a key that is there keeps its
/// place and gets the new value, and nothing else changes. The JSON of a list is that
/// of its values in their order, between brackets and with commas; of the JSON of
/// such a value nothing is said but that it depends on the value alone.
#[verifier::external_body]
fn map_insert(map: &mut serde_json::Map<String, serde_json::Value>, key: &str, value: JsonValue)
    ensures
        entries_of(*final(map)) == with_entry(entries_of(*old(map)), key@, value@),
        value matches JsonValue::List(list) ==> entries_of(*final(map)) == with_entry(
            entries_of(*old(map)),
            key@,
            JsonView::Other(array_text(list@.map_values(|v: serde_json::Value| value_json(v)))),
        ),
{
    let value = match value {
        JsonValue::Flag(b) => serde_json::Value::from(b),
        JsonValue::Count(n) => serde_json::Value::from(n),
        JsonValue::Text(s) => serde_json::Value::from(s),
        JsonValue::List(list) => serde_json::Value::from(list),
    };
    map.insert(key.to_string(), value);
}

/// Calls `to_string` on a `serde_json::Value` that is an object. Believed of it:
/// it writes the entries in their order as compact JSON.
#[verifier::external_body]
fn map_to_string(map: serde_json::Map<String, serde_json::Value>) -> (res: String)
    ensures
        res@ == object_text(entries_of(map)),
{
    serde_json::Value::Object(map).to_string()
}

/// A JSON object that is being put together.
#[derive(Debug)]
pub struct JsonObject {
    map: serde_json::Map<String, serde_json::Value>,
}

impl View for JsonObject {
    type V = Seq<(Seq<char>, JsonView)>;

    closed spec fn view(&self) -> Seq<(Seq<char>, JsonView)> {
        entries_of(self.map)
    }
}

impl JsonObject {
    /// An object without entries.
    pub fn new() -> (res: JsonObject)
        ensures
            res@ == Seq::<(Seq<char>, JsonView)>::empty(),
    {
        JsonObject { map: map_new() }
    }

    /// The object with `key` standing for `value`.
    fn with(self, key: &str, value: JsonValue) -> (res: JsonObject)
        ensures
            res@ == with_entry(self@, key@, value@),
    {
        let mut map = self.map;
        map_insert(&mut map, key, value);
        JsonObject { map }
    }

    /// The object with `key` standing for a flag.
    pub fn flag(self, key: &str, value: bool) -> (res: JsonObject)
        ensures
            res@ == with_entry(self@, key@, JsonView::Flag(value)),
    {
        self.with(key, JsonValue::Flag(value))
    }

    /// The object with `key` standing for a number.
    pub fn count(self, key: &str, value: u64) -> (res: JsonObject)
        ensures
            res@ == with_entry(self@, key@, JsonView::Count(value as nat)),
    {
        self.with(key, JsonValue::Count(value))
    }

    /// The object with `key` standing for text.
    pub fn text(self, key: &str, value: &str) -> (res: JsonObject)
        ensures
            res@ == with_entry(self@, key@, JsonView::Text(value@)),
    {
        self.with(key, JsonValue::Text(value.to_string()))
    }

    /// The object with `key` standing for a list.
    pub fn list(self, key: &str, values: Vec<serde_json::Value>) -> (res: JsonObject)
        ensures
            res@ == with_entry(self@, key@, JsonView::Other(list_text(values@))),
    {
        self.with(key, JsonValue::List(values))
    }

    /// The object as JSON.
    pub fn to_json(self) -> (res: String)
        ensures
            res@ == object_text(self@),
    {
        map_to_string(self.map)
    }

    /// The object as a map.
    pub fn into_map(self) -> (res: serde_json::Map<String, serde_json::Value>)
        ensures
            entries_of(res) == self@,
    {
        self.map
    }
}

} // verus!
