//! Raw objects as the disk service publishes them: for each interface of an
//! object a bag of named, loosely typed property values.
use vstd::prelude::*;
use vstd::hash_map::StringHashMap;
use crate::text::{decode_byte_string, trim_nul, utf8_text};

verus! {

/// One property value, held as what each way of reading it gives: as a
/// string, as a signed or unsigned integer, or as a list of values. A way of
/// reading that does not apply to the value is `None`.
#[derive(Debug, PartialEq, Eq)]
pub struct Value {
    pub text: Option<String>,
    pub signed: Option<i64>,
    pub unsigned: Option<u64>,
    pub items: Option<Vec<Value>>,
}

/// The properties of one interface, by property name.
pub type PropertyMap = Map<Seq<char>, Value>;

/// The interfaces of one object, by interface name.
pub type InterfaceMap = Map<Seq<char>, PropertyMap>;

/// The low eight bits of `n`.
pub open spec fn low_byte(n: u64) -> u8 {
    (n % 256) as u8
}

/// The string that `value` holds; an empty string counts as absent.
pub open spec fn string_of(value: Value) -> Option<Seq<char>> {
    match value.text {
        Some(s) => if s@.len() == 0 {
            None
        } else {
            Some(s@)
        },
        None => None,
    }
}

/// The truth value that `value` holds: any integer but zero is true.
pub open spec fn bool_of(value: Value) -> Option<bool> {
    match value.signed {
        Some(n) => Some(n != 0),
        None => None,
    }
}

/// The bytes among `items`, in order: each item that reads as an unsigned
/// integer gives its low byte, the others give nothing.
pub open spec fn bytes_of(items: Seq<Value>) -> Seq<u8>
    decreases items.len(),
{
    if items.len() == 0 {
        Seq::empty()
    } else {
        let before = bytes_of(items.drop_last());
        match items.last().unsigned {
            Some(n) => before.push(low_byte(n)),
            None => before,
        }
    }
}

/// The text of a byte string value: its bytes without one trailing NUL,
/// decoded as UTF-8. `None` if the value is no list or the bytes are no
/// UTF-8.
pub open spec fn byte_string_of(value: Value) -> Option<Seq<char>> {
    match value.items {
        Some(items) => utf8_text(trim_nul(bytes_of(items@))),
        None => None,
    }
}

/// The texts of those `items` that are byte strings, in order.
pub open spec fn texts_of(items: Seq<Value>) -> Seq<Seq<char>>
    decreases items.len(),
{
    if items.len() == 0 {
        Seq::empty()
    } else {
        let before = texts_of(items.drop_last());
        match byte_string_of(items.last()) {
            Some(text) => before.push(text),
            None => before,
        }
    }
}

/// The texts of a list of byte strings; items that do not decode are left
/// out, and a list that yields no text counts as absent.
pub open spec fn byte_strings_of(value: Value) -> Option<Seq<Seq<char>>> {
    match value.items {
        Some(items) => if texts_of(items@).len() > 0 {
            Some(texts_of(items@))
        } else {
            None
        },
        None => None,
    }
}

/// Reads a string property. An empty string counts as absent.
pub fn get_string(value: &Value) -> (text: Option<String>)
    ensures
        text.deep_view() == string_of(*value),
{
    match &value.text {
        Some(s) => if s.as_str().is_empty() {
            None
        } else {
            Some(s.clone())
        },
        None => None,
    }
}

/// Reads an unsigned integer property.
pub fn get_u64(value: &Value) -> (number: Option<u64>)
    ensures
        number == value.unsigned,
{
    value.unsigned
}

/// Reads a boolean property.
pub fn get_bool(value: &Value) -> (flag: Option<bool>)
    ensures
        flag == bool_of(*value),
{
    match value.signed {
        Some(n) => Some(n != 0),
        None => None,
    }
}

/// Collects the bytes among `items`.
fn collect_bytes(items: &Vec<Value>) -> (bytes: Vec<u8>)
    ensures
        bytes@ == bytes_of(items@),
{
    let mut bytes: Vec<u8> = Vec::new();
    let mut i: usize = 0;
    while i < items.len()
        invariant
            i <= items.len(),
            bytes@ == bytes_of(items@.take(i as int)),
        decreases items.len() - i,
    {
        assert(items@.take(i + 1).drop_last() =~= items@.take(i as int));
        match items[i].unsigned {
            Some(n) => {
                bytes.push((n % 256) as u8);
            },
            None => {},
        }
        i += 1;
    }
    assert(items@.take(items.len() as int) =~= items@);
    bytes
}

/// Reads a byte string property as text.
pub fn get_byte_string(value: &Value) -> (text: Option<String>)
    ensures
        text.deep_view() == byte_string_of(*value),
{
    match &value.items {
        Some(items) => decode_byte_string(collect_bytes(items)),
        None => None,
    }
}

/// Reads a property that lists byte strings.
pub fn get_byte_strings(value: &Value) -> (texts: Option<Vec<String>>)
    ensures
        texts.deep_view() == byte_strings_of(*value),
{
    match &value.items {
        Some(items) => {
            let mut hold: Vec<String> = Vec::new();
            let mut i: usize = 0;
            while i < items.len()
                invariant
                    i <= items.len(),
                    hold.deep_view() == texts_of(items@.take(i as int)),
                decreases items.len() - i,
            {
                assert(items@.take(i + 1).drop_last() =~= items@.take(i as int));
                match get_byte_string(&items[i]) {
                    Some(text) => {
                        hold.push(text);
                    },
                    None => {},
                }
                i += 1;
            }
            assert(items@.take(items.len() as int) =~= items@);
            if hold.len() > 0 {
                Some(hold)
            } else {
                None
            }
        },
        None => None,
    }
}

/// The properties of one interface of an object.
pub struct Properties {
    entries: StringHashMap<Value>,
}

impl View for Properties {
    type V = PropertyMap;

    closed spec fn view(&self) -> PropertyMap {
        self.entries@
    }
}

impl Properties {
    /// No properties.
    pub fn new() -> (properties: Properties)
        ensures
            properties@ == PropertyMap::empty(),
    {
        Properties { entries: StringHashMap::new() }
    }

    /// Sets the property `name` to `value`, replacing an earlier value.
    pub fn insert(&mut self, name: String, value: Value)
        ensures
            final(self)@ == old(self)@.insert(name@, value),
    {
        self.entries.insert(name, value);
    }

    /// The value of the property `name`, if it is set.
    pub fn get(&self, name: &str) -> (value: Option<&Value>)
        ensures
            value is Some <==> self@.contains_key(name@),
            value matches Some(v) ==> *v == self@[name@],
    {
        self.entries.get(name)
    }
}

/// The interfaces of one object, each with its properties.
pub struct Interfaces {
    entries: StringHashMap<Properties>,
}

impl View for Interfaces {
    type V = InterfaceMap;

    closed spec fn view(&self) -> InterfaceMap {
        self.entries@.map_values(|p: Properties| p@)
    }
}

impl Interfaces {
    /// No interfaces.
    pub fn new() -> (interfaces: Interfaces)
        ensures
            interfaces@ == InterfaceMap::empty(),
    {
        let interfaces = Interfaces { entries: StringHashMap::new() };
        interfaces
    }

    /// Adds the interface `name` with `properties`, replacing an earlier one
    /// of that name.
    pub fn insert(&mut self, name: String, properties: Properties)
        ensures
            final(self)@ == old(self)@.insert(name@, properties@),
    {
        self.entries.insert(name, properties);
    }

    /// The properties of the interface `name`, if the object has it.
    pub fn get(&self, name: &str) -> (properties: Option<&Properties>)
        ensures
            properties is Some <==> self@.contains_key(name@),
            properties matches Some(p) ==> p@ == self@[name@],
    {
        self.entries.get(name)
    }
}

} // verus!
