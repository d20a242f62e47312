//! JSON text, read one level at a time.
//!
//! A value is carried as its JSON text. Reading a text gives a [`JsonNode`]:
//! its kind, its scalar, or its elements and members, each again as text.
use vstd::prelude::*;

verus! {

/// One level of a JSON value; nested values stay as their compact text.
#[derive(Debug)]
pub enum JsonNode {
    Null,
    Bool(bool),
    /// The number as serde_json writes it.
    Number(String),
    Str(String),
    Array(Vec<String>),
    Object(Vec<(String, String)>),
}

/// The mathematical model of a [`JsonNode`].
pub enum JsonNodeV {
    Null,
    Bool(bool),
    Number(Seq<char>),
    Str(Seq<char>),
    Array(Seq<Seq<char>>),
    Object(Seq<(Seq<char>, Seq<char>)>),
}

impl View for JsonNode {
    type V = JsonNodeV;

    open spec fn view(&self) -> JsonNodeV {
        match self {
            JsonNode::Null => JsonNodeV::Null,
            JsonNode::Bool(b) => JsonNodeV::Bool(*b),
            JsonNode::Number(n) => JsonNodeV::Number(n@),
            JsonNode::Str(s) => JsonNodeV::Str(s@),
            JsonNode::Array(a) => JsonNodeV::Array(a@.map_values(|e: String| e@)),
            JsonNode::Object(o) => JsonNodeV::Object(
                o@.map_values(|m: (String, String)| (m.0@, m.1@)),
            ),
        }
    }
}

/// What serde_json reads from a text: `None` when the text is not one JSON value.
pub uninterp spec fn json_node_of(text: Seq<char>) -> Option<JsonNodeV>;

/// A lower-case hexadecimal digit.
pub open spec fn hex_digit(d: nat) -> char {
    seq!['0', '1', '2', '3', '4', '5', '6', '7', '8', '9', 'a', 'b', 'c', 'd', 'e', 'f'][d as int]
}

/// How serde_json writes one character inside a string literal: the quote
/// and the backslash escaped, the control characters below U+0020 as their
/// short escape or as `\u00XX`, every other character as it is.
pub open spec fn escaped_char(c: char) -> Seq<char> {
    if c == '"' {
        seq!['\\', '"']
    } else if c == '\\' {
        seq!['\\', '\\']
    } else if c == '\u{8}' {
        seq!['\\', 'b']
    } else if c == '\t' {
        seq!['\\', 't']
    } else if c == '\n' {
        seq!['\\', 'n']
    } else if c == '\u{c}' {
        seq!['\\', 'f']
    } else if c == '\r' {
        seq!['\\', 'r']
    } else if (c as u32) < 0x20 {
        seq!['\\', 'u', '0', '0', hex_digit((c as u32 / 16) as nat), hex_digit((c as u32 % 16) as nat)]
    } else {
        seq![c]
    }
}

/// The characters of `s`, each written as [`escaped_char`] writes it.
pub open spec fn escaped(s: Seq<char>) -> Seq<char>
    decreases s.len(),
{
    if s.len() == 0 {
        Seq::empty()
    } else {
        escaped(s.drop_last()) + escaped_char(s.last())
    }
}

/// The JSON string literal that serde_json writes for `s`, quotes included.
pub open spec fn json_quoted(s: Seq<char>) -> Seq<char> {
    seq!['"'] + escaped(s) + seq!['"']
}

pub open spec fn node_view(n: Option<JsonNode>) -> Option<JsonNodeV> {
    match n {
        Some(v) => Some(v@),
        None => None,
    }
}

/// Relies on `serde_json::from_str` into a `serde_json::Value`, which gives the
/// value's kind and scalar; each element and member value is handed back as
/// its compact text (the `Display` of `serde_json::Value`).
#[verifier::external_body]
fn parse_node(text: &str) -> (r: Option<JsonNode>)
    ensures
        node_view(r) == json_node_of(text@),
{
    match serde_json::from_str::<serde_json::Value>(text) {
        Err(_) => None,
        Ok(serde_json::Value::Null) => Some(JsonNode::Null),
        Ok(serde_json::Value::Bool(b)) => Some(JsonNode::Bool(b)),
        Ok(serde_json::Value::Number(n)) => Some(JsonNode::Number(n.to_string())),
        Ok(serde_json::Value::String(s)) => Some(JsonNode::Str(s)),
        Ok(serde_json::Value::Array(a)) => Some(JsonNode::Array(a.iter().map(|e| e.to_string()).collect())),
        Ok(serde_json::Value::Object(o)) => Some(JsonNode::Object(o.into_iter().map(|(k, v)| (k, v.to_string())).collect())),
    }
}

/// Relies on `serde_json::to_string` on a `&str` (`format_escaped_str` with
/// the compact formatter): the string between quotes, escaped as
/// [`escaped_char`] says. Writing a string into memory cannot fail.
#[verifier::external_body]
fn quote_str(s: &str) -> (r: String)
    ensures
        r@ == json_quoted(s@),
{
    serde_json::to_string(s).unwrap_or_default()
}

/// Reads one level of `text`.
pub fn read(text: &str) -> (r: Option<JsonNode>)
    ensures
        node_view(r) == json_node_of(text@),
{
    parse_node(text)
}

/// The JSON string literal for `s`.
pub fn quote(s: &str) -> (r: String)
    ensures
        r@ == json_quoted(s@),
{
    quote_str(s)
}

/// The value of the last member named `key`, searching the members in order.
pub open spec fn find_member(ms: Seq<(Seq<char>, Seq<char>)>, key: Seq<char>) -> Option<Seq<char>>
    decreases ms.len(),
{
    if ms.len() == 0 {
        None
    } else if ms.last().0 == key {
        Some(ms.last().1)
    } else {
        find_member(ms.drop_last(), key)
    }
}

/// The text of member `key` of the object that `text` holds; `None` when
/// `text` is no object or has no such member.
pub open spec fn member_of(text: Seq<char>, key: Seq<char>) -> Option<Seq<char>> {
    match json_node_of(text) {
        Some(JsonNodeV::Object(ms)) => find_member(ms, key),
        _ => None,
    }
}

/// The string that `text` holds, if it holds one.
pub open spec fn str_of(text: Seq<char>) -> Option<Seq<char>> {
    match json_node_of(text) {
        Some(JsonNodeV::Str(s)) => Some(s),
        _ => None,
    }
}

/// Whether `text` is the JSON `null`.
pub open spec fn is_null_text(text: Seq<char>) -> bool {
    json_node_of(text) == Some(JsonNodeV::Null)
}

pub open spec fn opt_view(o: Option<String>) -> Option<Seq<char>> {
    match o {
        Some(s) => Some(s@),
        None => None,
    }
}

/// The text of member `key`, when `text` is an object that has one.
pub fn member(text: &str, key: &str) -> (r: Option<String>)
    ensures
        opt_view(r) == member_of(text@, key@),
{
    match parse_node(text) {
        Some(JsonNode::Object(ms)) => {
            let ghost mv = ms@.map_values(|m: (String, String)| (m.0@, m.1@));
            let k = String::from_str(key);
            let mut found: Option<String> = None;
            let mut i: usize = 0;
            while i < ms.len()
                invariant
                    0 <= i <= ms@.len(),
                    k@ == key@,
                    mv == ms@.map_values(|m: (String, String)| (m.0@, m.1@)),
                    opt_view(found) == find_member(mv.take(i as int), key@),
                decreases ms.len() - i,
            {
                assert(mv.take(i as int + 1).drop_last() =~= mv.take(i as int));
                assert(mv.take(i as int + 1).last() == (ms@[i as int].0@, ms@[i as int].1@));
                assert(find_member(mv.take(i as int + 1), key@) == if ms@[i as int].0@ == key@ {
                    Some(ms@[i as int].1@)
                } else {
                    find_member(mv.take(i as int), key@)
                });
                if ms[i].0 == k {
                    found = Some(ms[i].1.clone());
                }
                i = i + 1;
            }
            assert(mv.take(ms@.len() as int) =~= mv);
            found
        },
        _ => None,
    }
}

/// The string that `text` holds.
pub fn as_str(text: &str) -> (r: Option<String>)
    ensures
        opt_view(r) == str_of(text@),
{
    match parse_node(text) {
        Some(JsonNode::Str(s)) => Some(s),
        _ => None,
    }
}

/// Whether `text` is the JSON `null`.
pub fn is_null(text: &str) -> (r: bool)
    ensures
        r == is_null_text(text@),
{
    match parse_node(text) {
        Some(JsonNode::Null) => true,
        _ => false,
    }
}

/// The text of member `b` of member `a`.
pub open spec fn member2(text: Seq<char>, a: Seq<char>, b: Seq<char>) -> Option<Seq<char>> {
    match member_of(text, a) {
        Some(t) => member_of(t, b),
        None => None,
    }
}

/// The string that an optional member holds; empty when there is none.
pub open spec fn str_or_empty(m: Option<Seq<char>>) -> Seq<char> {
    match m {
        Some(t) => match str_of(t) {
            Some(s) => s,
            None => Seq::empty(),
        },
        None => Seq::empty(),
    }
}

/// The text of member `b` of member `a` of `text`.
pub fn member2_of(text: &str, a: &str, b: &str) -> (r: Option<String>)
    ensures
        match r {
            Some(s) => member2(text@, a@, b@) == Some(s@),
            None => member2(text@, a@, b@) is None,
        },
{
    match member(text, a) {
        Some(t) => member(t.as_str(), b),
        None => None,
    }
}

/// The string that an optional member holds; empty when there is none.
pub fn str_or_default(m: &Option<String>) -> (r: String)
    ensures
        r@ == str_or_empty(
            match m {
                Some(t) => Some(t@),
                None => None,
            },
        ),
{
    match m {
        Some(t) => match as_str(t.as_str()) {
            Some(s) => s,
            None => String::new(),
        },
        None => String::new(),
    }
}

} // verus!
