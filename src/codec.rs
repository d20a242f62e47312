//! The wire codec: command envelopes out, responses and events in.
use vstd::prelude::*;

use crate::commands::{CDPCommand, CommandV};
use crate::json::{as_str, is_null, is_null_text, json_node_of, json_quoted, member, member_of, quote, read, str_of, JsonNode, JsonNodeV};

verus! {

pub open spec fn digit_char(d: nat) -> char {
    seq!['0', '1', '2', '3', '4', '5', '6', '7', '8', '9'][d as int]
}

/// The decimal digits of `n`.
pub open spec fn decimal_text(n: nat) -> Seq<char>
    decreases n,
{
    if n < 10 {
        seq![digit_char(n)]
    } else {
        decimal_text(n / 10).push(digit_char(n % 10))
    }
}

/// Relies on `String::push`: the character is appended.
#[verifier::external_body]
fn push_char(s: &mut String, c: char)
    ensures
        final(s)@ == old(s)@.push(c),
{
    s.push(c);
}

/// The decimal digits of `n`.
pub fn decimal(n: u64) -> (r: String)
    ensures
        r@ == decimal_text(n as nat),
    decreases n,
{
    let digits: Vec<char> = vec!['0', '1', '2', '3', '4', '5', '6', '7', '8', '9'];
    assert(digits@ == seq!['0', '1', '2', '3', '4', '5', '6', '7', '8', '9']);
    if n < 10 {
        let mut r = String::new();
        push_char(&mut r, digits[n as usize]);
        assert(r@ =~= seq![digit_char(n as nat)]);
        r
    } else {
        let mut r = decimal(n / 10);
        push_char(&mut r, digits[(n % 10) as usize]);
        r
    }
}

/// The text of a command envelope: `params` is left out when it is `null`,
/// `sessionId` when there is none.
pub open spec fn envelope_text(id: nat, cmd: CommandV) -> Seq<char> {
    "{\"id\":"@ + decimal_text(id) + ",\"method\":"@ + json_quoted(cmd.method) + (if is_null_text(
        cmd.params,
    ) {
        Seq::empty()
    } else {
        ",\"params\":"@ + cmd.params
    }) + match cmd.session_id {
        Some(s) => ",\"sessionId\":"@ + json_quoted(s),
        None => Seq::empty(),
    } + "}"@
}

/// Writes the envelope that carries `cmd` under the identifier `id`.
pub fn encode_command(id: u64, cmd: &CDPCommand) -> (r: String)
    ensures
        r@ == envelope_text(id as nat, cmd@),
{
    let mut r = String::from_str("{\"id\":");
    let d = decimal(id);
    r.append(d.as_str());
    r.append(",\"method\":");
    let m = quote(cmd.method.as_str());
    r.append(m.as_str());
    if !is_null(cmd.params.as_str()) {
        r.append(",\"params\":");
        r.append(cmd.params.as_str());
    }
    if let Some(s) = &cmd.session_id {
        r.append(",\"sessionId\":");
        let q = quote(s.as_str());
        r.append(q.as_str());
    }
    r.append("}");
    r
}

/// An optional string member: absent and `null` give `Some(None)`, a string
/// gives it, anything else is malformed (`None`).
pub open spec fn opt_str_member(text: Seq<char>, key: Seq<char>) -> Option<Option<Seq<char>>> {
    match member_of(text, key) {
        None => Some(None),
        Some(m) => if is_null_text(m) {
            Some(None)
        } else {
            match str_of(m) {
                Some(s) => Some(Some(s)),
                None => None,
            }
        },
    }
}

/// An optional boolean member, read as [`opt_str_member`] reads a string.
pub open spec fn opt_bool_member(text: Seq<char>, key: Seq<char>) -> Option<Option<bool>> {
    match member_of(text, key) {
        None => Some(None),
        Some(m) => match json_node_of(m) {
            Some(JsonNodeV::Null) => Some(None),
            Some(JsonNodeV::Bool(b)) => Some(Some(b)),
            _ => None,
        },
    }
}

/// The event that a frame holds: its `method` must be a string; absent
/// `params` read as `null`; `sessionId` and `seen` are optional; other
/// members are ignored.
pub open spec fn event_of(text: Seq<char>) -> Option<CommandV> {
    match (member_of(text, "method"@), opt_str_member(text, "sessionId"@), opt_bool_member(text, "seen"@)) {
        (Some(m), Some(session_id), Some(seen)) => match str_of(m) {
            Some(method) => Some(CommandV {
                method,
                params: match member_of(text, "params"@) {
                    Some(p) => p,
                    None => "null"@,
                },
                session_id,
                seen,
            }),
            None => None,
        },
        _ => None,
    }
}

fn opt_str_field(text: &str, key: &str) -> (r: Option<Option<String>>)
    ensures
        match r {
            None => opt_str_member(text@, key@) is None,
            Some(None) => opt_str_member(text@, key@) == Some(None::<Seq<char>>),
            Some(Some(s)) => opt_str_member(text@, key@) == Some(Some(s@)),
        },
{
    match member(text, key) {
        None => Some(None),
        Some(m) => if is_null(m.as_str()) {
            Some(None)
        } else {
            match as_str(m.as_str()) {
                Some(s) => Some(Some(s)),
                None => None,
            }
        },
    }
}

fn opt_bool_field(text: &str, key: &str) -> (r: Option<Option<bool>>)
    ensures
        r == opt_bool_member(text@, key@),
{
    match member(text, key) {
        None => Some(None),
        Some(m) => match read(m.as_str()) {
            Some(JsonNode::Null) => Some(None),
            Some(JsonNode::Bool(b)) => Some(Some(b)),
            _ => None,
        },
    }
}

/// Reads the event that a frame holds.
pub fn decode_event(text: &str) -> (r: Option<CDPCommand>)
    ensures
        match r {
            Some(c) => event_of(text@) == Some(c@),
            None => event_of(text@) is None,
        },
{
    let m = member(text, "method");
    let session_id = opt_str_field(text, "sessionId");
    let seen = opt_bool_field(text, "seen");
    match (m, session_id, seen) {
        (Some(m), Some(session_id), Some(seen)) => match as_str(m.as_str()) {
            Some(method) => {
                let params = match member(text, "params") {
                    Some(p) => p,
                    None => String::from_str("null"),
                };
                Some(CDPCommand { method, params, session_id, seen })
            },
            None => None,
        },
        _ => None,
    }
}

/// What an inbound frame is.
pub enum Inbound {
    /// A frame without an `id` (or with a `null` one).
    Event(CDPCommand),
    /// A frame with an `id`: the id's text, and the whole frame.
    Response(String, String),
}

/// Whether a frame is an event: it has no `id` member, or a `null` one.
pub open spec fn is_event_frame(text: Seq<char>) -> bool {
    match member_of(text, "id"@) {
        None => true,
        Some(id) => is_null_text(id),
    }
}

/// Sorts an inbound frame. An event that cannot be read is an error, and so
/// is not kept.
pub fn classify(text: &str) -> (r: Option<Inbound>)
    ensures
        is_event_frame(text@) ==> match r {
            Some(Inbound::Event(c)) => event_of(text@) == Some(c@),
            Some(Inbound::Response(_, _)) => false,
            None => event_of(text@) is None,
        },
        !is_event_frame(text@) ==> match r {
            Some(Inbound::Response(key, frame)) => member_of(text@, "id"@) == Some(key@)
                && frame@ == text@,
            _ => false,
        },
{
    match member(text, "id") {
        Some(id) => {
            if !is_null(id.as_str()) {
                return Some(Inbound::Response(id, String::from_str(text)));
            }
        },
        None => {},
    }
    match decode_event(text) {
        Some(c) => Some(Inbound::Event(c)),
        None => None,
    }
}

} // verus!
