//! The protocol client: identifiers, the response table and the event log.
//!
//! A `Cdp` is the state that the socket pump and the callers share. The pump
//! hands it every inbound frame ([`Cdp::ingest`]); a caller takes an
//! envelope to write from [`Cdp::send`], then polls [`Cdp::take_response`]
//! until a response is there or [`send_timed_out`] says to give up.
use vstd::prelude::*;

use crate::codec::{classify, decimal, decimal_text, digit_char, encode_command, envelope_text, event_of, is_event_frame, Inbound};
use crate::commands::{CDPCommand, CommandV};
use crate::error::{cdp_error, CrowserError, ErrorV};
use crate::json::member_of;

verus! {

/// The model of a [`Cdp`].
pub struct CdpV {
    /// The last identifier handed out; 0 before the first command.
    pub last_id: nat,
    /// Responses not yet taken: the text of the `id`, and the whole frame.
    pub responses: Seq<(Seq<char>, Seq<char>)>,
    /// Every event read, in order of arrival.
    pub events: Seq<CommandV>,
    /// Why the connection ended, once it has.
    pub closed: Option<Seq<char>>,
}

/// The state of one connection.
pub struct Cdp {
    cmd_id: u64,
    responses: Vec<(String, String)>,
    events: Vec<CDPCommand>,
    closed: Option<String>,
}

impl View for Cdp {
    type V = CdpV;

    closed spec fn view(&self) -> CdpV {
        CdpV {
            last_id: self.cmd_id as nat,
            responses: self.responses@.map_values(|e: (String, String)| (e.0@, e.1@)),
            events: self.events@.map_values(|c: CDPCommand| c@),
            closed: match self.closed {
                Some(m) => Some(m@),
                None => None,
            },
        }
    }
}

/// Each stored response is filed under the text of its own `id`.
pub open spec fn table_wf(t: Seq<(Seq<char>, Seq<char>)>) -> bool {
    forall|i: int| 0 <= i < t.len() ==> member_of(#[trigger] t[i].1, "id"@) == Some(t[i].0)
}

/// No two entries of the table are filed under the same key.
pub open spec fn keys_unique(t: Seq<(Seq<char>, Seq<char>)>) -> bool {
    forall|i: int, j: int|
        0 <= i < t.len() && 0 <= j < t.len() && #[trigger] t[i].0 == #[trigger] t[j].0 ==> i == j
}

/// The table after filing `frame` under `key`: a response under a key that
/// is there already replaces the one it had, as in a map.
pub open spec fn table_put(t: Seq<(Seq<char>, Seq<char>)>, key: Seq<char>, frame: Seq<char>) -> Seq<(Seq<char>, Seq<char>)> {
    if has_key(t, key) {
        t.update(choose|i: int| 0 <= i < t.len() && #[trigger] t[i].0 == key, (key, frame))
    } else {
        t.push((key, frame))
    }
}

/// `i` is the first entry of the table filed under `key`.
pub open spec fn first_with_key(t: Seq<(Seq<char>, Seq<char>)>, key: Seq<char>, i: int) -> bool {
    &&& 0 <= i < t.len()
    &&& t[i].0 == key
    &&& forall|j: int| 0 <= j < i ==> #[trigger] t[j].0 != key
}

pub open spec fn has_key(t: Seq<(Seq<char>, Seq<char>)>, key: Seq<char>) -> bool {
    exists|i: int| 0 <= i < t.len() && #[trigger] t[i].0 == key
}

/// `i` is the first event named `name` that no waiter has seen.
pub open spec fn first_unseen(log: Seq<CommandV>, name: Seq<char>, i: int) -> bool {
    &&& 0 <= i < log.len()
    &&& log[i].method == name
    &&& log[i].seen != Some(true)
    &&& forall|j: int|
        0 <= j < i ==> !(#[trigger] log[j].method == name && log[j].seen != Some(true))
}

pub open spec fn has_unseen(log: Seq<CommandV>, name: Seq<char>) -> bool {
    exists|i: int| 0 <= i < log.len() && #[trigger] log[i].method == name && log[i].seen != Some(true)
}

/// The log with event `i` marked as seen.
pub open spec fn mark_seen(log: Seq<CommandV>, i: int) -> Seq<CommandV> {
    log.update(i, CommandV { seen: Some(true), ..log[i] })
}

/// `i` is the last event named `name`.
pub open spec fn last_named(log: Seq<CommandV>, name: Seq<char>, i: int) -> bool {
    &&& 0 <= i < log.len()
    &&& log[i].method == name
    &&& forall|j: int| i < j < log.len() ==> #[trigger] log[j].method != name
}

/// The error of a connection that ended for `reason`.
pub open spec fn closed_error(reason: Seq<char>) -> ErrorV {
    ErrorV::CDPError("Connection closed: "@ + reason)
}

fn connection_closed(reason: &String) -> (r: CrowserError)
    ensures
        r@ == closed_error(reason@),
{
    let mut m = String::from_str("Connection closed: ");
    m.append(reason.as_str());
    CrowserError::CDPError(m)
}

fn position(t: &Vec<(String, String)>, key: &String) -> (r: Option<usize>)
    ensures
        match r {
            Some(i) => i < t@.len() && t@[i as int].0@ == key@,
            None => !has_key(t@.map_values(|e: (String, String)| (e.0@, e.1@)), key@),
        },
{
    let ghost v = t@.map_values(|e: (String, String)| (e.0@, e.1@));
    let mut i: usize = 0;
    while i < t.len()
        invariant
            0 <= i <= t@.len(),
            v == t@.map_values(|e: (String, String)| (e.0@, e.1@)),
            forall|j: int| 0 <= j < i ==> #[trigger] v[j].0 != key@,
        decreases t.len() - i,
    {
        if t[i].0 == *key {
            return Some(i);
        }
        i = i + 1;
    }
    None
}

impl Cdp {
    /// Each response is filed under the text of its own `id`, and under a
    /// key of its own.
    pub open spec fn wf(&self) -> bool {
        table_wf(self@.responses) && keys_unique(self@.responses)
    }

    /// A connection with no command sent and nothing read.
    pub fn new() -> (r: Cdp)
        ensures
            r.wf(),
            r@.last_id == 0,
            r@.responses == Seq::<(Seq<char>, Seq<char>)>::empty(),
            r@.events == Seq::<CommandV>::empty(),
            r@.closed is None,
    {
        let r = Cdp { cmd_id: 0, responses: Vec::new(), events: Vec::new(), closed: None };
        assert(r@.responses =~= Seq::<(Seq<char>, Seq<char>)>::empty());
        assert(r@.events =~= Seq::<CommandV>::empty());
        r
    }

    /// Hands out the next identifier and writes the envelope for `cmd`.
    /// Fails when the connection has ended, or the identifiers are used up.
    pub fn send(&mut self, cmd: CDPCommand) -> (r: Result<(u64, String), CrowserError>)
        requires
            old(self).wf(),
        ensures
            final(self).wf(),
            final(self)@.responses == old(self)@.responses,
            final(self)@.events == old(self)@.events,
            final(self)@.closed == old(self)@.closed,
            old(self)@.closed is Some ==> final(self)@ == old(self)@ && r is Err
                && r->Err_0@ == closed_error(old(self)@.closed->Some_0),
            old(self)@.closed is None && old(self)@.last_id < u64::MAX ==> match r {
                Ok((id, frame)) => id == old(self)@.last_id + 1 && final(self)@.last_id == id
                    && frame@ == envelope_text(id as nat, cmd@),
                Err(_) => false,
            },
            old(self)@.closed is None && old(self)@.last_id == u64::MAX ==> final(self)@
                == old(self)@ && r is Err
                && r->Err_0@ == ErrorV::CDPError("Command identifiers are used up"@),
    {
        if let Some(reason) = &self.closed {
            return Err(connection_closed(reason));
        }
        if self.cmd_id == u64::MAX {
            return Err(cdp_error("Command identifiers are used up"));
        }
        let id = self.cmd_id + 1;
        let frame = encode_command(id, &cmd);
        self.cmd_id = id;
        Ok((id, frame))
    }

    /// Files an inbound frame: one without an `id` goes to the event log,
    /// one with an `id` to the response table. Gives `false` for an event
    /// that cannot be read; it is dropped.
    pub fn ingest(&mut self, frame: &str) -> (r: bool)
        requires
            old(self).wf(),
        ensures
            final(self).wf(),
            final(self)@.last_id == old(self)@.last_id,
            final(self)@.closed == old(self)@.closed,
            is_event_frame(frame@) ==> final(self)@.responses == old(self)@.responses && match event_of(frame@) {
                Some(e) => r && final(self)@.events == old(self)@.events.push(e),
                None => !r && final(self)@.events == old(self)@.events,
            },
            !is_event_frame(frame@) ==> r && final(self)@.events == old(self)@.events
                && final(self)@.responses == table_put(
                old(self)@.responses,
                member_of(frame@, "id"@)->Some_0,
                frame@,
            ),
    {
        match classify(frame) {
            Some(Inbound::Event(c)) => {
                self.events.push(c);
                assert(self@.events =~= old(self)@.events.push(c@));
                assert(self@.responses =~= old(self)@.responses);
                true
            },
            Some(Inbound::Response(key, text)) => {
                let ghost k = key@;
                let ghost f = text@;
                let ghost t = old(self)@.responses;
                let found = position(&self.responses, &key);
                if let Some(i) = found {
                    proof {
                        assert(t[i as int].0 == self.responses@[i as int].0@);
                        assert(t[i as int].0 == k);
                        assert(has_key(t, k));
                        let c = choose|c: int| 0 <= c < t.len() && #[trigger] t[c].0 == k;
                        assert(c == i);
                    }
                    self.responses.set(i, (key, text));
                    assert(self@.responses =~= t.update(i as int, (k, f)));
                    assert(keys_unique(self@.responses)) by {
                        assert forall|a: int, b: int|
                            0 <= a < self@.responses.len() && 0 <= b < self@.responses.len()
                                && #[trigger] self@.responses[a].0 == #[trigger] self@.responses[b].0 implies a
                            == b by {
                            if a != i && b != i {
                                assert(t[a].0 == t[b].0);
                            } else if a == i && b != i {
                                assert(t[b].0 == t[a].0);
                            } else if b == i && a != i {
                                assert(t[a].0 == t[b].0);
                            }
                        }
                    }
                } else {
                    assert(!has_key(t, k));
                    self.responses.push((key, text));
                    assert(self@.responses =~= t.push((k, f)));
                }
                assert(self@.events =~= old(self)@.events);
                true
            },
            None => false,
        }
    }

    /// Takes the response to command `id` out of the table, if it came.
    pub fn take_response(&mut self, id: u64) -> (r: Option<String>)
        requires
            old(self).wf(),
        ensures
            final(self).wf(),
            final(self)@.last_id == old(self)@.last_id,
            final(self)@.closed == old(self)@.closed,
            final(self)@.events == old(self)@.events,
            match r {
                Some(f) => member_of(f@, "id"@) == Some(decimal_text(id as nat)) && exists|i: int|
                    first_with_key(old(self)@.responses, decimal_text(id as nat), i) && f@
                        == old(self)@.responses[i].1 && final(self)@.responses
                        == old(self)@.responses.remove(i),
                None => !has_key(old(self)@.responses, decimal_text(id as nat))
                    && final(self)@.responses == old(self)@.responses,
            },
    {
        let key = decimal(id);
        let ghost t = old(self)@.responses;
        let mut i: usize = 0;
        while i < self.responses.len()
            invariant
                0 <= i <= self.responses@.len(),
                self@ == old(self)@,
                self.wf(),
                t == old(self)@.responses,
                key@ == decimal_text(id as nat),
                forall|j: int| 0 <= j < i ==> #[trigger] t[j].0 != key@,
            decreases self.responses.len() - i,
        {
            if self.responses[i].0 == key {
                assert(first_with_key(t, key@, i as int));
                assert(member_of(t[i as int].1, "id"@) == Some(t[i as int].0));
                let (_, frame) = self.responses.remove(i);
                assert(self@.responses =~= t.remove(i as int));
                assert(keys_unique(self@.responses)) by {
                    assert forall|a: int, b: int|
                        0 <= a < self@.responses.len() && 0 <= b < self@.responses.len()
                            && #[trigger] self@.responses[a].0 == #[trigger] self@.responses[b].0 implies a == b by {
                        let a2 = if a < i { a } else { a + 1 };
                        let b2 = if b < i { b } else { b + 1 };
                        assert(self@.responses[a] == t[a2]);
                        assert(self@.responses[b] == t[b2]);
                    }
                }
                assert(table_wf(self@.responses)) by {
                    assert forall|j: int| 0 <= j < self@.responses.len() implies member_of(
                        #[trigger] self@.responses[j].1,
                        "id"@,
                    ) == Some(self@.responses[j].0) by {
                        if j < i {
                            assert(self@.responses[j] == t[j]);
                        } else {
                            assert(self@.responses[j] == t[j + 1]);
                        }
                    }
                }
                return Some(frame);
            }
            i = i + 1;
        }
        assert(!has_key(t, key@));
        None
    }

    /// Records that the connection ended, and why. What was read stays.
    pub fn close(&mut self, reason: &str)
        requires
            old(self).wf(),
        ensures
            final(self).wf(),
            final(self)@ == (CdpV { closed: Some(reason@), ..old(self)@ }),
    {
        self.closed = Some(String::from_str(reason));
    }

    /// The error that a caller still waiting on this connection gets, once
    /// the connection has ended.
    pub fn connection_error(&self) -> (r: Option<CrowserError>)
        ensures
            match self@.closed {
                Some(m) => r is Some && r->Some_0@ == closed_error(m),
                None => r is None,
            },
    {
        match &self.closed {
            Some(reason) => Some(connection_closed(reason)),
            None => None,
        }
    }

    /// The event log, in order of arrival.
    pub fn events(&self) -> (r: &Vec<CDPCommand>)
        ensures
            r@.map_values(|c: CDPCommand| c@) == self@.events,
    {
        &self.events
    }

    /// The most recent event named `name`.
    pub fn last_event_by_name(&self, name: &str) -> (r: Option<CDPCommand>)
        ensures
            match r {
                Some(c) => exists|i: int| last_named(self@.events, name@, i) && c@ == self@.events[i],
                None => forall|i: int|
                    0 <= i < self@.events.len() ==> #[trigger] self@.events[i].method != name@,
            },
    {
        let n = String::from_str(name);
        let ghost log = self@.events;
        let mut i: usize = self.events.len();
        while i > 0
            invariant
                0 <= i <= self.events@.len(),
                log == self@.events,
                n@ == name@,
                forall|j: int| i <= j < log.len() ==> #[trigger] log[j].method != name@,
            decreases i,
        {
            i = i - 1;
            if self.events[i].method == n {
                let c = self.events[i].duplicate();
                assert(last_named(log, name@, i as int));
                return Some(c);
            }
        }
        None
    }

    /// Hands the first unseen event named `name` to one waiter: it is marked
    /// as seen in the log, so no later call hands it out again.
    pub fn wait_for_event(&mut self, name: &str) -> (r: Option<CDPCommand>)
        requires
            old(self).wf(),
        ensures
            final(self).wf(),
            final(self)@.last_id == old(self)@.last_id,
            final(self)@.closed == old(self)@.closed,
            final(self)@.responses == old(self)@.responses,
            match r {
                Some(c) => exists|i: int|
                    first_unseen(old(self)@.events, name@, i) && final(self)@.events == mark_seen(
                        old(self)@.events,
                        i,
                    ) && c@ == final(self)@.events[i],
                None => !has_unseen(old(self)@.events, name@)
                    && final(self)@.events == old(self)@.events,
            },
    {
        let n = String::from_str(name);
        let ghost log = old(self)@.events;
        let mut i: usize = 0;
        while i < self.events.len()
            invariant
                0 <= i <= self.events@.len(),
                self@ == old(self)@,
                self.wf(),
                log == self@.events,
                n@ == name@,
                forall|j: int|
                    0 <= j < i ==> !(#[trigger] log[j].method == name@ && log[j].seen != Some(true)),
            decreases self.events.len() - i,
        {
            let unseen = match self.events[i].seen {
                Some(true) => false,
                _ => true,
            };
            if self.events[i].method == n && unseen {
                assert(first_unseen(log, name@, i as int));
                let mut c = self.events[i].duplicate();
                c.seen = Some(true);
                let c2 = c.duplicate();
                self.events.set(i, c);
                assert(self@.events =~= mark_seen(log, i as int));
                return Some(c2);
            }
            i = i + 1;
        }
        assert(!has_unseen(log, name@));
        None
    }
}

/// The wait for a response, with no timeout given, lasts this long.
pub const DEFAULT_TIMEOUT_MS: u64 = 1000;

/// Whether a caller waiting for a response should give up: more time has
/// passed than the timeout (by default one second).
pub fn send_timed_out(elapsed_ms: u64, timeout_ms: Option<u64>) -> (r: bool)
    ensures
        r == (elapsed_ms > match timeout_ms {
            Some(t) => t,
            None => DEFAULT_TIMEOUT_MS,
        }),
{
    let t = match timeout_ms {
        Some(t) => t,
        None => DEFAULT_TIMEOUT_MS,
    };
    elapsed_ms > t
}

/// Whether a caller waiting for an event should give up. A timeout of zero
/// waits forever; none given means one second.
pub fn event_wait_timed_out(elapsed_ms: u64, timeout_ms: Option<u64>) -> (r: bool)
    ensures
        r == ({
            let t = match timeout_ms {
                Some(t) => t,
                None => DEFAULT_TIMEOUT_MS,
            };
            t > 0 && elapsed_ms > t
        }),
{
    let t = match timeout_ms {
        Some(t) => t,
        None => DEFAULT_TIMEOUT_MS,
    };
    t > 0 && elapsed_ms > t
}

/// Distinct identifiers are written differently.
pub proof fn lemma_decimal_injective(a: nat, b: nat)
    requires
        decimal_text(a) == decimal_text(b),
    ensures
        a == b,
    decreases a + b,
{
    lemma_decimal_len(a);
    lemma_decimal_len(b);
    let ds = seq!['0', '1', '2', '3', '4', '5', '6', '7', '8', '9'];
    if a < 10 && b < 10 {
        assert(decimal_text(a)[0] == ds[a as int]);
        assert(decimal_text(b)[0] == ds[b as int]);
    } else if a < 10 {
        lemma_decimal_len(b / 10);
        assert(decimal_text(b).len() >= 2);
    } else if b < 10 {
        lemma_decimal_len(a / 10);
        assert(decimal_text(a).len() >= 2);
    } else {
        assert(decimal_text(a).last() == digit_char(a % 10));
        assert(decimal_text(b).last() == digit_char(b % 10));
        assert(ds[(a % 10) as int] == ds[(b % 10) as int]);
        assert(a % 10 == b % 10);
        assert(decimal_text(a / 10) == decimal_text(a).drop_last());
        assert(decimal_text(b / 10) == decimal_text(b).drop_last());
        lemma_decimal_injective(a / 10, b / 10);
    }
}

proof fn lemma_decimal_len(n: nat)
    ensures
        decimal_text(n).len() >= 1,
    decreases n,
{
    if n >= 10 {
        lemma_decimal_len(n / 10);
    }
}

/// Responses never cross: in a table where each response is filed under its
/// own `id`, the response taken for identifier `a` carries `a`, and taking
/// it leaves in place the response that identifier `b` would get, whatever
/// order the two arrived in.
pub proof fn lemma_no_cross_talk(t: Seq<(Seq<char>, Seq<char>)>, a: nat, b: nat, i: int)
    requires
        table_wf(t),
        a != b,
        first_with_key(t, decimal_text(a), i),
    ensures
        member_of(t[i].1, "id"@) == Some(decimal_text(a)),
        forall|j: int|
            first_with_key(t, decimal_text(b), j) ==> exists|k: int|
                first_with_key(t.remove(i), decimal_text(b), k) && #[trigger] t.remove(i)[k] == t[j],
{
    let ka = decimal_text(a);
    let kb = decimal_text(b);
    if ka == kb {
        lemma_decimal_injective(a, b);
    }
    assert(ka != kb);
    let u = t.remove(i);
    assert forall|j: int| first_with_key(t, kb, j) implies exists|k: int|
        first_with_key(u, kb, k) && #[trigger] u[k] == t[j] by {
        assert(j != i);
        let k = if j < i { j } else { j - 1 };
        assert(u[k] == t[j]);
        assert forall|m: int| 0 <= m < k implies #[trigger] u[m].0 != kb by {
            if m < i {
                assert(u[m] == t[m]);
            } else {
                assert(u[m] == t[m + 1]);
            }
        }
        assert(first_with_key(u, kb, k));
    }
}

/// An event goes to one waiter only: once the first unseen event named
/// `name` is marked seen, the next waiter for `name` gets a later event or
/// none.
pub proof fn lemma_event_delivered_once(log: Seq<CommandV>, name: Seq<char>, i: int)
    requires
        first_unseen(log, name, i),
    ensures
        forall|j: int| first_unseen(mark_seen(log, i), name, j) ==> j > i,
{
    let l2 = mark_seen(log, i);
    assert forall|j: int| first_unseen(l2, name, j) implies j > i by {
        if j < i {
            assert(l2[j] == log[j]);
        } else if j == i {
            assert(l2[i].seen == Some(true));
        }
    }
}

} // verus!
