//! The attached session: the commands that the host sends into the page,
//! what their results hold, the registry of host-side commands and
//! listeners, and the decisions of each turn of the polling loop.
use vstd::prelude::*;

use crate::attach::{Attach, AttachPhase};
use crate::cdp::{last_named, Cdp};
use crate::commands::{CDPCommand, CommandV, PageReload, RuntimeEvaluate};
use crate::error::{CrowserError, ErrorV};
use crate::json::{json_node_of, member, member2, member2_of, member_of, read, str_or_default, str_or_empty, JsonNode, JsonNodeV};

verus! {

/// The page-side half of the bridge. It installs `window.__CROWSER.ipc`,
/// whose `invoke(cmd, args)` queues a call for the host and resolves when
/// the host responds; `_backend_consume` and `_backend_respond` serve the
/// polling loop.
pub const IPC_JS: &'static str = "(function () {
  window.__CROWSER = window.__CROWSER || {};
  if (window.__CROWSER.ipc) { return; }
  const queue = [];
  const pending = {};
  let next = 0;
  window.__CROWSER.ipc = {
    invoke: function (cmd, args) {
      return new Promise(function (resolve) {
        next += 1;
        const uuid = String(Date.now()) + '-' + String(next);
        pending[uuid] = resolve;
        queue.push({ cmd: cmd, args: args === undefined ? null : args, uuid: uuid });
      });
    },
    _backend_consume: function () {
      return queue.length > 0 ? queue.shift() : null;
    },
    _backend_respond: function (uuid, result) {
      const resolve = pending[uuid];
      if (resolve) {
        delete pending[uuid];
        resolve(result);
      }
    },
  };
})();";

/// A call that the page queued for the host.
pub struct PendingCall {
    pub cmd: String,
    /// The arguments, as JSON text.
    pub args: String,
    pub uuid: String,
}

/// What one turn of the polling loop does before it drains the page queue.
pub struct Tick {
    /// The browser reported a target destroyed: the host shuts down.
    pub terminate: bool,
    /// A new execution context appeared: evaluate the shim (and the
    /// initialization script) again.
    pub reinject: bool,
}

/// Entries of a registry under unique names.
pub open spec fn names_unique<H>(t: Seq<(Seq<char>, Seq<H>)>) -> bool {
    forall|i: int, j: int|
        0 <= i < t.len() && 0 <= j < t.len() && #[trigger] t[i].0 == #[trigger] t[j].0 ==> i == j
}

pub open spec fn has_name<H>(t: Seq<(Seq<char>, Seq<H>)>, name: Seq<char>) -> bool {
    exists|i: int| 0 <= i < t.len() && #[trigger] t[i].0 == name
}

/// The handlers registered under `name`; none when the name is not there.
pub open spec fn handlers_of<H>(t: Seq<(Seq<char>, Seq<H>)>, name: Seq<char>) -> Seq<H> {
    if has_name(t, name) {
        t[choose|i: int| 0 <= i < t.len() && #[trigger] t[i].0 == name].1
    } else {
        Seq::empty()
    }
}

/// Registering `h` under `name`: `None` when the name is taken, else the
/// registry with one more entry that holds `h` alone.
pub open spec fn registered<H>(t: Seq<(Seq<char>, Seq<H>)>, name: Seq<char>, h: H) -> Option<Seq<(Seq<char>, Seq<H>)>> {
    if has_name(t, name) {
        None
    } else {
        Some(t.push((name, seq![h])))
    }
}

pub open spec fn entries_view<H>(v: Seq<(String, Vec<H>)>) -> Seq<(Seq<char>, Seq<H>)> {
    v.map_values(|e: (String, Vec<H>)| (e.0@, e.1@))
}

fn find_entry<H>(v: &Vec<(String, Vec<H>)>, name: &str) -> (r: Option<usize>)
    ensures
        match r {
            Some(i) => i < v@.len() && entries_view(v@)[i as int].0 == name@,
            None => !has_name(entries_view(v@), name@),
        },
{
    let n = String::from_str(name);
    let ghost t = entries_view(v@);
    let mut i: usize = 0;
    while i < v.len()
        invariant
            0 <= i <= v@.len(),
            t == entries_view(v@),
            n@ == name@,
            forall|j: int| 0 <= j < i ==> #[trigger] t[j].0 != name@,
        decreases v.len() - i,
    {
        if v[i].0 == n {
            return Some(i);
        }
        i = i + 1;
    }
    None
}

fn register_in<H>(v: &mut Vec<(String, Vec<H>)>, name: &str, h: H) -> (r: bool)
    requires
        names_unique(entries_view(old(v)@)),
    ensures
        names_unique(entries_view(final(v)@)),
        match registered(entries_view(old(v)@), name@, h) {
            Some(t) => r && entries_view(final(v)@) == t,
            None => !r && final(v)@ == old(v)@,
        },
{
    match find_entry(v, name) {
        Some(_) => false,
        None => {
            let mut hs: Vec<H> = Vec::new();
            hs.push(h);
            assert(hs@ =~= seq![h]);
            let k = String::from_str(name);
            let ghost kv = k@;
            v.push((k, hs));
            assert(v@.last().0@ == name@);
            assert(entries_view(v@) =~= entries_view(old(v)@).push((name@, seq![h])));
            true
        },
    }
}

fn lookup_in<'a, H>(v: &'a Vec<(String, Vec<H>)>, name: &str) -> (r: Option<&'a Vec<H>>)
    requires
        names_unique(entries_view(v@)),
    ensures
        match r {
            Some(hs) => has_name(entries_view(v@), name@) && hs@ == handlers_of(entries_view(v@), name@),
            None => !has_name(entries_view(v@), name@),
        },
{
    match find_entry(v, name) {
        Some(i) => {
            proof {
                let t = entries_view(v@);
                assert(t[i as int].0 == name@);
                assert(has_name(t, name@));
                let c = choose|j: int| 0 <= j < t.len() && #[trigger] t[j].0 == name@;
                assert(c == i);
            }
            Some(&v[i].1)
        },
        None => None,
    }
}

/// The string that the member at `key` of the text at `m` holds; empty when
/// either is missing.
pub open spec fn str_at(m: Option<Seq<char>>, key: Seq<char>) -> Seq<char> {
    match m {
        Some(t) => str_or_empty(member_of(t, key)),
        None => Seq::empty(),
    }
}

/// The result types whose `value` an evaluation hands back.
pub open spec fn is_primitive(ty: Seq<char>) -> bool {
    ty == "string"@ || ty == "number"@ || ty == "boolean"@ || ty == "bigint"@ || ty == "symbol"@
}

/// What an evaluation's response gives: for a primitive result, its
/// `value` (an error when missing); for any other result, `null`.
pub open spec fn eval_outcome(frame: Seq<char>) -> Result<Seq<char>, ErrorV> {
    let inner = member2(frame, "result"@, "result"@);
    if is_primitive(str_at(inner, "type"@)) {
        match inner {
            Some(t) => match member_of(t, "value"@) {
                Some(v) => Ok(v),
                None => Err(ErrorV::CDPError("Eval: No result found in object: "@ + frame)),
            },
            None => Err(ErrorV::CDPError("Eval: No result found in object: "@ + frame)),
        }
    } else {
        Ok("null"@)
    }
}

/// The call that a drained queue entry holds: an object with `cmd`, `args`
/// and `uuid`; `cmd` and `uuid` read as strings, empty when they are not.
pub open spec fn pending_of(frame: Seq<char>) -> Option<(Seq<char>, Seq<char>, Seq<char>)> {
    match member2(frame, "result"@, "result"@) {
        Some(inner) => match member_of(inner, "value"@) {
            Some(v) => match (json_node_of(v), member_of(v, "cmd"@), member_of(v, "args"@), member_of(v, "uuid"@)) {
                (Some(JsonNodeV::Object(_)), Some(c), Some(a), Some(u)) => Some(
                    (str_or_empty(Some(c)), a, str_or_empty(Some(u))),
                ),
                _ => None,
            },
            None => None,
        },
        None => None,
    }
}

pub open spec fn evaluate_params(expression: Seq<char>) -> Seq<char> {
    RuntimeEvaluate::json_of(expression, Some(true), Some(true))
}

/// An evaluation in the page: awaits a returned promise and returns the
/// result by value.
pub open spec fn evaluate_command(expression: Seq<char>, session_id: Seq<char>) -> CommandV {
    CommandV {
        method: "Runtime.evaluate"@,
        params: evaluate_params(expression),
        session_id: Some(session_id),
        seen: Some(false),
    }
}

fn evaluate(expression: String, session_id: &String) -> (r: CDPCommand)
    ensures
        r@ == evaluate_command(expression@, session_id@),
{
    let p = RuntimeEvaluate { expression, await_promise: Some(true), return_by_value: Some(true) };
    CDPCommand::new("Runtime.evaluate", p.to_json(), Some(session_id.clone()))
}

/// The attached session and the registry of host-side handlers.
pub struct BrowserIpc<H> {
    session_id: String,
    browser_session_id: String,
    commands: Vec<(String, Vec<H>)>,
    listeners: Vec<(String, Vec<H>)>,
    last_context_uid: String,
}

impl<H> BrowserIpc<H> {
    /// The page session that commands are scoped to.
    pub closed spec fn session(&self) -> Seq<char> {
        self.session_id@
    }

    /// The browser-scoped session; empty when there is none.
    pub closed spec fn browser_session(&self) -> Seq<char> {
        self.browser_session_id@
    }

    pub fn session_id(&self) -> (r: &String)
        ensures
            r@ == self.session(),
    {
        &self.session_id
    }

    pub fn browser_session_id(&self) -> (r: &String)
        ensures
            r@ == self.browser_session(),
    {
        &self.browser_session_id
    }

    pub closed spec fn commands_view(&self) -> Seq<(Seq<char>, Seq<H>)> {
        entries_view(self.commands@)
    }

    pub closed spec fn listeners_view(&self) -> Seq<(Seq<char>, Seq<H>)> {
        entries_view(self.listeners@)
    }

    /// The unique id of the last execution context that the shim went into.
    pub closed spec fn last_context(&self) -> Seq<char> {
        self.last_context_uid@
    }

    pub open spec fn wf(&self) -> bool {
        names_unique(self.commands_view()) && names_unique(self.listeners_view())
    }

    /// The session that a finished [`Attach`] reached, with no handlers.
    pub fn new(attach: Attach) -> (r: BrowserIpc<H>)
        requires
            attach.phase == AttachPhase::Attached,
        ensures
            r.wf(),
            r.session() == attach.session_id@,
            r.browser_session() == attach.browser_session_id@,
            r.commands_view().len() == 0,
            r.listeners_view().len() == 0,
            r.last_context().len() == 0,
    {
        BrowserIpc {
            session_id: attach.session_id,
            browser_session_id: attach.browser_session_id,
            commands: Vec::new(),
            listeners: Vec::new(),
            last_context_uid: String::new(),
        }
    }

    /// Registers the handler of a host-side command. A name can be taken once.
    pub fn register_command(&mut self, name: &str, callback: H) -> (r: Result<(), CrowserError>)
        requires
            old(self).wf(),
        ensures
            final(self).wf(),
            final(self).session() == old(self).session(),
            final(self).listeners_view() == old(self).listeners_view(),
            final(self).last_context() == old(self).last_context(),
            match registered(old(self).commands_view(), name@, callback) {
                Some(t) => r is Ok && final(self).commands_view() == t,
                None => r is Err && r->Err_0@ == ErrorV::IpcError("Command already exists"@)
                    && final(self).commands_view() == old(self).commands_view(),
            },
    {
        if register_in(&mut self.commands, name, callback) {
            Ok(())
        } else {
            Err(CrowserError::IpcError(String::from_str("Command already exists")))
        }
    }

    /// Registers a listener. A name can be taken once.
    pub fn listen(&mut self, name: &str, callback: H) -> (r: Result<(), CrowserError>)
        requires
            old(self).wf(),
        ensures
            final(self).wf(),
            final(self).session() == old(self).session(),
            final(self).commands_view() == old(self).commands_view(),
            final(self).last_context() == old(self).last_context(),
            match registered(old(self).listeners_view(), name@, callback) {
                Some(t) => r is Ok && final(self).listeners_view() == t,
                None => r is Err && r->Err_0@ == ErrorV::IpcError("Listener already exists"@)
                    && final(self).listeners_view() == old(self).listeners_view(),
            },
    {
        if register_in(&mut self.listeners, name, callback) {
            Ok(())
        } else {
            Err(CrowserError::IpcError(String::from_str("Listener already exists")))
        }
    }

    /// The handlers to invoke for a call of `cmd`; `None` when no command
    /// of that name is registered.
    pub fn handle_command(&self, cmd: &str) -> (r: Option<&Vec<H>>)
        requires
            self.wf(),
        ensures
            match r {
                Some(hs) => has_name(self.commands_view(), cmd@) && hs@ == handlers_of(
                    self.commands_view(),
                    cmd@,
                ),
                None => !has_name(self.commands_view(), cmd@),
            },
    {
        lookup_in(&self.commands, cmd)
    }

    /// The listeners registered under `name`.
    pub fn listeners_for(&self, name: &str) -> (r: Option<&Vec<H>>)
        requires
            self.wf(),
        ensures
            match r {
                Some(hs) => has_name(self.listeners_view(), name@) && hs@ == handlers_of(
                    self.listeners_view(),
                    name@,
                ),
                None => !has_name(self.listeners_view(), name@),
            },
    {
        lookup_in(&self.listeners, name)
    }

    /// The command that evaluates `script` in the page.
    pub fn eval(&self, script: &str) -> (r: CDPCommand)
        ensures
            r@ == evaluate_command(script@, self.session()),
    {
        evaluate(String::from_str(script), &self.session_id)
    }

    /// The command that reloads the page, with the cache as the browser
    /// decides and no script of its own.
    pub fn reload_command(&self) -> (r: CDPCommand)
        ensures
            r@ == (CommandV {
                method: "Page.reload"@,
                params: PageReload::json_of(None, None),
                session_id: Some(self.session()),
                seen: Some(false),
            }),
    {
        let p = PageReload { ignore_cache: None, script_to_evaluate_on_load: None };
        CDPCommand::new("Page.reload", p.to_json(), Some(self.session_id.clone()))
    }

    /// The command that evaluates the shim.
    pub fn inject(&self) -> (r: CDPCommand)
        ensures
            r@ == evaluate_command(IPC_JS@, self.session()),
    {
        self.eval(IPC_JS)
    }

    /// The command that drains one queued call from the page.
    pub fn consume_command(&self) -> (r: CDPCommand)
        ensures
            r@ == evaluate_command("window.__CROWSER.ipc._backend_consume()"@, self.session()),
    {
        self.eval("window.__CROWSER.ipc._backend_consume()")
    }

    /// The command that hands `args` back to the page call `uuid`.
    pub fn respond_command(&self, uuid: &str, args: &str) -> (r: CDPCommand)
        ensures
            r@ == evaluate_command(
                "window.__CROWSER.ipc._backend_respond('"@ + uuid@ + "', "@ + args@ + ")"@,
                self.session(),
            ),
    {
        let mut e = String::from_str("window.__CROWSER.ipc._backend_respond('");
        e.append(uuid);
        e.append("', ");
        e.append(args);
        e.append(")");
        evaluate(e, &self.session_id)
    }

    /// Decides the start of one turn of the polling loop from the event log:
    /// shut down once a target was destroyed; evaluate the shim again when
    /// the last execution context created has another unique id than the
    /// one the shim went into last.
    pub fn tick(&mut self, cdp: &Cdp) -> (r: Tick)
        requires
            old(self).wf(),
        ensures
            final(self).wf(),
            final(self).session() == old(self).session(),
            final(self).commands_view() == old(self).commands_view(),
            final(self).listeners_view() == old(self).listeners_view(),
            r.terminate == exists|i: int|
                0 <= i < cdp@.events.len() && #[trigger] cdp@.events[i].method
                    == "Target.targetDestroyed"@,
            match latest_context_uid(cdp@.events) {
                Some(uid) => r.reinject == (uid != old(self).last_context())
                    && final(self).last_context() == uid,
                None => !r.reinject && final(self).last_context() == old(self).last_context(),
            },
    {
        let destroyed = cdp.last_event_by_name("Target.targetDestroyed");
        let terminate = destroyed.is_some();
        let reinject = match cdp.last_event_by_name("Runtime.executionContextCreated") {
            Some(evt) => {
                let ctx = member2_of(evt.params.as_str(), "context", "uniqueId");
                let uid = str_or_default(&ctx);
                proof {
                    let i = choose|i: int|
                        last_named(cdp@.events, "Runtime.executionContextCreated"@, i)
                            && evt@ == cdp@.events[i];
                    lemma_last_named_unique(
                        cdp@.events,
                        "Runtime.executionContextCreated"@,
                        i,
                    );
                }
                if uid == self.last_context_uid {
                    false
                } else {
                    self.last_context_uid = uid;
                    true
                }
            },
            None => false,
        };
        proof {
            if terminate {
                let i = choose|i: int|
                    last_named(cdp@.events, "Target.targetDestroyed"@, i);
                assert(cdp@.events[i].method == "Target.targetDestroyed"@);
            }
        }
        Tick { terminate, reinject }
    }
}

impl<H: Fn(String) -> Result<String, CrowserError>> BrowserIpc<H> {
    /// Serves a call of `cmd` from the page: every handler registered under
    /// `cmd` is called once, in order of registration, with the arguments.
    /// A handler's error does not stop the others; all results are handed
    /// back, in the same order. No handler of another name is called.
    pub fn dispatch(&self, cmd: &str, args: &String) -> (r: Vec<Result<String, CrowserError>>)
        requires
            self.wf(),
            forall|i: int|
                0 <= i < handlers_of(self.commands_view(), cmd@).len() ==> (#[trigger] handlers_of(
                    self.commands_view(),
                    cmd@,
                )[i]).requires((*args,)),
        ensures
            r@.len() == handlers_of(self.commands_view(), cmd@).len(),
            forall|i: int|
                0 <= i < r@.len() ==> (#[trigger] handlers_of(self.commands_view(), cmd@)[i]).ensures(
                    (*args,),
                    r@[i],
                ),
    {
        let mut r: Vec<Result<String, CrowserError>> = Vec::new();
        match self.handle_command(cmd) {
            Some(hs) => {
                let mut k: usize = 0;
                while k < hs.len()
                    invariant
                        0 <= k <= hs@.len(),
                        hs@ == handlers_of(self.commands_view(), cmd@),
                        r@.len() == k,
                        forall|i: int| 0 <= i < hs@.len() ==> (#[trigger] hs@[i]).requires((*args,)),
                        forall|i: int| 0 <= i < k ==> (#[trigger] hs@[i]).ensures((*args,), r@[i]),
                    decreases hs.len() - k,
                {
                    let h = &hs[k];
                    let a = args.clone();
                    let out = h(a);
                    r.push(out);
                    k = k + 1;
                }
            },
            None => {},
        }
        r
    }
}

/// The unique id of the context that the last "execution context created"
/// event names; empty when it names none.
pub open spec fn latest_context_uid(log: Seq<CommandV>) -> Option<Seq<char>> {
    if exists|i: int| last_named(log, "Runtime.executionContextCreated"@, i) {
        let i = choose|i: int| last_named(log, "Runtime.executionContextCreated"@, i);
        Some(str_or_empty(member2(log[i].params, "context"@, "uniqueId"@)))
    } else {
        None
    }
}

proof fn lemma_last_named_unique(log: Seq<CommandV>, name: Seq<char>, i: int)
    requires
        last_named(log, name, i),
    ensures
        forall|j: int| last_named(log, name, j) ==> j == i,
{
    assert forall|j: int| last_named(log, name, j) implies j == i by {
        if j < i {
            assert(log[i].method != name);
        } else if i < j {
            assert(log[j].method != name);
        }
    }
}

/// Reads the response to an evaluation.
pub fn read_eval_result(frame: &str) -> (r: Result<String, CrowserError>)
    ensures
        match eval_outcome(frame@) {
            Ok(v) => r is Ok && r->Ok_0@ == v,
            Err(e) => r is Err && r->Err_0@ == e,
        },
{
    let inner = member2_of(frame, "result", "result");
    let ty = match &inner {
        Some(t) => {
            let m = member(t.as_str(), "type");
            str_or_default(&m)
        },
        None => String::new(),
    };
    let primitive = ty == String::from_str("string") || ty == String::from_str("number")
        || ty == String::from_str("boolean") || ty == String::from_str("bigint") || ty
        == String::from_str("symbol");
    if !primitive {
        return Ok(String::from_str("null"));
    }
    let value = match &inner {
        Some(t) => member(t.as_str(), "value"),
        None => None,
    };
    match value {
        Some(v) => Ok(v),
        None => {
            let mut msg = String::from_str("Eval: No result found in object: ");
            msg.append(frame);
            Err(CrowserError::CDPError(msg))
        },
    }
}

/// Reads the call that a drain of the page queue returned, if any.
pub fn read_pending_call(frame: &str) -> (r: Option<PendingCall>)
    ensures
        match pending_of(frame@) {
            Some((c, a, u)) => r is Some && r->Some_0.cmd@ == c && r->Some_0.args@ == a
                && r->Some_0.uuid@ == u,
            None => r is None,
        },
{
    let v = match member2_of(frame, "result", "result") {
        Some(inner) => match member(inner.as_str(), "value") {
            Some(v) => v,
            None => return None,
        },
        None => return None,
    };
    let is_object = match read(v.as_str()) {
        Some(JsonNode::Object(_)) => true,
        _ => false,
    };
    let c = member(v.as_str(), "cmd");
    let a = member(v.as_str(), "args");
    let u = member(v.as_str(), "uuid");
    if is_object && c.is_some() && a.is_some() && u.is_some() {
        let cmd = str_or_default(&c);
        let uuid = str_or_default(&u);
        match a {
            Some(args) => Some(PendingCall { cmd, args, uuid }),
            None => None,
        }
    } else {
        None
    }
}

/// A name is registered once: after a first handler is registered under a
/// free name, registering a second one under it fails, and the first stays
/// the only handler of that name.
pub proof fn lemma_first_handler_kept<H>(t: Seq<(Seq<char>, Seq<H>)>, name: Seq<char>, h1: H, h2: H)
    requires
        names_unique(t),
        !has_name(t, name),
    ensures
        registered(t, name, h1) is Some,
        registered(registered(t, name, h1)->Some_0, name, h2) is None,
        handlers_of(registered(t, name, h1)->Some_0, name) == seq![h1],
{
    let t1 = t.push((name, seq![h1]));
    let last = t.len() as int;
    assert(t1[last].0 == name);
    assert(has_name(t1, name));
    let c = choose|i: int| 0 <= i < t1.len() && #[trigger] t1[i].0 == name;
    if c != last {
        assert(t1[c] == t[c]);
        assert(has_name(t, name));
    }
}

} // verus!
