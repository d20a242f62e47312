//! Attaching to the page: the sequence of commands and events that gives a
//! session, taken one response or event at a time.
use vstd::prelude::*;

use crate::commands::{bool_text, CDPCommand, CommandV, TargetAttachToTarget, TargetSetDiscoverTargets};
use crate::error::{cdp_error, CrowserError, ErrorV};
use crate::json::{json_node_of, json_quoted, member, member2, member2_of, member_of, read, str_or_default, str_or_empty, JsonNode, JsonNodeV};

verus! {

/// The target ids of the elements whose `type` is `"page"`, in order.
pub open spec fn page_ids(elems: Seq<Seq<char>>) -> Seq<Seq<char>>
    decreases elems.len(),
{
    if elems.len() == 0 {
        Seq::empty()
    } else {
        let rest = page_ids(elems.drop_last());
        let e = elems.last();
        if str_or_empty(member_of(e, "type"@)) == "page"@ {
            rest.push(str_or_empty(member_of(e, "targetId"@)))
        } else {
            rest
        }
    }
}

/// The elements of an array; none when the text is no array.
pub open spec fn elements(text: Seq<char>) -> Seq<Seq<char>> {
    match json_node_of(text) {
        Some(JsonNodeV::Array(a)) => a,
        _ => Seq::empty(),
    }
}

fn page_targets(list: &str) -> (r: Vec<String>)
    ensures
        r@.map_values(|s: String| s@) == page_ids(elements(list@)),
{
    let mut r: Vec<String> = Vec::new();
    match read(list) {
        Some(JsonNode::Array(a)) => {
            let ghost av = a@.map_values(|e: String| e@);
            let mut i: usize = 0;
            while i < a.len()
                invariant
                    0 <= i <= a@.len(),
                    av == a@.map_values(|e: String| e@),
                    r@.map_values(|s: String| s@) == page_ids(av.take(i as int)),
                decreases a.len() - i,
            {
                assert(av.take(i as int + 1).drop_last() =~= av.take(i as int));
                let t = member(a[i].as_str(), "type");
                let kind = str_or_default(&t);
                let page = String::from_str("page");
                if kind == page {
                    let id = member(a[i].as_str(), "targetId");
                    let ghost before = r@;
                    r.push(str_or_default(&id));
                    assert(r@.map_values(|s: String| s@) =~= before.map_values(|s: String| s@).push(
                        r@.last()@,
                    ));
                }
                i = i + 1;
            }
            assert(av.take(a@.len() as int) =~= av);
            r
        },
        _ => {
            assert(r@.map_values(|s: String| s@) =~= Seq::<Seq<char>>::empty());
            r
        },
    }
}

/// Where the attachment stands.
#[derive(PartialEq, Eq, Structural, Debug, Clone, Copy)]
pub enum AttachPhase {
    /// Waiting for the list of targets.
    GetTargets,
    /// Waiting for the response to attaching page target `k`.
    AttachTarget(usize),
    /// Waiting for the event that gives page target `k`'s session.
    AwaitAttached(usize),
    /// Waiting for the response to turning target discovery on.
    DiscoverTargets,
    /// Waiting for the response to attaching the browser target.
    BrowserTarget,
    /// Waiting for the response to enabling the page domain.
    PageEnable,
    /// Waiting for the response to enabling the runtime domain.
    RuntimeEnable,
    Attached,
    Failed,
}

/// What the caller does next.
pub enum AttachAction {
    /// Send the command and hand its response to [`Attach::on_response`].
    Send(CDPCommand),
    /// Wait for an event of this name and hand it to [`Attach::on_event`].
    WaitEvent(String),
    /// The session is attached.
    Done,
    /// The attachment failed; the caller may start over.
    Fail(CrowserError),
}

/// The attachment sequence: list the targets, attach the first page that
/// gives a session, turn target discovery on, attach the browser target,
/// enable the page and runtime domains.
pub struct Attach {
    pub phase: AttachPhase,
    /// The ids of the page targets.
    pub pages: Vec<String>,
    pub session_id: String,
    pub browser_session_id: String,
}

pub open spec fn is_send(a: AttachAction, method: Seq<char>, params: Seq<char>, session: Option<Seq<char>>) -> bool {
    match a {
        AttachAction::Send(c) => c@ == CommandV { method, params, session_id: session, seen: Some(false) },
        _ => false,
    }
}

pub open spec fn attach_params(target_id: Seq<char>) -> Seq<char> {
    "{\"targetId\":"@ + json_quoted(target_id) + ",\"flatten\":"@ + bool_text(true) + "}"@
}

pub open spec fn is_fail(a: AttachAction, msg: Seq<char>) -> bool {
    match a {
        AttachAction::Fail(e) => e@ == ErrorV::CDPError(msg),
        _ => false,
    }
}

fn attach_target_command(target_id: &String) -> (r: CDPCommand)
    ensures
        r@ == (CommandV {
            method: "Target.attachToTarget"@,
            params: attach_params(target_id@),
            session_id: None,
            seen: Some(false),
        }),
{
    let p = TargetAttachToTarget { target_id: target_id.clone(), flatten: true };
    let params = p.to_json();
    CDPCommand::new("Target.attachToTarget", params, None)
}

impl Attach {
    /// Starts the sequence: the first command asks for the targets.
    pub fn start() -> (r: (Attach, CDPCommand))
        ensures
            r.0.phase == AttachPhase::GetTargets,
            r.0.pages@.len() == 0,
            r.0.session_id@.len() == 0,
            r.0.browser_session_id@.len() == 0,
            r.1@ == (CommandV {
                method: "Target.getTargets"@,
                params: "{}"@,
                session_id: None,
                seen: Some(false),
            }),
    {
        let a = Attach {
            phase: AttachPhase::GetTargets,
            pages: Vec::new(),
            session_id: String::new(),
            browser_session_id: String::new(),
        };
        (a, CDPCommand::new("Target.getTargets", String::from_str("{}"), None))
    }

    /// Whether the sequence waits for a response, so that
    /// [`Attach::on_response`] may be called.
    pub fn expects_response(&self) -> (r: bool)
        ensures
            r == match self.phase {
                AttachPhase::GetTargets | AttachPhase::DiscoverTargets | AttachPhase::BrowserTarget
                | AttachPhase::PageEnable | AttachPhase::RuntimeEnable => true,
                AttachPhase::AttachTarget(k) => k < self.pages@.len(),
                _ => false,
            },
    {
        match self.phase {
            AttachPhase::GetTargets | AttachPhase::DiscoverTargets | AttachPhase::BrowserTarget
            | AttachPhase::PageEnable | AttachPhase::RuntimeEnable => true,
            AttachPhase::AttachTarget(k) => k < self.pages.len(),
            _ => false,
        }
    }

    /// Whether the sequence waits for an event, so that
    /// [`Attach::on_event`] may be called.
    pub fn expects_event(&self) -> (r: bool)
        ensures
            r == (self.phase is AwaitAttached && self.phase->AwaitAttached_0 < self.pages@.len()),
    {
        match self.phase {
            AttachPhase::AwaitAttached(k) => k < self.pages.len(),
            _ => false,
        }
    }

    /// Takes the response to the command last sent.
    pub fn on_response(&mut self, frame: &str) -> (r: AttachAction)
        requires
            match old(self).phase {
                AttachPhase::GetTargets | AttachPhase::DiscoverTargets | AttachPhase::BrowserTarget
                | AttachPhase::PageEnable | AttachPhase::RuntimeEnable => true,
                AttachPhase::AttachTarget(k) => k < old(self).pages@.len(),
                _ => false,
            },
        ensures
            final(self).session_id == old(self).session_id,
            old(self).phase != AttachPhase::GetTargets ==> final(self).pages == old(self).pages,
            old(self).phase != AttachPhase::BrowserTarget ==> final(self).browser_session_id
                == old(self).browser_session_id,
            old(self).phase == AttachPhase::GetTargets ==> match member_of(frame@, "result"@) {
                None => final(self).phase == AttachPhase::Failed && is_fail(
                    r,
                    "Attach: No result found"@,
                ),
                Some(res) => match member_of(res, "targetInfos"@) {
                    None => final(self).phase == AttachPhase::Failed && is_fail(r, "No targets found"@),
                    Some(list) => final(self).pages@.map_values(|s: String| s@) == page_ids(
                        elements(list),
                    ) && if page_ids(elements(list)).len() == 0 {
                        final(self).phase == AttachPhase::Failed && is_fail(r, "No targets found"@)
                    } else {
                        final(self).phase == AttachPhase::AttachTarget(0) && is_send(
                            r,
                            "Target.attachToTarget"@,
                            attach_params(page_ids(elements(list))[0]),
                            None,
                        )
                    },
                },
            },
            old(self).phase is AttachTarget ==> final(self).phase == AttachPhase::AwaitAttached(
                old(self).phase->AttachTarget_0,
            ) && match r {
                AttachAction::WaitEvent(n) => n@ == "Target.attachedToTarget"@,
                _ => false,
            },
            old(self).phase == AttachPhase::DiscoverTargets ==> final(self).phase
                == AttachPhase::BrowserTarget && is_send(
                r,
                "Target.attachToBrowserTarget"@,
                "null"@,
                None,
            ),
            old(self).phase == AttachPhase::BrowserTarget ==> final(self).phase
                == AttachPhase::PageEnable && is_send(
                r,
                "Page.enable"@,
                "null"@,
                Some(old(self).session_id@),
            ) && match member_of(frame@, "result"@) {
                Some(res) => match member2(res, "params"@, "sessionId"@) {
                    Some(sid) => final(self).browser_session_id@ == str_or_empty(Some(sid)),
                    None => final(self).browser_session_id == old(self).browser_session_id,
                },
                None => final(self).browser_session_id == old(self).browser_session_id,
            },
            old(self).phase == AttachPhase::PageEnable ==> final(self).phase
                == AttachPhase::RuntimeEnable && is_send(
                r,
                "Runtime.enable"@,
                "null"@,
                Some(old(self).session_id@),
            ),
            old(self).phase == AttachPhase::RuntimeEnable ==> final(self).phase
                == AttachPhase::Attached && r is Done,
    {
        match self.phase {
            AttachPhase::GetTargets => {
                let res = match member(frame, "result") {
                    Some(res) => res,
                    None => {
                        self.phase = AttachPhase::Failed;
                        return AttachAction::Fail(cdp_error("Attach: No result found"));
                    },
                };
                let list = match member(res.as_str(), "targetInfos") {
                    Some(list) => list,
                    None => {
                        self.phase = AttachPhase::Failed;
                        return AttachAction::Fail(cdp_error("No targets found"));
                    },
                };
                self.pages = page_targets(list.as_str());
                if self.pages.len() == 0 {
                    self.phase = AttachPhase::Failed;
                    AttachAction::Fail(cdp_error("No targets found"))
                } else {
                    self.phase = AttachPhase::AttachTarget(0);
                    AttachAction::Send(attach_target_command(&self.pages[0]))
                }
            },
            AttachPhase::AttachTarget(k) => {
                self.phase = AttachPhase::AwaitAttached(k);
                AttachAction::WaitEvent(String::from_str("Target.attachedToTarget"))
            },
            AttachPhase::DiscoverTargets => {
                self.phase = AttachPhase::BrowserTarget;
                AttachAction::Send(
                    CDPCommand::new("Target.attachToBrowserTarget", String::from_str("null"), None),
                )
            },
            AttachPhase::BrowserTarget => {
                if let Some(res) = member(frame, "result") {
                    let sid = member2_of(res.as_str(), "params", "sessionId");
                    if sid.is_some() {
                        self.browser_session_id = str_or_default(&sid);
                    }
                }
                self.phase = AttachPhase::PageEnable;
                AttachAction::Send(
                    CDPCommand::new(
                        "Page.enable",
                        String::from_str("null"),
                        Some(self.session_id.clone()),
                    ),
                )
            },
            AttachPhase::PageEnable => {
                self.phase = AttachPhase::RuntimeEnable;
                AttachAction::Send(
                    CDPCommand::new(
                        "Runtime.enable",
                        String::from_str("null"),
                        Some(self.session_id.clone()),
                    ),
                )
            },
            _ => {
                self.phase = AttachPhase::Attached;
                AttachAction::Done
            },
        }
    }

    /// Takes the "target attached" event that was waited for. An event
    /// without a session id moves on to the next page target.
    pub fn on_event(&mut self, event: &CDPCommand) -> (r: AttachAction)
        requires
            old(self).phase is AwaitAttached,
            old(self).phase->AwaitAttached_0 < old(self).pages@.len(),
        ensures
            final(self).pages == old(self).pages,
            final(self).browser_session_id == old(self).browser_session_id,
            ({
                let k = old(self).phase->AwaitAttached_0;
                match member_of(event.params@, "sessionId"@) {
                    Some(sid) => final(self).session_id@ == str_or_empty(Some(sid))
                        && final(self).phase == AttachPhase::DiscoverTargets && is_send(
                        r,
                        "Target.setDiscoverTargets"@,
                        "{\"discover\":"@ + bool_text(true) + "}"@,
                        None,
                    ),
                    None => final(self).session_id == old(self).session_id
                        && if k + 1 < old(self).pages@.len() {
                        final(self).phase == AttachPhase::AttachTarget((k + 1) as usize) && is_send(
                            r,
                            "Target.attachToTarget"@,
                            attach_params(old(self).pages@[k + 1]@),
                            None,
                        )
                    } else {
                        final(self).phase == AttachPhase::Failed && is_fail(r, "No session id found"@)
                    },
                }
            }),
    {
        let k = match self.phase {
            AttachPhase::AwaitAttached(k) => k,
            _ => 0,
        };
        let n = self.pages.len();
        let sid = member(event.params.as_str(), "sessionId");
        if sid.is_some() {
            self.session_id = str_or_default(&sid);
            self.phase = AttachPhase::DiscoverTargets;
            let p = TargetSetDiscoverTargets { discover: true };
            let params = p.to_json();
            return AttachAction::Send(CDPCommand::new("Target.setDiscoverTargets", params, None));
        }
        if k + 1 < n {
            self.phase = AttachPhase::AttachTarget(k + 1);
            AttachAction::Send(attach_target_command(&self.pages[k + 1]))
        } else {
            self.phase = AttachPhase::Failed;
            AttachAction::Fail(cdp_error("No session id found"))
        }
    }
}

} // verus!
