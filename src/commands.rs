//! The protocol commands that the library sends, and their parameters.
use vstd::prelude::*;

use crate::json::{json_quoted, member, member_of, opt_view, quote};

verus! {

/// A command before it is sent, or an event after it was read.
///
/// `params` is JSON text; the text `null` stands for no parameters. `seen`
/// marks an event of the log that was already handed to a waiter.
#[derive(Debug, Clone)]
pub struct CDPCommand {
    pub method: String,
    pub params: String,
    pub session_id: Option<String>,
    pub seen: Option<bool>,
}

/// The model of a [`CDPCommand`].
pub struct CommandV {
    pub method: Seq<char>,
    pub params: Seq<char>,
    pub session_id: Option<Seq<char>>,
    pub seen: Option<bool>,
}

impl View for CDPCommand {
    type V = CommandV;

    open spec fn view(&self) -> CommandV {
        CommandV {
            method: self.method@,
            params: self.params@,
            session_id: match self.session_id {
                Some(s) => Some(s@),
                None => None,
            },
            seen: self.seen,
        }
    }
}

impl CDPCommand {
    /// A command that no waiter has seen.
    pub fn new(method: &str, params: String, session_id: Option<String>) -> (r: CDPCommand)
        ensures
            r.method@ == method@,
            r.params == params,
            r.session_id == session_id,
            r.seen == Some(false),
    {
        CDPCommand { method: String::from_str(method), params, session_id, seen: Some(false) }
    }

    /// A copy of the command.
    pub fn duplicate(&self) -> (r: CDPCommand)
        ensures
            r == *self,
    {
        let session_id = match &self.session_id {
            Some(s) => Some(s.clone()),
            None => None,
        };
        CDPCommand {
            method: self.method.clone(),
            params: self.params.clone(),
            session_id,
            seen: self.seen,
        }
    }
}

pub open spec fn bool_text(b: bool) -> Seq<char> {
    if b {
        "true"@
    } else {
        "false"@
    }
}

pub fn bool_json(b: bool) -> (r: &'static str)
    ensures
        r@ == bool_text(b),
{
    if b {
        "true"
    } else {
        "false"
    }
}

/// The optional boolean as JSON: `null` when absent.
pub open spec fn opt_bool_text(b: Option<bool>) -> Seq<char> {
    match b {
        Some(v) => bool_text(v),
        None => "null"@,
    }
}

/// Parameters of `Page.enable`.
pub struct PageEnable {}

/// Parameters of `Page.disable`.
pub struct PageDisable {}

/// Parameters of `Target.getTargets`.
pub struct TargetGetTargets {}

impl PageEnable {
    pub fn to_json(&self) -> (r: String)
        ensures
            r@ == "{}"@,
    {
        String::from_str("{}")
    }
}

impl PageDisable {
    pub fn to_json(&self) -> (r: String)
        ensures
            r@ == "{}"@,
    {
        String::from_str("{}")
    }
}

impl TargetGetTargets {
    pub fn to_json(&self) -> (r: String)
        ensures
            r@ == "{}"@,
    {
        String::from_str("{}")
    }
}

/// Parameters of `Runtime.evaluate`.
pub struct RuntimeEvaluate {
    pub expression: String,
    pub await_promise: Option<bool>,
    pub return_by_value: Option<bool>,
}

impl RuntimeEvaluate {
    /// The JSON of the parameters: absent flags are left out.
    pub open spec fn json_of(expression: Seq<char>, await_promise: Option<bool>, return_by_value: Option<bool>) -> Seq<char> {
        "{\"expression\":"@ + json_quoted(expression) + match await_promise {
            Some(b) => ",\"awaitPromise\":"@ + bool_text(b),
            None => Seq::empty(),
        } + match return_by_value {
            Some(b) => ",\"returnByValue\":"@ + bool_text(b),
            None => Seq::empty(),
        } + "}"@
    }

    pub fn to_json(&self) -> (r: String)
        ensures
            r@ == Self::json_of(self.expression@, self.await_promise, self.return_by_value),
    {
        let mut r = String::from_str("{\"expression\":");
        let q = quote(self.expression.as_str());
        r.append(q.as_str());
        if let Some(b) = self.await_promise {
            r.append(",\"awaitPromise\":");
            r.append(bool_json(b));
        }
        if let Some(b) = self.return_by_value {
            r.append(",\"returnByValue\":");
            r.append(bool_json(b));
        }
        r.append("}");
        r
    }
}

/// Parameters of `Target.setDiscoverTargets`.
pub struct TargetSetDiscoverTargets {
    pub discover: bool,
}

impl TargetSetDiscoverTargets {
    pub fn to_json(&self) -> (r: String)
        ensures
            r@ == "{\"discover\":"@ + bool_text(self.discover) + "}"@,
    {
        let mut r = String::from_str("{\"discover\":");
        r.append(bool_json(self.discover));
        r.append("}");
        r
    }
}

/// Parameters of `Target.attachToTarget`.
pub struct TargetAttachToTarget {
    pub target_id: String,
    pub flatten: bool,
}

impl TargetAttachToTarget {
    pub fn to_json(&self) -> (r: String)
        ensures
            r@ == "{\"targetId\":"@ + json_quoted(self.target_id@) + ",\"flatten\":"@ + bool_text(
                self.flatten,
            ) + "}"@,
    {
        let mut r = String::from_str("{\"targetId\":");
        let q = quote(self.target_id.as_str());
        r.append(q.as_str());
        r.append(",\"flatten\":");
        r.append(bool_json(self.flatten));
        r.append("}");
        r
    }
}

/// Parameters of `Page.addScriptToEvaluateOnNewDocument`.
pub struct PageAddScriptToEvaluateOnNewDocument {
    pub source: String,
}

impl PageAddScriptToEvaluateOnNewDocument {
    pub fn to_json(&self) -> (r: String)
        ensures
            r@ == "{\"source\":"@ + json_quoted(self.source@) + "}"@,
    {
        let mut r = String::from_str("{\"source\":");
        let q = quote(self.source.as_str());
        r.append(q.as_str());
        r.append("}");
        r
    }
}

/// Parameters of `Page.reload`: absent fields are written as `null`.
pub struct PageReload {
    pub ignore_cache: Option<bool>,
    pub script_to_evaluate_on_load: Option<String>,
}

impl PageReload {
    pub open spec fn json_of(ignore_cache: Option<bool>, script: Option<Seq<char>>) -> Seq<char> {
        "{\"ignoreCache\":"@ + opt_bool_text(ignore_cache) + ",\"scriptToEvaluateOnLoad\":"@
            + match script {
            Some(s) => json_quoted(s),
            None => "null"@,
        } + "}"@
    }

    pub fn to_json(&self) -> (r: String)
        ensures
            r@ == Self::json_of(
                self.ignore_cache,
                match self.script_to_evaluate_on_load {
                    Some(s) => Some(s@),
                    None => None,
                },
            ),
    {
        let mut r = String::from_str("{\"ignoreCache\":");
        match self.ignore_cache {
            Some(b) => r.append(bool_json(b)),
            None => r.append("null"),
        }
        r.append(",\"scriptToEvaluateOnLoad\":");
        match &self.script_to_evaluate_on_load {
            Some(s) => {
                let q = quote(s.as_str());
                r.append(q.as_str());
            },
            None => r.append("null"),
        }
        r.append("}");
        r
    }
}

/// A response frame, read: the text of its `id` and of its `result`, each
/// absent when the frame has no such member.
#[derive(Debug, Clone)]
pub struct CDPResponse {
    pub id: Option<String>,
    pub result: Option<String>,
}

impl CDPResponse {
    pub fn from_frame(text: &str) -> (r: CDPResponse)
        ensures
            opt_view(r.id) == member_of(text@, "id"@),
            opt_view(r.result) == member_of(text@, "result"@),
    {
        CDPResponse { id: member(text, "id"), result: member(text, "result") }
    }
}

} // verus!
