//! Finding the socket URL of the debugging endpoint.
//!
//! The endpoint answers `GET /json/version` with a JSON object whose
//! `webSocketDebuggerUrl` member is that URL. The browser may not listen
//! yet when it is first asked, so the question is repeated, up to a budget
//! of attempts.
use vstd::prelude::*;

use crate::error::{cdp_error, CrowserError, ErrorV};
use crate::json::{as_str, member, member_of, str_of};

verus! {

/// A character with the Unicode property White_Space.
pub open spec fn is_white_space(c: char) -> bool {
    let u = c as u32;
    (0x9 <= u && u <= 0xd) || u == 0x20 || u == 0x85 || u == 0xa0 || u == 0x1680 || (0x2000 <= u
        && u <= 0x200a) || u == 0x2028 || u == 0x2029 || u == 0x202f || u == 0x205f || u == 0x3000
}

/// `s` without its leading white space.
pub open spec fn trim_start(s: Seq<char>) -> Seq<char>
    decreases s.len(),
{
    if s.len() > 0 && is_white_space(s[0]) {
        trim_start(s.drop_first())
    } else {
        s
    }
}

/// `s` without its trailing white space.
pub open spec fn trim_end(s: Seq<char>) -> Seq<char>
    decreases s.len(),
{
    if s.len() > 0 && is_white_space(s.last()) {
        trim_end(s.drop_last())
    } else {
        s
    }
}

/// `s` without leading and trailing white space, as `str::trim` gives it.
pub open spec fn trimmed(s: Seq<char>) -> Seq<char> {
    trim_end(trim_start(s))
}

/// The URL that a body names: the string value of its
/// `webSocketDebuggerUrl` member. `None` when the body is no JSON object,
/// has no such member, or the member is no string.
pub open spec fn ws_url_of(body: Seq<char>) -> Option<Seq<char>> {
    match member_of(body, "webSocketDebuggerUrl"@) {
        Some(m) => str_of(m),
        None => None,
    }
}

/// Relies on `str::trim`: the text without leading and trailing characters
/// of the Unicode property White_Space.
#[verifier::external_body]
fn trim_str(s: &str) -> (r: &str)
    ensures
        r@ == trimmed(s@),
{
    s.trim()
}

/// Reads the socket URL out of the body of `/json/version`.
pub fn attempt_get_ws_url(contents: &str) -> (r: Result<String, CrowserError>)
    ensures
        match ws_url_of(contents@) {
            Some(u) => r is Ok && r->Ok_0@ == u,
            None => r is Err && r->Err_0@ == ErrorV::CDPError("Could not get websocket URL"@),
        },
{
    match member(contents, "webSocketDebuggerUrl") {
        Some(m) => match as_str(m.as_str()) {
            Some(u) => Ok(u),
            None => Err(cdp_error("Could not get websocket URL")),
        },
        None => Err(cdp_error("Could not get websocket URL")),
    }
}

/// Asking for the socket URL, up to a budget of attempts.
pub struct Discovery {
    pub attempts: u32,
    pub budget: u32,
}

/// What to do after one attempt.
pub enum DiscoveryStep {
    /// Connect to this URL.
    Connect(String),
    /// Wait the fixed interval and ask again.
    Retry,
    /// Give up: there is no browser to connect to.
    Fail(CrowserError),
}

/// The model of a [`DiscoveryStep`].
pub enum StepV {
    Connect(Seq<char>),
    Retry,
    Fail(ErrorV),
}

impl View for DiscoveryStep {
    type V = StepV;

    open spec fn view(&self) -> StepV {
        match self {
            DiscoveryStep::Connect(u) => StepV::Connect(u@),
            DiscoveryStep::Retry => StepV::Retry,
            DiscoveryStep::Fail(e) => StepV::Fail(e@),
        }
    }
}

pub open spec fn no_browser() -> ErrorV {
    ErrorV::CDPError("No browser instance to connect to"@)
}

/// One attempt: `reply` is the body that the endpoint answered with, or
/// `None` when it did not answer. Gives the attempts made after it, and the
/// step to take.
pub open spec fn discovery_step(attempts: nat, budget: nat, reply: Option<Seq<char>>) -> (nat, StepV) {
    match reply {
        Some(body) if ws_url_of(body) is Some => {
            let u = trimmed(ws_url_of(body)->Some_0);
            if u.len() > 0 {
                (attempts + 1, StepV::Connect(u))
            } else {
                (attempts + 1, StepV::Fail(no_browser()))
            }
        },
        _ => if attempts + 1 >= budget {
            (attempts + 1, StepV::Fail(no_browser()))
        } else {
            (attempts + 1, StepV::Retry)
        },
    }
}

/// The step that a run of replies ends in, from `attempts` attempts made:
/// the first reply that does not call for a retry decides; `None` when the
/// replies run out first.
pub open spec fn discovery_outcome(attempts: nat, budget: nat, replies: Seq<Option<Seq<char>>>) -> Option<StepV>
    decreases replies.len(),
{
    if replies.len() == 0 {
        None
    } else {
        let (a, step) = discovery_step(attempts, budget, replies[0]);
        match step {
            StepV::Retry => discovery_outcome(a, budget, replies.drop_first()),
            _ => Some(step),
        }
    }
}

impl Discovery {
    /// A discovery that may ask `budget` times.
    pub fn new(budget: u32) -> (r: Discovery)
        ensures
            r.attempts == 0,
            r.budget == budget,
    {
        Discovery { attempts: 0, budget }
    }

    /// Decides after one attempt.
    pub fn next(&mut self, reply: Option<&str>) -> (r: DiscoveryStep)
        requires
            old(self).attempts < old(self).budget,
        ensures
            final(self).budget == old(self).budget,
            (final(self).attempts as nat, r@) == discovery_step(
                old(self).attempts as nat,
                old(self).budget as nat,
                match reply {
                    Some(b) => Some(b@),
                    None => None,
                },
            ),
            r is Retry ==> final(self).attempts < final(self).budget,
    {
        self.attempts = self.attempts + 1;
        if let Some(body) = reply {
            if let Ok(u) = attempt_get_ws_url(body) {
                let t = trim_str(u.as_str());
                if t.unicode_len() > 0 {
                    return DiscoveryStep::Connect(String::from_str(t));
                } else {
                    return DiscoveryStep::Fail(cdp_error("No browser instance to connect to"));
                }
            }
        }
        if self.attempts >= self.budget {
            DiscoveryStep::Fail(cdp_error("No browser instance to connect to"))
        } else {
            DiscoveryStep::Retry
        }
    }
}

/// A body that names a usable URL.
pub open spec fn answers(reply: Option<Seq<char>>) -> bool {
    match reply {
        Some(body) => ws_url_of(body) is Some && trimmed(ws_url_of(body)->Some_0).len() > 0,
        None => false,
    }
}

/// An endpoint that starts answering after `n` unanswered attempts is found
/// when those attempts leave room in the budget.
pub proof fn lemma_found_within_budget(attempts: nat, budget: nat, n: nat, replies: Seq<Option<Seq<char>>>)
    requires
        attempts + n < budget,
        n < replies.len(),
        forall|i: int| 0 <= i < n ==> #[trigger] replies[i] is None,
        answers(replies[n as int]),
    ensures
        discovery_outcome(attempts, budget, replies) == Some(
            StepV::Connect(trimmed(ws_url_of(replies[n as int]->Some_0)->Some_0)),
        ),
    decreases n,
{
    if n > 0 {
        let rest = replies.drop_first();
        assert forall|i: int| 0 <= i < n - 1 implies #[trigger] rest[i] is None by {
            assert(rest[i] == replies[i + 1]);
        }
        assert(rest[n - 1] == replies[n as int]);
        lemma_found_within_budget(attempts + 1, budget, (n - 1) as nat, rest);
    }
}

/// An endpoint that never answers within the budget ends the discovery
/// with "no browser instance".
pub proof fn lemma_gives_up_after_budget(attempts: nat, budget: nat, replies: Seq<Option<Seq<char>>>)
    requires
        attempts < budget,
        replies.len() >= budget - attempts,
        forall|i: int| 0 <= i < budget - attempts ==> #[trigger] replies[i] is None,
    ensures
        discovery_outcome(attempts, budget, replies) == Some(StepV::Fail(no_browser())),
    decreases budget - attempts,
{
    if attempts + 1 < budget {
        let rest = replies.drop_first();
        assert forall|i: int| 0 <= i < budget - (attempts + 1) implies #[trigger] rest[i] is None by {
            assert(rest[i] == replies[i + 1]);
        }
        lemma_gives_up_after_budget(attempts + 1, budget, rest);
    }
}

} // verus!
