//! Hooks: a match predicate plus a command template, and the rules
//! that decide which events a hook receives and how a finished command
//! invocation is judged.

use vstd::prelude::*;
use crate::rep::{Payload, PayloadV};
use crate::delivery::Delivery;

verus! {

/// The mathematical shape of a hook: every contract speaks of this.
#[verifier::ext_equal]
pub ghost struct HookV {
    pub cmd: Seq<char>,
    pub events: Seq<Seq<char>>,
    pub name: Option<Seq<char>>,
    pub organization: Option<Seq<char>>,
    pub repository: Option<Seq<char>>,
    pub sender: Option<Seq<char>>,
}

/// A configured hook: a command to run, the event names it subscribes
/// to (possibly the wildcard `*`), and optional constraints on the
/// payload. Immutable after registration. The `sender` field is
/// carried configuration; filtering constrains only the organization
/// and the repository.
pub struct Hook {
    pub cmd: String,
    pub events: Vec<String>,
    pub name: Option<String>,
    pub organization: Option<String>,
    pub repository: Option<String>,
    pub sender: Option<String>,
}

impl View for Hook {
    type V = HookV;

    open spec fn view(&self) -> HookV {
        HookV {
            cmd: self.cmd@,
            events: self.events.deep_view(),
            name: self.name.deep_view(),
            organization: self.organization.deep_view(),
            repository: self.repository.deep_view(),
            sender: self.sender.deep_view(),
        }
    }
}

/// The derived name of a hook: its configured name, defaulting to its
/// command. Hooks are compared for matching purposes by this name.
pub open spec fn hook_name_of(h: HookV) -> Seq<char> {
    match h.name {
        Some(n) => n,
        None => h.cmd,
    }
}

/// Whether a hook subscribes to an event name: the name itself or the
/// wildcard appears in its `events` set.
pub open spec fn event_matches(h: HookV, ev: Seq<char>) -> bool {
    exists|i: int|
        0 <= i < h.events.len() && (#[trigger] h.events[i] == ev || h.events[i] == "*"@)
}

/// Whether a hook's payload constraints accept a payload: each of the
/// organization and repository constraints is unset or equals the
/// corresponding payload field.
pub open spec fn payload_matches(h: HookV, p: PayloadV) -> bool {
    &&& match h.organization {
        Some(o) => p.organization == Some(o),
        None => true,
    }
    &&& match h.repository {
        Some(r) => match p.repository {
            Some(pr) => pr.name == r,
            None => false,
        },
        None => true,
    }
}

/// Whether a hook receives an event: it subscribes to the event name
/// and its payload constraints accept the payload.
pub open spec fn hook_matches(h: HookV, ev: Seq<char>, p: PayloadV) -> bool {
    event_matches(h, ev) && payload_matches(h, p)
}

impl Hook {
    /// A hook that runs `cmd` on the given event names, with no
    /// payload constraints and no explicit name.
    pub fn for_events(cmd: String, events: Vec<String>) -> (h: Hook)
        ensures
            h@ == (HookV {
                cmd: cmd@,
                events: events.deep_view(),
                name: None,
                organization: None,
                repository: None,
                sender: None,
            }),
    {
        Hook { cmd, events, name: None, organization: None, repository: None, sender: None }
    }

    /// The derived name of the hook: the configured one, defaulting to
    /// the command.
    pub fn name(&self) -> (r: String)
        ensures
            r@ == hook_name_of(self@),
    {
        match &self.name {
            Some(n) => n.clone(),
            None => self.cmd.clone(),
        }
    }

    /// Whether the hook subscribes to the event name, directly or by
    /// wildcard.
    pub fn matches_event(&self, event: &str) -> (r: bool)
        ensures
            r == event_matches(self@, event@),
    {
        let ev: String = event.to_owned();
        let wild: String = "*".to_owned();
        let mut i: usize = 0;
        while i < self.events.len()
            invariant
                i <= self.events@.len(),
                ev@ == event@,
                wild@ == "*"@,
                forall|j: int|
                    0 <= j < i ==> !(#[trigger] self@.events[j] == event@ || self@.events[j]
                        == "*"@),
            decreases self.events@.len() - i,
        {
            if self.events[i] == ev || self.events[i] == wild {
                proof {
                    assert(self@.events[i as int] == self.events@[i as int]@);
                    assert(event_matches(self@, event@));
                }
                return true;
            }
            i = i + 1;
        }
        false
    }

    /// Whether the hook's payload constraints accept the payload.
    pub fn matches_payload(&self, p: &Payload) -> (r: bool)
        ensures
            r == payload_matches(self@, p@),
    {
        let org_ok = match &self.organization {
            None => true,
            Some(o) => match &p.organization {
                Some(po) => *o == po.login,
                None => false,
            },
        };
        let repo_ok = match &self.repository {
            None => true,
            Some(rn) => match &p.repository {
                Some(pr) => *rn == pr.name,
                None => false,
            },
        };
        org_ok && repo_ok
    }

    /// Whether the hook receives the event: it subscribes to the event
    /// name and its constraints accept the payload.
    pub fn matches(&self, event: &str, p: &Payload) -> (r: bool)
        ensures
            r == hook_matches(self@, event@, p@),
    {
        self.matches_event(event) && self.matches_payload(p)
    }

    /// The environment a delivery is materialized into for the hook's
    /// command: exactly the delivery id, the event name and the raw
    /// payload, under their fixed variable names.
    pub fn env_for(&self, d: &Delivery) -> (r: Vec<(String, String)>)
        ensures
            r@.len() == 3,
            r@[0].0@ == "GH_DELIVERY"@ && r@[0].1@ == d.id@,
            r@[1].0@ == "GH_EVENT_NAME"@ && r@[1].1@ == d.event@,
            r@[2].0@ == "GH_EVENT_PAYLOAD"@ && r@[2].1@ == d.unparsed_payload@,
    {
        let mut r: Vec<(String, String)> = Vec::new();
        r.push(("GH_DELIVERY".to_owned(), d.id.clone()));
        r.push(("GH_EVENT_NAME".to_owned(), d.event.clone()));
        r.push(("GH_EVENT_PAYLOAD".to_owned(), d.unparsed_payload.clone()));
        r
    }
}

impl Clone for Hook {
    /// A clone preserves the hook's whole shape.
    fn clone(&self) -> (r: Self)
        ensures
            r@ == self@,
    {
        let r = Hook {
            cmd: self.cmd.clone(),
            events: clone_strings(&self.events),
            name: clone_opt_string(&self.name),
            organization: clone_opt_string(&self.organization),
            repository: clone_opt_string(&self.repository),
            sender: clone_opt_string(&self.sender),
        };
        proof {
            assert(r.events.deep_view() =~= self.events.deep_view());
            assert(r@ =~= self@);
        }
        r
    }
}

/// Copies a vector of strings element by element.
fn clone_strings(v: &Vec<String>) -> (r: Vec<String>)
    ensures
        r@.len() == v@.len(),
        forall|i: int| 0 <= i < v@.len() ==> #[trigger] r@[i] == v@[i],
{
    let mut r: Vec<String> = Vec::new();
    let mut i: usize = 0;
    while i < v.len()
        invariant
            i <= v@.len(),
            r@.len() == i,
            forall|j: int| 0 <= j < i ==> #[trigger] r@[j] == v@[j],
        decreases v@.len() - i,
    {
        r.push(v[i].clone());
        i = i + 1;
    }
    r
}

/// Copies an optional string.
fn clone_opt_string(o: &Option<String>) -> (r: Option<String>)
    ensures
        r == *o,
{
    match o {
        Some(s) => Some(s.clone()),
        None => None,
    }
}

/// How a hook's command invocation ended.
pub enum RunOutcome {
    /// The shell or command could not be launched at all.
    SpawnFailed,
    /// The process exited with the given code.
    Exited(i32),
    /// The process was terminated by the given signal, with no exit
    /// code.
    Signaled(i32),
    /// The exit status could not be retrieved.
    StatusUnknown,
}

/// Whether an outcome counts as a successful run: exactly a clean exit
/// with code zero. Spawn failure, a non-zero code, a signal and a
/// status error all fail.
pub open spec fn run_succeeded(o: RunOutcome) -> bool {
    match o {
        RunOutcome::Exited(c) => c == 0,
        _ => false,
    }
}

/// Judges a finished command invocation: true exactly on a clean exit
/// with code zero.
pub fn run_verdict(o: &RunOutcome) -> (r: bool)
    ensures
        r == run_succeeded(*o),
{
    match o {
        RunOutcome::Exited(c) => *c == 0,
        _ => false,
    }
}

} // verus!
