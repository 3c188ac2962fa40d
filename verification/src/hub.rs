//! The dispatcher: owns the registered hooks, matches an inbound
//! event against them, and decides which hooks a delivery is routed
//! to.

use vstd::prelude::*;
use crate::auth::{authenticate, signature_matches};
use crate::delivery::RawEvent;
use crate::hook::{Hook, HookV, event_matches, hook_matches};
use crate::json::json_of;
use crate::project::{project, projection_of, DecodeError};
use crate::rep::{Payload, PayloadV};

verus! {

/// Whether the ingress handler accepts a request: with no secret
/// configured verification is skipped entirely; with one, the request
/// must carry a signature and the signature must verify against the
/// body.
pub open spec fn ingress_accepts(
    secret: Option<String>,
    signature: Option<String>,
    body: Seq<char>,
) -> bool {
    match secret {
        None => true,
        Some(s) => match signature {
            Some(sig) => signature_matches(s@, body, sig@),
            None => false,
        },
    }
}

/// The views of a sequence of hooks.
pub open spec fn views_of(hs: Seq<Hook>) -> Seq<HookV> {
    hs.map_values(|h: Hook| h@)
}

/// The predicate a hook must meet to receive an event: used to state
/// what `Hub::filter` returns.
pub open spec fn matches_pred(ev: Seq<char>, p: PayloadV) -> spec_fn(HookV) -> bool {
    |h: HookV| hook_matches(h, ev, p)
}

/// The predicate a hook must meet to subscribe to an event name: used
/// to state what `Hub::hooks` returns.
pub open spec fn event_pred(ev: Seq<char>) -> spec_fn(HookV) -> bool {
    |h: HookV| event_matches(h, ev)
}

/// A hub is a handler for webhook event requests: the registered
/// hooks, in registration order, and the optional shared secret that
/// inbound requests are verified against.
pub struct Hub {
    pub secret: Option<String>,
    pub hooks: Vec<Hook>,
}

impl Hub {
    /// A hub with no hooks and no secret: every syntactically valid
    /// request is accepted unverified until a secret is configured.
    pub fn new() -> (h: Hub)
        ensures
            h.hooks@ == Seq::<Hook>::empty(),
            h.secret is None,
    {
        Hub { secret: None, hooks: Vec::new() }
    }

    /// Registers a hook: it is appended after every hook registered
    /// earlier, and the configured secret is untouched.
    pub fn add(&mut self, hook: Hook)
        ensures
            final(self).hooks@ == old(self).hooks@.push(hook),
            final(self).secret == old(self).secret,
    {
        self.hooks.push(hook);
    }

    /// Registers a hook and configures the shared secret deliveries
    /// must authenticate against.
    pub fn authenticated(&mut self, secret: &str, hook: Hook)
        ensures
            final(self).hooks@ == old(self).hooks@.push(hook),
            final(self).secret.deep_view() == Some(secret@),
    {
        self.secret = Some(secret.to_owned());
        self.hooks.push(hook);
    }

    /// Every registered hook that receives the event, in registration
    /// order: the hook subscribes to the event name (directly or by
    /// wildcard) and its payload constraints accept the payload. A
    /// hook registered twice is returned once per registration.
    pub fn filter(&self, event: &str, payload: &Payload) -> (r: Vec<Hook>)
        ensures
            views_of(r@) == views_of(self.hooks@).filter(matches_pred(event@, payload@)),
    {
        let ghost pred = matches_pred(event@, payload@);
        let mut r: Vec<Hook> = Vec::new();
        let mut i: usize = 0;
        proof {
            reveal(Seq::filter);
            assert(views_of(self.hooks@.take(0)) =~= Seq::<HookV>::empty());
            assert(views_of(r@) =~= Seq::<HookV>::empty());
        }
        while i < self.hooks.len()
            invariant
                i <= self.hooks@.len(),
                views_of(r@) == views_of(self.hooks@.take(i as int)).filter(pred),
                pred == matches_pred(event@, payload@),
            decreases self.hooks@.len() - i,
        {
            let ghost views_before = views_of(r@);
            let h = &self.hooks[i];
            if h.matches(event, payload) {
                r.push(h.clone());
            }
            i = i + 1;
            proof {
                reveal(Seq::filter);
                let taken = views_of(self.hooks@.take(i as int));
                assert(taken.drop_last() =~= views_of(self.hooks@.take(i - 1)));
                assert(taken.last() == self.hooks@[i - 1]@);
                if pred(self.hooks@[i - 1]@) {
                    assert(views_of(r@) =~= views_before.push(self.hooks@[i - 1]@));
                }
                assert(views_of(r@) == taken.filter(pred));
            }
        }
        proof {
            assert(self.hooks@.take(i as int) =~= self.hooks@);
        }
        r
    }

    /// Every registered hook that subscribes to the event name, in
    /// registration order, or `None` when no hook does.
    pub fn hooks(&self, event: &str) -> (r: Option<Vec<Hook>>)
        ensures
            match r {
                Some(v) => views_of(v@) == views_of(self.hooks@).filter(event_pred(event@))
                    && views_of(v@).len() > 0,
                None => views_of(self.hooks@).filter(event_pred(event@)).len() == 0,
            },
    {
        let ghost pred = event_pred(event@);
        let mut r: Vec<Hook> = Vec::new();
        let mut i: usize = 0;
        proof {
            reveal(Seq::filter);
            assert(views_of(self.hooks@.take(0)) =~= Seq::<HookV>::empty());
            assert(views_of(r@) =~= Seq::<HookV>::empty());
        }
        while i < self.hooks.len()
            invariant
                i <= self.hooks@.len(),
                views_of(r@) == views_of(self.hooks@.take(i as int)).filter(pred),
                pred == event_pred(event@),
            decreases self.hooks@.len() - i,
        {
            let ghost views_before = views_of(r@);
            let h = &self.hooks[i];
            if h.matches_event(event) {
                r.push(h.clone());
            }
            i = i + 1;
            proof {
                reveal(Seq::filter);
                let taken = views_of(self.hooks@.take(i as int));
                assert(taken.drop_last() =~= views_of(self.hooks@.take(i - 1)));
                assert(taken.last() == self.hooks@[i - 1]@);
                if pred(self.hooks@[i - 1]@) {
                    assert(views_of(r@) =~= views_before.push(self.hooks@[i - 1]@));
                }
                assert(views_of(r@) == taken.filter(pred));
            }
        }
        proof {
            assert(self.hooks@.take(i as int) =~= self.hooks@);
        }
        if r.len() == 0 {
            None
        } else {
            Some(r)
        }
    }

    /// Routes an inbound event: projects its payload and, on success,
    /// returns every matching hook in registration order, each of
    /// which is owed one delivery. On decode failure the event is
    /// dropped from dispatch with the error; it reaches no hook.
    pub fn dispatch(&self, ev: &RawEvent) -> (r: Result<Vec<Hook>, DecodeError>)
        ensures
            r matches Ok(hs) ==> json_of(ev.raw_payload@) matches Some(j) && projection_of(j)
                matches Some(pv) && views_of(hs@) == views_of(self.hooks@).filter(
                matches_pred(ev.name@, pv),
            ),
            r == Err::<Vec<Hook>, DecodeError>(DecodeError::Syntax) <==> json_of(ev.raw_payload@)
                is None,
            r == Err::<Vec<Hook>, DecodeError>(DecodeError::Shape) <==> (json_of(ev.raw_payload@)
                matches Some(j) && projection_of(j) is None),
    {
        match project(ev.raw_payload.as_str()) {
            Ok(p) => {
                let hs = self.filter(ev.name.as_str(), &p);
                Ok(hs)
            },
            Err(e) => Err(e),
        }
    }

    /// Handles one inbound request, already split into its headers and
    /// body. The reply is always `ok`, whatever happened inside. An
    /// event is produced exactly when both the event and delivery
    /// headers are present and the signature passes `ingress_accepts`
    /// against the configured secret; the event then carries the two
    /// headers and the body unchanged. A rejected or incomplete
    /// request produces nothing, so probing clients learn nothing.
    pub fn handle(
        &self,
        event_header: Option<String>,
        delivery_header: Option<String>,
        signature_header: Option<String>,
        body: String,
    ) -> (r: (String, Option<RawEvent>))
        ensures
            r.0@ == "ok"@,
            event_header is None || delivery_header is None ==> r.1 is None,
            event_header matches Some(e) ==> (delivery_header matches Some(d) ==> {
                &&& r.1 is Some <==> ingress_accepts(self.secret, signature_header, body@)
                &&& r.1 matches Some(ev) ==> ev.name == e && ev.delivery_id == d
                    && ev.raw_payload == body
            }),
    {
        let ok: String = "ok".to_owned();
        match (event_header, delivery_header) {
            (Some(e), Some(d)) => {
                let pass = match &self.secret {
                    None => true,
                    Some(s) => match &signature_header {
                        Some(sig) => authenticate(s.as_str(), body.as_str(), sig.as_str()),
                        None => false,
                    },
                };
                if pass {
                    (ok, Some(RawEvent { delivery_id: d, name: e, raw_payload: body }))
                } else {
                    (ok, None)
                }
            },
            _ => (ok, None),
        }
    }
}

} // verus!
