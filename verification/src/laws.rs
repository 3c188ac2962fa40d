//! The routing and delivery laws: what hook matching, filtering and
//! the delivery queue guarantee for every hook set, event and payload.

use vstd::prelude::*;
use crate::delivery::Delivery;
use crate::hook::{HookV, event_matches, hook_matches, payload_matches};
use crate::hub::matches_pred;
use crate::json::JsonV;
use crate::project::{field_of, payload_of, ping_of, projection_of};
use crate::rep::PayloadV;

verus! {

/// Deliveries enqueued on the same queue in quick succession come back
/// strictly in enqueue order: after `a` and then `b` are pushed onto a
/// queue holding `s`, `a` sits ahead of `b`, and stays ahead however
/// many older deliveries the worker has already drained.
pub proof fn lemma_queue_fifo(s: Seq<Delivery>, a: Delivery, b: Delivery)
    ensures
        s.push(a).push(b)[s.len() as int] == a,
        s.push(a).push(b)[s.len() as int + 1] == b,
        forall|k: int|
            0 <= k <= s.len() ==> #[trigger] s.push(a).push(b).skip(k)[s.len() - k] == a
                && s.push(a).push(b).skip(k)[s.len() - k + 1] == b,
{
}

/// A hook subscribed to the wildcard matches every event name.
pub proof fn lemma_wildcard_matches_all(h: HookV, ev: Seq<char>)
    requires
        h.events.contains("*"@),
    ensures
        event_matches(h, ev),
{
    let i = choose|i: int| 0 <= i < h.events.len() && h.events[i] == "*"@;
    assert(0 <= i < h.events.len() && (h.events[i] == ev || h.events[i] == "*"@));
}

/// For two distinct hooks whose event sets are disjoint, neither
/// subscribed to the wildcard and neither constraining the payload, an
/// event named in the first hook's set is routed to exactly the first
/// hook: filtering the pair returns it alone.
pub proof fn lemma_filter_only_matching_hook(h1: HookV, h2: HookV, ev: Seq<char>, p: PayloadV)
    requires
        h1.events.contains(ev),
        forall|e: Seq<char>| h1.events.contains(e) ==> !h2.events.contains(e),
        !h1.events.contains("*"@),
        !h2.events.contains("*"@),
        h1.organization is None,
        h1.repository is None,
        h2.organization is None,
        h2.repository is None,
    ensures
        h1 != h2,
        hook_matches(h1, ev, p),
        !hook_matches(h2, ev, p),
        seq![h1, h2].filter(matches_pred(ev, p)) == seq![h1],
{
    let i = choose|i: int| 0 <= i < h1.events.len() && h1.events[i] == ev;
    assert(0 <= i < h1.events.len() && (h1.events[i] == ev || h1.events[i] == "*"@));
    assert(event_matches(h1, ev));
    assert(payload_matches(h1, p));
    assert(!h2.events.contains(ev));
    assert forall|j: int| 0 <= j < h2.events.len() implies !(h2.events[j] == ev || h2.events[j]
        == "*"@) by {
        if h2.events[j] == ev {
            assert(h2.events.contains(ev));
        }
        if h2.events[j] == "*"@ {
            assert(h2.events.contains("*"@));
        }
    }
    assert(!event_matches(h2, ev));
    assert(h1.events.contains(ev) && !h2.events.contains(ev));
    let pair = seq![h1, h2];
    let pred = matches_pred(ev, p);
    reveal(Seq::filter);
    assert(pred(h1) && !pred(h2));
    assert(seq![h1].drop_last() =~= Seq::<HookV>::empty());
    assert(Seq::<HookV>::empty().filter(pred) =~= Seq::<HookV>::empty());
    assert(seq![h1].filter(pred) =~= Seq::<HookV>::empty().push(h1));
    assert(seq![h1].filter(pred) =~= seq![h1]);
    assert(pair.drop_last() =~= seq![h1]);
    assert(pair.last() == h2);
    assert(pair.filter(pred) == pair.drop_last().filter(pred));
    assert(pair.filter(pred) =~= seq![h1]);
}

/// Decoding a body wrapped as `{"hook": ...}` through the Ping
/// fallback yields the same payload as decoding the wrapped value
/// directly: for any object that carries a `hook` field and cannot
/// itself be a direct payload (no `sender` field), projection is
/// exactly the direct decode of the wrapped value.
pub proof fn lemma_ping_fallback(j: JsonV, m: Map<Seq<char>, JsonV>)
    requires
        m.dom().contains("hook"@),
        !m.dom().contains("sender"@),
        m["hook"@] == j,
    ensures
        projection_of(JsonV::Obj(m)) == payload_of(j),
{
    assert(field_of(JsonV::Obj(m), "sender"@) is None);
    assert(payload_of(JsonV::Obj(m)) is None);
    assert(field_of(JsonV::Obj(m), "hook"@) == Some(j));
    assert(ping_of(JsonV::Obj(m)) == payload_of(j));
}

} // verus!
