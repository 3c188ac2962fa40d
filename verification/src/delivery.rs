//! Inbound events, per-hook deliveries, and the FIFO queue a hook's
//! worker drains.

use vstd::prelude::*;
use crate::rep::Payload;

verus! {

/// An inbound webhook event, immutable once built from a request.
pub struct RawEvent {
    pub delivery_id: String,
    pub name: String,
    pub raw_payload: String,
}

/// Everything a hook invocation knows about one webhook request.
pub struct Delivery {
    pub id: String,
    pub event: String,
    pub payload: Payload,
    pub unparsed_payload: String,
    pub signature: Option<String>,
}

impl Delivery {
    /// Builds a delivery from an accepted raw event and its typed
    /// payload projection.
    pub fn new(raw: RawEvent, payload: Payload, signature: Option<String>) -> (d: Delivery)
        ensures
            d.id == raw.delivery_id,
            d.event == raw.name,
            d.payload == payload,
            d.unparsed_payload == raw.raw_payload,
            d.signature == signature,
    {
        Delivery {
            id: raw.delivery_id,
            event: raw.name,
            payload,
            unparsed_payload: raw.raw_payload,
            signature,
        }
    }
}

/// The delivery channel of one hook worker: deliveries leave in the
/// order they entered, so a hook sees its events strictly in enqueue
/// order.
pub struct DeliveryQueue {
    items: Vec<Delivery>,
}

impl DeliveryQueue {
    /// The deliveries waiting in the queue, oldest first.
    pub closed spec fn pending(&self) -> Seq<Delivery> {
        self.items@
    }

    /// An empty queue.
    pub fn new() -> (q: DeliveryQueue)
        ensures
            q.pending() == Seq::<Delivery>::empty(),
    {
        DeliveryQueue { items: Vec::new() }
    }

    /// How many deliveries are waiting.
    pub fn len(&self) -> (n: usize)
        ensures
            n == self.pending().len(),
    {
        self.items.len()
    }

    /// Appends a delivery at the back of the queue.
    pub fn push(&mut self, d: Delivery)
        ensures
            final(self).pending() == old(self).pending().push(d),
    {
        self.items.push(d);
    }

    /// Removes and returns the oldest delivery, or `None` on an empty
    /// queue: together with `push` this is exactly first-in,
    /// first-out.
    pub fn pop(&mut self) -> (r: Option<Delivery>)
        ensures
            old(self).pending().len() == 0 ==> r is None && final(self).pending()
                == old(self).pending(),
            old(self).pending().len() > 0 ==> r == Some(old(self).pending()[0])
                && final(self).pending() == old(self).pending().drop_first(),
    {
        if self.items.len() == 0 {
            None
        } else {
            let d = self.items.remove(0);
            proof {
                assert(self.items@ =~= old(self).items@.drop_first());
            }
            Some(d)
        }
    }
}

} // verus!
