//! The handoff between the blocking input thread and the async dispatch
//! loop, modelled as what it is: a slot for at most one pending send intent.
//!
//! The running client carries intents across threads through a bounded
//! channel of capacity one; this model pins down the discipline that bound
//! enforces. An offer is accepted only while the slot is free — a sender
//! whose offer is refused must wait and offer again, which is the
//! backpressure the input loop feels — and taking always frees the slot.

use crate::input::{SendIntent, SendIntentView};
use vstd::prelude::*;

verus! {

/// A capacity-one handoff slot for send intents.
pub struct Handoff {
    slot: Option<SendIntent>,
}

impl Handoff {
    /// What the slot holds, as a view: at most one pending intent.
    pub closed spec fn pending(self) -> Option<SendIntentView> {
        match self.slot {
            Some(intent) => Some(intent@),
            None => None,
        }
    }

    /// How many intents are pending: zero or one.
    pub open spec fn len(self) -> nat {
        if self.pending() is Some {
            1
        } else {
            0
        }
    }

    /// The handoff never holds more than one pending intent.
    pub proof fn lemma_capacity(self)
        ensures
            self.len() <= 1,
    {
    }

    /// A fresh, empty handoff.
    pub fn new() -> (q: Self)
        ensures
            q.pending() is None,
    {
        Handoff { slot: None }
    }

    /// Whether an offer would be accepted right now.
    pub fn is_free(&self) -> (b: bool)
        ensures
            b == (self.pending() is None),
    {
        match self.slot {
            None => true,
            Some(_) => false,
        }
    }

    /// Offer an intent: accepted exactly when the slot is free; a refused
    /// offer changes nothing and leaves the intent with the caller.
    pub fn offer(&mut self, intent: SendIntent) -> (back: Option<SendIntent>)
        ensures
            old(self).pending() is None ==> back is None && final(self).pending() == Some(intent@),
            old(self).pending() is Some ==> (back matches Some(b) && b@ == intent@
                && final(self).pending() == old(self).pending()),
    {
        match self.slot {
            None => {
                self.slot = Some(intent);
                None
            },
            Some(_) => Some(intent),
        }
    }

    /// Take the pending intent, if any, freeing the slot.
    pub fn take(&mut self) -> (r: Option<SendIntent>)
        ensures
            final(self).pending() is None,
            match r {
                Some(intent) => old(self).pending() == Some(intent@),
                None => old(self).pending() is None,
            },
    {
        self.slot.take()
    }
}

} // verus!
