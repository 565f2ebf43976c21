//! Diagnostic tracing: the levels, the one slot that holds the subscriber,
//! and the adapter that delivers the engine's messages to it.
//!
//! The engine has a single trace subscriber for the whole process; so has
//! this library. The embedding code keeps one [`TraceSlot`] behind a lock.

use crate::bridge::BridgeError;
use crate::util::utf8_to_string;
use vstd::prelude::*;
use vstd::utf8::{decode_utf8, valid_utf8};

verus! {

/// Available tracing levels.  When tracing is set to a particular level,
/// callers will be provided tracing at the given level and all lower levels.
#[derive(Clone, Copy, Debug, PartialEq, Eq)]
pub enum TraceLevel {
    /// No tracing at all.
    Off,
    Fatal,
    Error,
    Warn,
    Info,
    Debug,
    Trace,
}

/// The slot of the process-wide trace subscriber. `H` is the handle by which
/// the subscriber is called; the slot never looks into it.
pub struct TraceSlot<H> {
    subscriber: Option<H>,
}

impl<H> View for TraceSlot<H> {
    type V = Option<H>;

    closed spec fn view(&self) -> Option<H> {
        self.subscriber
    }
}

impl<H> TraceSlot<H> {
    /// A slot without a subscriber.
    pub fn new() -> (slot: Self)
        ensures
            slot@ is None,
    {
        TraceSlot { subscriber: None }
    }

    /// Puts `subscriber` into the slot. Whoever was there before is replaced
    /// and handed back.
    pub fn set(&mut self, subscriber: H) -> (replaced: Option<H>)
        ensures
            final(self)@ == after_set(old(self)@, subscriber),
            replaced == old(self)@,
    {
        let mut held = Some(subscriber);
        std::mem::swap(&mut self.subscriber, &mut held);
        held
    }

    /// Empties the slot and hands back the subscriber that was in it.
    pub fn clear(&mut self) -> (removed: Option<H>)
        ensures
            final(self)@ == after_clear(old(self)@),
            removed == old(self)@,
    {
        let mut held = None;
        std::mem::swap(&mut self.subscriber, &mut held);
        held
    }

    /// The subscriber, if there is one.
    pub fn subscriber(&self) -> (held: Option<&H>)
        ensures
            held is Some <==> self@ is Some,
            held matches Some(h) ==> self@ == Some(*h),
    {
        self.subscriber.as_ref()
    }
}

/// Whether a message is handed to the subscriber at all: there must be a
/// subscriber, and the message must be text.
pub open spec fn is_traced<H>(slot: Option<H>, message: Seq<u8>) -> bool {
    slot is Some && valid_utf8(message)
}

/// The adapter that sits in the engine's trace slot. `invoke` is one
/// synchronous invocation of the subscriber. A message that is not text, or
/// that arrives while nobody subscribes, is dropped; so is the failure of an
/// invocation, for tracing must never fail the operation that is traced. The
/// result says whether the subscriber was called.
pub fn on_trace<H, F>(slot: &TraceSlot<H>, invoke: F, level: TraceLevel, message: &[u8]) -> (called: bool) where
    F: Fn(&H, TraceLevel, String) -> Result<(), BridgeError>,

    requires
        forall|h: &H, l: TraceLevel, text: String| call_requires(invoke, (h, l, text)),
    ensures
        called == is_traced(slot@, message@),
        called ==> exists|h: &H, text: String, answer: Result<(), BridgeError>|
            slot@ == Some(*h) && text@ == decode_utf8(message@) && call_ensures(
                invoke,
                (h, level, text),
                answer,
            ),
{
    match slot.subscriber() {
        Some(h) => match utf8_to_string(message) {
            Some(text) => {
                let ghost sent = text;
                let answer = invoke(h, level, text);
                proof {
                    assert(slot@ == Some(*h) && sent@ == decode_utf8(message@) && call_ensures(
                        invoke,
                        (h, level, sent),
                        answer,
                    ));
                }
                true
            },
            None => false,
        },
        None => false,
    }
}

/// The slot after `subscriber` was set, whatever it held before.
pub open spec fn after_set<H>(slot: Option<H>, subscriber: H) -> Option<H> {
    Some(subscriber)
}

/// The slot after it was cleared, whatever it held before.
pub open spec fn after_clear<H>(slot: Option<H>) -> Option<H> {
    None
}

/// Setting replaces: of two subscribers set one after the other only the
/// second is left, as if the first had never been set. Clearing is
/// idempotent, and a cleared slot traces nothing.
pub proof fn lemma_slot_lifecycle<H>(slot: Option<H>, first: H, second: H, message: Seq<u8>)
    ensures
        after_set(after_set(slot, first), second) == after_set(slot, second),
        after_clear(after_clear(slot)) == after_clear(slot),
        after_clear(after_set(slot, first)) == after_clear(slot),
        !is_traced(after_clear(slot), message),
{
}

} // verus!
