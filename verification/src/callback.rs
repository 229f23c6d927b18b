//! The bookkeeping of the bridge between the connector's delivery thread and
//! the handler: what a delivery leads to, and which handler may be released
//! once a registration has been answered.

use vstd::prelude::*;
use vstd::string::*;
use crate::buffers::{as_nonnull_txc_buf, NULL_POINTER_MESSAGE};
use crate::error::INTERNAL_PREFIX;

verus! {

/// What a panic is reported with where it carries no text.
pub const UNKNOWN_PANIC_REASON: &'static str = "Неизвестная причина";

/// What the bridge does with one call of the connector.
#[derive(Debug)]
pub enum Dispatch {
    /// Hand the buffer at this address, which is not null, to the handler.
    Invoke(usize),
    /// The connector broke its protocol: report this text and end the process.
    Abort(String),
}

/// Decides what a call of the connector with the buffer at `buffer` leads to:
/// the handler is invoked on every buffer but a null one, which nothing can
/// be done about.
pub fn dispatch(buffer: usize) -> (d: Dispatch)
    ensures
        buffer != 0 ==> d == Dispatch::Invoke(buffer),
        buffer == 0 ==> (d matches Dispatch::Abort(text) && text@ == INTERNAL_PREFIX@
            + NULL_POINTER_MESSAGE@),
{
    match as_nonnull_txc_buf(buffer) {
        Ok(address) => Dispatch::Invoke(address),
        Err(e) => Dispatch::Abort(e.to_text()),
    }
}

/// The reason that a contained panic is reported with: its own text, where it
/// has one.
pub fn panic_reason(payload: Option<String>) -> (reason: String)
    ensures
        reason@ == match payload {
            Some(text) => text@,
            None => UNKNOWN_PANIC_REASON@,
        },
{
    match payload {
        Some(text) => text,
        None => String::from_str(UNKNOWN_PANIC_REASON),
    }
}

/// What a registration has come to, and what may be released because of it.
#[derive(Debug)]
pub enum Settled<P> {
    /// The connector accepted the handler and calls it from now on. It holds
    /// the handler that was registered before, if there was one. That one may
    /// still be running on the delivery thread up to the moment at which the
    /// registration returned, so it is released behind a full memory barrier
    /// and not before.
    Replaced(Option<P>),
    /// The connector refused the handler and goes on calling the one it had.
    /// It holds the handler that was refused, which the connector never saw.
    Refused(P),
}

/// The single place that owns the handler which the connector currently calls.
///
/// A handler's storage may be released only when the connector can no longer
/// be calling it. The slot therefore gives a handler up in one way only: as
/// the answer to a registration that has already reported its outcome.
pub struct HandlerSlot<P> {
    current: Option<P>,
}

impl<P> HandlerSlot<P> {
    /// The handler that the connector calls, if one is registered.
    pub closed spec fn current(&self) -> Option<P> {
        self.current
    }

    /// A slot for a connector with which no handler is registered yet.
    pub fn new() -> (slot: Self)
        ensures
            slot.current() is None,
    {
        HandlerSlot { current: None }
    }

    /// Whether a handler is registered.
    pub fn is_occupied(&self) -> (b: bool)
        ensures
            b == self.current() is Some,
    {
        self.current.is_some()
    }

    /// Records the outcome of registering `payload` with the connector and
    /// hands back what may now be released.
    ///
    /// After a registration that succeeded the connector calls `payload`, so
    /// the slot keeps it and gives up the handler that it replaced. After one
    /// that failed the connector goes on calling the handler it had, so the
    /// slot keeps that and gives `payload` back.
    pub fn settle(&mut self, registered: bool, payload: P) -> (settled: Settled<P>)
        ensures
            registered ==> final(self).current() == Some(payload) && settled == Settled::Replaced(
                old(self).current(),
            ),
            !registered ==> final(self).current() == old(self).current() && settled
                == Settled::Refused(payload),
    {
        if registered {
            let previous = self.current.take();
            self.current = Some(payload);
            Settled::Replaced(previous)
        } else {
            Settled::Refused(payload)
        }
    }
}

/// The slot holds what the connector calls. If it does so before a
/// registration, it does so after it, whatever the outcome; and what is
/// given up is never the handler that the connector calls from then on,
/// unless the same handler was offered twice.
pub proof fn slot_follows_the_connector<P>(
    before: HandlerSlot<P>,
    after: HandlerSlot<P>,
    registered: bool,
    payload: P,
    settled: Settled<P>,
    called_before: Option<P>,
)
    requires
        before.current() == called_before,
        registered ==> after.current() == Some(payload) && settled == Settled::Replaced(
            before.current(),
        ),
        !registered ==> after.current() == before.current() && settled == Settled::Refused(payload),
    ensures
        after.current() == called_after(called_before, registered, payload),
        settled matches Settled::Replaced(Some(released)) ==> (Some(released) == after.current()
            ==> before.current() == Some(payload)),
        settled matches Settled::Refused(released) ==> (Some(released) == after.current()
            ==> before.current() == Some(payload)),
{
}

/// The handler that the connector calls after a registration of `payload`
/// that it answered with `registered`, where it called `called_before`.
pub open spec fn called_after<P>(called_before: Option<P>, registered: bool, payload: P) -> Option<
    P,
> {
    if registered {
        Some(payload)
    } else {
        called_before
    }
}

} // verus!
