//! A graceful-shutdown signalling primitive.
//!
//! [`signal`] creates one [`Signal`] and one [`Exit`] sharing a broadcast
//! transport. The `Signal` is the unique owner of the right to fire the single
//! shutdown event, either explicitly through [`Signal::fire`] or implicitly
//! when it is dropped. The `Exit` is a cloneable observer: every clone
//! attached to the same transport before the firing sees it, from whichever
//! thread it is polled or blocked on.
//!
//! The intended observable behaviour of a whole group of handles — one signal,
//! arbitrarily many exit clones — is written down and proved in [`group`]; the
//! per-poll decision of the race combinator lives in [`race`].

use vstd::prelude::*;

pub mod group;
pub mod race;
mod transport;

verus! {

/// Error returned by [`Signal::fire`] when the transport could not deliver the
/// event to every observer. Shutdown was still requested, so callers may
/// ignore it; see [`Signal::fire`] for what it leaves open.
#[derive(Clone, Copy, Debug, PartialEq, Eq, Structural)]
pub struct FireError;

/// Future-like observer that resolves when the shutdown event has fired.
///
/// Cloning produces an independent observer of the same event: every clone
/// taken while the event is still pending sees the one firing. Dropping a
/// clone abandons only that clone's interest and disturbs neither the signal
/// nor the other clones. The semantics of a whole group of handles is stated
/// and proved in [`group`].
pub struct Exit {
    ch: transport::EventChannel,
}

/// Unique sender handle that fires the shutdown event, either through
/// [`Signal::fire`] or implicitly when it is dropped. It is deliberately not
/// cloneable: at most one signal exists per transport.
pub struct Signal {
    ch: transport::EventChannel,
}

impl Exit {
    /// The identity of the transport this handle observes. Abstract: all that
    /// is known of it is which other handles share it.
    pub closed spec fn transport(self) -> int {
        transport::transport_of(self.ch)
    }

    /// Block the calling thread until the event has fired.
    ///
    /// Returns immediately when the event has already been delivered to this
    /// handle. A transport that can deliver nothing further (the close-
    /// without-fire path, which a signal's destructor prevents in practice)
    /// is treated the same as a completed one.
    pub fn wait(self) {
        let Exit { mut ch } = self;
        let _ = transport::recv_event(&mut ch);
    }

    /// Poll for the event once: `true` when it has fired and been delivered
    /// to this handle; on `false` the waker carried by `cx` will be woken
    /// when it arrives. This is the poll step of the future an `Exit` stands
    /// for; an asynchronous shell needs nothing else to await it.
    pub fn poll_event(&mut self, cx: &mut core::task::Context<'_>) -> (ready: bool)
        ensures
            final(self).transport() == old(self).transport(),
    {
        transport::poll_recv(&mut self.ch, cx)
    }
}

impl Clone for Exit {
    /// A new observer of the same transport. It sees every event delivered
    /// from this point on, independently of the clone it came from; an event
    /// that was already delivered before the clone was taken is not replayed
    /// to it — the transport hands a value only to the subscribers present at
    /// the send (see the caveat in [`group`]).
    fn clone(&self) -> (other: Self)
        ensures
            other.transport() == self.transport(),
    {
        Exit { ch: transport::fork_channel(&self.ch) }
    }
}

impl Signal {
    /// The identity of the transport this handle fires into. Abstract: all
    /// that is known of it is which other handles share it.
    pub closed spec fn transport(self) -> int {
        transport::transport_of(self.ch)
    }

    /// Fire the shutdown event explicitly.
    ///
    /// An `Err` means some observer vanished while the send was in flight;
    /// delivery may then have been partial — observers the transport had not
    /// reached yet were not started. Callers may ignore it (shutdown was
    /// requested, and dropping the signal repeats the broadcast until it is
    /// delivered), or call `fire` again themselves.
    ///
    /// Firing more than once (or dropping the signal after a fire) is
    /// harmless: the transport tolerates the redundant send, and each
    /// observer still resolves exactly once, to the same one event.
    pub fn fire(&self) -> (r: Result<(), FireError>) {
        fire_outcome(transport::send_event(&self.ch))
    }
}

impl Drop for Signal {
    /// Dropping the signal performs the fire, so a signal going out of scope
    /// is indistinguishable, from every observer's point of view, from an
    /// explicit [`Signal::fire`]. A send can fail when an observer vanishes
    /// while it is in flight, and such a failure can leave other, still-live
    /// observers without the event; swallowing it would leave them hanging
    /// for good, and this destructor must not unwind, so aborting is not
    /// available to it either. Instead the broadcast is repeated while the
    /// transport reports failure: a failure is reported only after the
    /// vanished subscriber has left the subscriber list (see
    /// `broadcaster`'s drop order), so the next attempt reaches the
    /// survivors, and the signal's own subscription always accepts the
    /// value. The attempts carry a generous bound, under which the loop
    /// provably terminates; only a failure persisting through every one of
    /// them — each needing a distinct observer to vanish mid-send — is
    /// abandoned.
    fn drop(&mut self)
        opens_invariants none
        no_unwind
    {
        let mut delivered = matches!(transport::send_event(&self.ch), Ok(()));
        let mut retries_left: usize = 10000;
        while !delivered && retries_left > 0
            decreases retries_left,
        {
            delivered = matches!(transport::send_event(&self.ch), Ok(()));
            retries_left = retries_left - 1;
        }
    }
}

/// Create a paired signal and exit: both are attached to one fresh broadcast
/// transport, so firing the signal at any later time — explicitly or by
/// dropping it — resolves the exit and every clone taken of it meanwhile.
pub fn signal() -> (pair: (Signal, Exit))
    ensures
        pair.0.transport() == pair.1.transport(),
{
    let ch = transport::new_channel();
    let rx = transport::fork_channel(&ch);
    (Signal { ch }, Exit { ch: rx })
}

/// Map the transport's send outcome to the caller-facing result of a fire:
/// the fire succeeds exactly when the send delivered the event everywhere.
pub fn fire_outcome(sent: Result<(), ()>) -> (r: Result<(), FireError>)
    ensures
        r is Ok <==> sent is Ok,
{
    match sent {
        Ok(()) => Ok(()),
        Err(()) => Err(FireError),
    }
}

} // verus!
