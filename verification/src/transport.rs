//! Trusted boundary to the broadcast transport.
//!
//! The transport — one value delivered to every live subscriber handle — is
//! consumed as a black box: `broadcaster::BroadcastChannel`, driven to
//! completion where a blocking operation is wanted by `futures`' executor.
//! Each function here makes exactly one call into it; everything that decides
//! anything lives outside this module and is verified.
//!
//! What a send or a receive returns depends on which other handles are live
//! and on what other threads do meanwhile, so the contracts below state only
//! what holds of every outcome; nothing here promises which outcome comes.

use core::future::Future;
use vstd::prelude::*;

verus! {

/// One subscriber handle into the shared broadcast transport, opaque to
/// verification. Holds `broadcaster::BroadcastChannel`, whose own generics
/// Verus refuses to take as a declared type (their `Unpin` bounds are beyond
/// it), so the whole handle is taken on trust instead.
#[verifier::external_body]
pub(crate) struct EventChannel {
    pub(crate) inner: broadcaster::BroadcastChannel<()>,
}

#[verifier::external_type_specification]
#[verifier::external_body]
pub struct ExContext<'a>(core::task::Context<'a>);

/// The identity of the shared transport a handle subscribes to. Abstract:
/// nothing is known of its values beyond equality. Two handles with equal
/// identity are subscribers of the same transport — the contracts below say
/// which calls preserve it, and the handle types' pairing guarantees are
/// stated over it.
pub uninterp spec fn transport_of(ch: EventChannel) -> int;

/// Relies on `broadcaster::BroadcastChannel::new`: a fresh transport whose
/// only subscriber is the returned handle.
#[verifier::external_body]
pub(crate) fn new_channel() -> EventChannel {
    EventChannel { inner: broadcaster::BroadcastChannel::new() }
}

/// Relies on `broadcaster`'s `Clone` impl: the new handle registers a fresh
/// sender in the same shared slab, so it subscribes to the same transport and
/// receives every value sent from now on — not values delivered before the
/// fork — independently of the handle it was forked from.
#[verifier::external_body]
pub(crate) fn fork_channel(ch: &EventChannel) -> (r: EventChannel)
    ensures
        transport_of(r) == transport_of(*ch),
{
    EventChannel { inner: ch.inner.clone() }
}

/// Relies on `broadcaster::BroadcastChannel::send`. On `Ok` the value was
/// handed to every subscriber that was live at the time of the send, this one
/// included. `Err` arises only when a subscriber vanished while the send was
/// in flight — and the sends are driven in turn, stopping at the first
/// failure, so on `Err` the delivery may be partial: subscribers after the
/// vanished one may not have been started. For this transport the send
/// completes on its first poll — its unbounded sinks never block — so it is
/// driven with a no-op waker and never suspends or unwinds, and may be called
/// from any thread, an executor's own among them (a send somehow left pending
/// would be reported as `Err` too).
#[verifier::external_body]
pub(crate) fn send_event(ch: &EventChannel) -> Result<(), ()>
    opens_invariants none
    no_unwind
{
    let waker = futures::task::noop_waker();
    let mut cx = core::task::Context::from_waker(&waker);
    let mut fut = Box::pin(ch.inner.send(&()));
    match fut.as_mut().poll(&mut cx) {
        core::task::Poll::Ready(outcome) => outcome.map_err(|_| ()),
        core::task::Poll::Pending => Err(()),
    }
}

/// Relies on `broadcaster::BroadcastChannel::recv`, driven by
/// `futures::executor::block_on`: blocks the calling thread until a value has
/// been delivered to this handle (`Some`), or until the transport can deliver
/// no further value to it (`None`).
#[verifier::external_body]
pub(crate) fn recv_event(ch: &mut EventChannel) -> Option<()> {
    futures::executor::block_on(ch.inner.recv())
}

/// Relies on `broadcaster::BroadcastChannel::recv`, polled once: `true` once a
/// value has been delivered to this handle; on `false` the waker carried by
/// `cx` has been registered to be woken when one arrives. Polling does not
/// reattach the handle: it stays a subscriber of the same transport.
#[verifier::external_body]
pub(crate) fn poll_recv(ch: &mut EventChannel, cx: &mut core::task::Context<'_>) -> (ready: bool)
    ensures
        transport_of(*final(ch)) == transport_of(*old(ch)),
{
    let mut fut = ch.inner.recv();
    core::pin::Pin::new(&mut fut).poll(cx).is_ready()
}

} // verus!
