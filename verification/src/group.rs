//! The observable semantics of one shutdown group.
//!
//! A group is one [`crate::Signal`] together with every [`crate::Exit`] clone
//! attached to the same broadcast transport. The handles themselves wrap an
//! opaque transport, so the guarantees the pair is meant to give — one event,
//! delivered to every observer, drop of the signal indistinguishable from an
//! explicit fire — are stated here, over an explicit state machine, and
//! proved once and for all sequences of operations.
//!
//! One caveat separates this model from the executable handles. The model
//! describes the transport contract the group is designed against, under
//! which a clone taken *after* the firing still observes the event (see
//! [`lemma_fan_out`]). The transport actually consumed — `broadcaster` —
//! hands a value only to the subscribers present at the send and never
//! replays it, so an executable [`crate::Exit`] cloned after the event was
//! delivered does not resolve. That law therefore holds of the model, not of
//! the executable pair; take every clone that must observe the shutdown
//! while the event is still pending.

use vstd::prelude::*;

use crate::FireError;

verus! {

/// The state one exit clone contributes to a group: whether the clone is
/// still live, and whether it has already observed the shutdown event.
#[derive(Clone, Copy, Debug, PartialEq, Eq, Structural)]
pub struct ExitSlot {
    /// The clone has not been dropped.
    pub live: bool,
    /// The clone has observed the event (a poll or wait of it completed).
    pub resolved: bool,
}

/// The abstract state of one shutdown group: the unique signal, the single
/// fired-or-not event, and one slot per exit clone ever created.
pub struct Group {
    /// The unique signal handle has not been dropped.
    pub signal_live: bool,
    /// The shutdown event has been fired (explicitly or by dropping the signal).
    pub fired: bool,
    /// One slot per exit clone, in order of creation; slots are never removed,
    /// a dropped clone merely stops being live.
    pub exits: Vec<ExitSlot>,
}

/// Spec-level image of a [`Group`].
#[verifier::ext_equal]
pub ghost struct GroupView {
    pub signal_live: bool,
    pub fired: bool,
    pub exits: Seq<ExitSlot>,
}

impl View for Group {
    type V = GroupView;

    open spec fn view(&self) -> GroupView {
        GroupView { signal_live: self.signal_live, fired: self.fired, exits: self.exits@ }
    }
}

impl GroupView {
    /// A group is well formed when no clone has observed an event that was
    /// never fired.
    pub open spec fn wf(self) -> bool {
        forall|i: int| 0 <= i < self.exits.len() ==> (#[trigger] self.exits[i]).resolved ==> self.fired
    }

    /// What a poll of clone `i` reports in this state: the event is observed
    /// exactly when it has fired, whichever clone asks.
    pub open spec fn poll_ready(self) -> bool {
        self.fired
    }
}

/// One operation on a shutdown group.
pub enum Action {
    /// The signal fires the event explicitly.
    Fire,
    /// The signal is dropped; its destructor fires the event.
    DropSignal,
    /// A new exit clone is created from live clone `from`.
    CloneExit { from: usize },
    /// Clone `i` is polled (or blocked on) once.
    PollExit { i: usize },
    /// Clone `i` is dropped, abandoning its interest in the event.
    DropExit { i: usize },
}

/// Whether an action makes sense in a state: the handle it uses is live.
pub open spec fn enabled(s: GroupView, a: Action) -> bool {
    match a {
        Action::Fire => s.signal_live,
        Action::DropSignal => s.signal_live,
        Action::CloneExit { from } => from < s.exits.len() && s.exits[from as int].live,
        Action::PollExit { i } => i < s.exits.len() && s.exits[i as int].live,
        Action::DropExit { i } => i < s.exits.len() && s.exits[i as int].live,
    }
}

/// The transition relation of a group, total over all states and actions:
/// an action whose handle is out of range changes nothing.
pub open spec fn step(s: GroupView, a: Action) -> GroupView {
    match a {
        Action::Fire => GroupView { fired: true, ..s },
        Action::DropSignal => GroupView { signal_live: false, fired: true, ..s },
        Action::CloneExit { from: _ } => GroupView {
            exits: s.exits.push(ExitSlot { live: true, resolved: false }),
            ..s
        },
        Action::PollExit { i } => if i < s.exits.len() && s.fired {
            GroupView {
                exits: s.exits.update(i as int, ExitSlot { live: s.exits[i as int].live, resolved: true }),
                ..s
            }
        } else {
            s
        },
        Action::DropExit { i } => if i < s.exits.len() {
            GroupView {
                exits: s.exits.update(i as int, ExitSlot { live: false, resolved: s.exits[i as int].resolved }),
                ..s
            }
        } else {
            s
        },
    }
}

/// The state after running a whole sequence of operations.
pub open spec fn run(s: GroupView, acts: Seq<Action>) -> GroupView
    decreases acts.len(),
{
    if acts.len() == 0 {
        s
    } else {
        run(step(s, acts[0]), acts.skip(1))
    }
}

impl Group {
    /// A fresh group as [`crate::signal`] creates it: signal live, event not
    /// fired, exactly one live, unresolved exit clone.
    pub fn new() -> (g: Group)
        ensures
            g@.signal_live,
            !g@.fired,
            g@.exits =~= seq![ExitSlot { live: true, resolved: false }],
            g@.wf(),
    {
        Group { signal_live: true, fired: false, exits: vec![ExitSlot { live: true, resolved: false }] }
    }

    /// Fire the event explicitly. Always succeeds while the signal is live,
    /// and is idempotent: a second fire leaves the group as it was.
    pub fn fire(&mut self) -> (r: Result<(), FireError>)
        requires
            old(self)@.signal_live,
        ensures
            final(self)@ == step(old(self)@, Action::Fire),
            r is Ok,
    {
        self.fired = true;
        Ok(())
    }

    /// Drop the signal: its destructor fires the event, so from every exit
    /// clone's point of view this is the same as an explicit fire.
    pub fn drop_signal(&mut self)
        requires
            old(self)@.signal_live,
        ensures
            final(self)@ == step(old(self)@, Action::DropSignal),
    {
        self.signal_live = false;
        self.fired = true;
    }

    /// Create a new exit clone from the live clone `from`; the new clone gets
    /// the next slot and has observed nothing yet.
    pub fn clone_exit(&mut self, from: usize) -> (j: usize)
        requires
            enabled(old(self)@, Action::CloneExit { from }),
            old(self)@.exits.len() < usize::MAX,
        ensures
            final(self)@ == step(old(self)@, Action::CloneExit { from }),
            j == old(self)@.exits.len(),
    {
        let j = self.exits.len();
        self.exits.push(ExitSlot { live: true, resolved: false });
        j
    }

    /// Poll the live clone `i` once. It reports the event exactly when the
    /// event has fired — the same answer every clone gets in this state —
    /// and observing the event resolves the clone.
    pub fn poll_exit(&mut self, i: usize) -> (ready: bool)
        requires
            enabled(old(self)@, Action::PollExit { i }),
        ensures
            final(self)@ == step(old(self)@, Action::PollExit { i }),
            ready == old(self)@.poll_ready(),
            ready ==> final(self)@.exits[i as int].resolved,
    {
        if self.fired {
            let live = self.exits[i].live;
            self.exits.set(i, ExitSlot { live, resolved: true });
            true
        } else {
            false
        }
    }

    /// Wait on the live clone `i`: a wait returns exactly when the event has
    /// fired, so it is modelled in those states, and it returns at once on a
    /// clone that has already resolved, changing nothing further.
    pub fn wait_exit(&mut self, i: usize)
        requires
            enabled(old(self)@, Action::PollExit { i }),
            old(self)@.fired,
        ensures
            final(self)@ == step(old(self)@, Action::PollExit { i }),
            final(self)@.exits[i as int].resolved,
    {
        let _ready = self.poll_exit(i);
    }

    /// Drop the live clone `i`, abandoning its interest in the event.
    pub fn drop_exit(&mut self, i: usize)
        requires
            enabled(old(self)@, Action::DropExit { i }),
        ensures
            final(self)@ == step(old(self)@, Action::DropExit { i }),
    {
        let resolved = self.exits[i].resolved;
        self.exits.set(i, ExitSlot { live: false, resolved });
    }
}

/// Whether an action fires the event.
pub open spec fn fires(a: Action) -> bool {
    a is Fire || a is DropSignal
}

/// What the exit clones can observe of a group: the event's status and their
/// own slots. The signal handle's liveness is invisible to them.
pub open spec fn observable(s: GroupView) -> (bool, Seq<ExitSlot>) {
    (s.fired, s.exits)
}

/// Law: once fired, always fired. No sequence of operations un-fires the
/// event, so a clone that has resolved can never see it "un-happen", and
/// every poll from the firing on reports the same outcome.
pub proof fn lemma_fired_is_stable(s: GroupView, acts: Seq<Action>)
    requires
        s.fired,
    ensures
        run(s, acts).fired,
    decreases acts.len(),
{
    if acts.len() > 0 {
        lemma_fired_is_stable(step(s, acts[0]), acts.skip(1));
    }
}

/// Law: a resolved clone stays resolved — it cannot resolve a second time to
/// anything else, whatever is done to the group afterwards.
pub proof fn lemma_resolved_is_stable(s: GroupView, acts: Seq<Action>, i: int)
    requires
        0 <= i < s.exits.len(),
        s.exits[i].resolved,
    ensures
        i < run(s, acts).exits.len(),
        run(s, acts).exits[i].resolved,
    decreases acts.len(),
{
    if acts.len() > 0 {
        lemma_resolved_is_stable(step(s, acts[0]), acts.skip(1), i);
    }
}

/// One step preserves well-formedness: no action resolves a clone without
/// the event being fired.
pub proof fn lemma_step_preserves_wf(s: GroupView, a: Action)
    requires
        s.wf(),
    ensures
        step(s, a).wf(),
{
}

/// Law: well-formedness is an invariant — from a well-formed state, every
/// sequence of operations leads to a well-formed state, so no clone ever
/// observes an event that was not fired.
pub proof fn lemma_wf_is_preserved(s: GroupView, acts: Seq<Action>)
    requires
        s.wf(),
    ensures
        run(s, acts).wf(),
    decreases acts.len(),
{
    if acts.len() > 0 {
        lemma_step_preserves_wf(s, acts[0]);
        lemma_wf_is_preserved(step(s, acts[0]), acts.skip(1));
    }
}

/// Law: the event never appears out of nowhere — while no operation fires
/// it, it stays unfired and no clone resolves.
pub proof fn lemma_no_spurious_event(s: GroupView, acts: Seq<Action>)
    requires
        !s.fired,
        s.wf(),
        forall|k: int| 0 <= k < acts.len() ==> !fires(#[trigger] acts[k]),
    ensures
        !run(s, acts).fired,
        run(s, acts).wf(),
    decreases acts.len(),
{
    if acts.len() > 0 {
        lemma_step_preserves_wf(s, acts[0]);
        assert forall|k: int| 0 <= k < acts.skip(1).len() implies !fires(#[trigger] acts.skip(1)[k]) by {
            assert(acts.skip(1)[k] == acts[k + 1]);
        }
        lemma_no_spurious_event(step(s, acts[0]), acts.skip(1));
    }
}

/// Law (at most one event): a clone can be resolved only because the single
/// event was fired — by the signal's explicit fire or by its drop — at some
/// point of the history. Together with [`lemma_resolved_is_stable`] and
/// [`lemma_fired_is_stable`], every clone resolves at most once, and all
/// clones of one group resolve to the same one event.
pub proof fn lemma_resolution_needs_firing(s: GroupView, acts: Seq<Action>, i: int)
    requires
        !s.fired,
        s.wf(),
        0 <= i < run(s, acts).exits.len(),
        run(s, acts).exits[i].resolved,
    ensures
        exists|k: int| 0 <= k < acts.len() && fires(#[trigger] acts[k]),
{
    if !(exists|k: int| 0 <= k < acts.len() && fires(#[trigger] acts[k])) {
        assert(forall|k: int| 0 <= k < acts.len() ==> !fires(#[trigger] acts[k]));
        lemma_no_spurious_event(s, acts);
        assert(false);
    }
}

/// Law (fan-out, late clones included): once the event has fired, then after
/// any further operations — clones taken after the firing among them — every
/// clone of the group reports the event when polled, and resolves.
///
/// The late-clone half holds of this model only: the transport the
/// executable handles consume does not replay a value delivered before a
/// clone was taken (see the module caveat above).
pub proof fn lemma_fan_out(s: GroupView, acts: Seq<Action>, i: usize)
    requires
        s.fired,
        i < run(s, acts).exits.len(),
    ensures
        run(s, acts).poll_ready(),
        step(run(s, acts), Action::PollExit { i }).exits[i as int].resolved,
{
    lemma_fired_is_stable(s, acts);
}

/// Equal observables evolve equally: no transition reads what the clones
/// cannot see.
pub proof fn lemma_step_respects_observable(s1: GroupView, s2: GroupView, a: Action)
    requires
        observable(s1) == observable(s2),
    ensures
        observable(step(s1, a)) == observable(step(s2, a)),
{
}

/// Two states with equal observables stay observably equal under every
/// sequence of operations.
pub proof fn lemma_run_respects_observable(s1: GroupView, s2: GroupView, acts: Seq<Action>)
    requires
        observable(s1) == observable(s2),
    ensures
        observable(run(s1, acts)) == observable(run(s2, acts)),
    decreases acts.len(),
{
    if acts.len() > 0 {
        lemma_step_respects_observable(s1, s2, acts[0]);
        lemma_run_respects_observable(step(s1, acts[0]), step(s2, acts[0]), acts.skip(1));
    }
}

/// Law (drop equals fire): dropping the signal without a fire is, for every
/// exit clone and under every later sequence of operations, indistinguishable
/// from an explicit fire.
pub proof fn lemma_drop_signal_equals_fire(s: GroupView, acts: Seq<Action>)
    ensures
        observable(run(step(s, Action::DropSignal), acts)) == observable(
            run(step(s, Action::Fire), acts),
        ),
{
    lemma_run_respects_observable(step(s, Action::DropSignal), step(s, Action::Fire), acts);
}

/// Law (idempotent wait): polling a clone a second time reports the same and
/// changes nothing — a wait on an already-resolved clone returns at once.
pub proof fn lemma_poll_is_idempotent(s: GroupView, i: usize)
    ensures
        step(step(s, Action::PollExit { i }), Action::PollExit { i }) == step(
            s,
            Action::PollExit { i },
        ),
{
    let t = step(s, Action::PollExit { i });
    if i < s.exits.len() && s.fired {
        assert(step(t, Action::PollExit { i }).exits =~= t.exits);
        assert(step(t, Action::PollExit { i }) =~= t);
    }
}

/// Law (abandoning is local): dropping one clone changes nothing for the
/// signal, the event, or any other clone.
pub proof fn lemma_drop_exit_is_local(s: GroupView, i: usize, j: int)
    requires
        0 <= j < s.exits.len(),
        j != i,
    ensures
        step(s, Action::DropExit { i }).fired == s.fired,
        step(s, Action::DropExit { i }).signal_live == s.signal_live,
        step(s, Action::DropExit { i }).exits.len() == s.exits.len(),
        step(s, Action::DropExit { i }).exits[j] == s.exits[j],
{
}

} // verus!
