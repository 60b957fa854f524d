//! The activator protocol: the pending-count gate that decides when a node is ready.
//!
//! A node's activator is armed at finalization with one pending activation per upstream
//! producer.  Each activation takes one away; the activation that brings the count from one to
//! zero fires the node.  A reusable node is rearmed when it executes, and its running handle
//! holds one activation of its own until the task body returns.

use vstd::prelude::*;
use vstd::arithmetic::div_mod::{lemma_basic_div, lemma_div_plus_one};

verus! {

/// A breach of the activation protocol: a programming error in the graph or in a task.
#[derive(PartialEq, Eq, Structural, Debug, Clone, Copy)]
pub enum ProtocolError {
    /// The index names no node of this runtime.
    UnknownNode,
    /// The index names no port of this runtime.
    UnknownPort,
    /// The node is not finalized, or its pending count is already zero.
    NotArmed,
    /// The node was finalized before.
    AlreadyFinalized,
    /// The activator count does not fit the counter.
    TooManyActivators,
    /// The node fired while its body was running or after it was consumed.
    Busy,
    /// A placeholder node, standing for one not yet known, was run.
    Uninitialized,
}

/// The control state of one node.
#[derive(PartialEq, Eq, Structural, Debug, Clone, Copy)]
pub struct ActivatorState {
    /// Activations still needed before the node fires.
    pub pending: usize,
    /// The count that a rearm restores: the upstream producers plus the builder's (or the
    /// running handle's) own reference.
    pub initial: usize,
    /// Whether the builder has sealed the count.
    pub finalized: bool,
    /// Whether the node sits in a ready deque.
    pub queued: bool,
}

/// The state of a node that was just created: not armed, with only the builder's reference.
pub open spec fn fresh_state() -> ActivatorState {
    ActivatorState { pending: 0, initial: 1, finalized: false, queued: false }
}

/// The state after finalization with `n` upstream producers: the count is set to `n + 1` and
/// the builder's own reference is taken away at once.
pub open spec fn finalized_state(s: ActivatorState, n: nat) -> ActivatorState {
    ActivatorState { pending: n as usize, initial: (n + 1) as usize, finalized: true, ..s }
}

/// Whether an activation of a node in state `s` is legal.
pub open spec fn can_activate(s: ActivatorState) -> bool {
    s.finalized && s.pending > 0
}

/// The state after one activation (before the node is queued, if it fired).
pub open spec fn decremented(s: ActivatorState) -> ActivatorState {
    ActivatorState { pending: (s.pending - 1) as usize, ..s }
}

/// Whether an activation of a node in state `s` fires it: the count goes from one to zero.
pub open spec fn fires(s: ActivatorState) -> bool {
    can_activate(s) && s.pending == 1
}

/// The state of a reusable node when its body starts: the count is restored.
pub open spec fn rearmed(s: ActivatorState) -> ActivatorState {
    ActivatorState { pending: s.initial, ..s }
}

/// The number of runs of a reusable node over `m` activations, starting in state `s`.  Each
/// activation takes one away; one that fires runs the node, whose run rearms the count and
/// then gives back the running handle's own reference.
pub open spec fn runs(s: ActivatorState, m: nat) -> nat
    decreases m,
{
    if m == 0 {
        0
    } else if fires(s) {
        1 + runs(decremented(rearmed(decremented(s))), (m - 1) as nat)
    } else {
        runs(decremented(s), (m - 1) as nat)
    }
}

proof fn lemma_runs_from(s: ActivatorState, m: nat)
    requires
        s.finalized,
        s.initial >= 2,
        1 <= s.pending <= s.initial - 1,
    ensures
        runs(s, m) == (m + s.initial - 1 - s.pending) as nat / (s.initial - 1) as nat,
    decreases m,
{
    let a = (s.initial - 1) as nat;
    if m == 0 {
        lemma_basic_div((a - s.pending) as int, a as int);
    } else if s.pending == 1 {
        let next = decremented(rearmed(decremented(s)));
        assert(next.pending == a && next.initial == s.initial && next.finalized);
        lemma_runs_from(next, (m - 1) as nat);
        lemma_div_plus_one((m - 1) as int, a as int);
        assert(((m - 1) as int + a) == (m + s.initial - 1 - s.pending) as nat);
    } else {
        lemma_runs_from(decremented(s), (m - 1) as nat);
        assert((m - 1 + s.initial - 1 - (s.pending - 1)) as nat == (m + s.initial - 1
            - s.pending) as nat);
    }
}

/// Activation counting: a reusable node freshly armed with `a >= 1` upstream producers (so
/// `a` activations pending, and a rearm count of `a + 1`) runs exactly `m / a` times, rounded
/// down, over `m` activations.
pub proof fn activation_counting(s: ActivatorState, m: nat)
    requires
        s.finalized,
        s.initial >= 2,
        s.pending == s.initial - 1,
    ensures
        runs(s, m) == m / (s.initial - 1) as nat,
{
    lemma_runs_from(s, m);
    assert((m + s.initial - 1 - s.pending) as nat == m);
}

/// A single-use node fires at most once: once fired its count stays at zero and no further
/// activation is legal.
pub proof fn single_use_fires_once(s: ActivatorState)
    requires
        fires(s),
    ensures
        !can_activate(decremented(s)),
{
}

} // verus!
