//! The runtime: an arena of nodes, their activator states and the port cells, together with the
//! ready deques of the workers that execute them.
//!
//! Nodes, ports and activators are named by their index in the arena, so a cyclic graph holds
//! no owning cycle.  The ready deques are kept as one list of entries, each tagged with the
//! worker whose deque it belongs to; the entries of one worker, in list order, are that
//! worker's FIFO deque.  They are values of the runtime, not concurrent deques shared between
//! threads: the content of a shared deque changes under other threads' steals, so it is not a
//! function of the handle a worker holds and no contract could describe it.  A pool of threads
//! shares the runtime itself, and each thread asks it for its worker's next step.
//!
//! A breach of the activation protocol is noted as the runtime's fault, which poisons it: a run
//! stops at the first fault and does not start on a runtime that holds one.

use vstd::prelude::*;
use vstd::arithmetic::div_mod::{lemma_mod_add_multiples_vanish, lemma_small_mod};
use crate::activator::{
    ActivatorState, ProtocolError, can_activate, decremented, finalized_state, fresh_state,
    rearmed,
};
use crate::api::{
    Activator, ActivatorMut, ActivatorOnce, GraphSpec, NodeBuilder, NodeMut, NodeSpec, PortSpec,
    Scheduler,
};
use crate::port::RcPort;
use crate::counter::Compteur;

verus! {

/// One entry of a ready deque: node `node` waits in the deque of worker `worker`.
#[derive(PartialEq, Eq, Structural, Debug, Clone, Copy)]
pub struct Ready {
    pub worker: usize,
    pub node: usize,
}

/// The abstract state of a runtime.
pub ghost struct RuntimeView<V> {
    /// The content of each port cell.
    pub ports: Seq<Option<V>>,
    /// The activator state of each node.
    pub acts: Seq<ActivatorState>,
    /// Whether each node's body is in the arena: false while it runs, and after a single-use
    /// node ran.
    pub present: Seq<bool>,
    /// The ready deques, as tagged entries.
    pub ready: Seq<Ready>,
    /// The number of workers.
    pub workers: nat,
    /// The worker on whose behalf the runtime acts: the one that schedules what fires.
    pub worker: nat,
    /// Whether nodes are rearmed after they run (a reusable graph) or consumed.
    pub reusable: bool,
    /// The first protocol breach noted during execution, if any.
    pub fault: Option<ProtocolError>,
}

/// The consistency between a node's control state and its body.
pub open spec fn node_consistent(s: ActivatorState, present: bool) -> bool {
    &&& s.queued ==> s.pending == 0 && s.finalized && present
    &&& !s.finalized ==> present
    &&& s.pending > 0 ==> s.finalized
    &&& s.initial >= 1
}

/// No node has two entries in the ready deques.
pub open spec fn ready_distinct(ready: Seq<Ready>) -> bool {
    forall|i: int, j: int|
        0 <= i < ready.len() && 0 <= j < ready.len() && i != j ==> ready[i].node != ready[j].node
}

impl<V> RuntimeView<V> {
    /// The invariant that every runtime keeps.
    pub open spec fn well_formed(self) -> bool {
        &&& self.acts.len() == self.present.len()
        &&& 1 <= self.workers
        &&& self.worker < self.workers
        &&& forall|i: int|
            0 <= i < self.ready.len() ==> {
                &&& self.ready[i].worker < self.workers
                &&& self.ready[i].node < self.acts.len()
                &&& self.acts[self.ready[i].node as int].queued
            }
        &&& ready_distinct(self.ready)
        &&& forall|h: int|
            0 <= h < self.acts.len() ==> node_consistent(self.acts[h], self.present[h])
    }

    /// No node waits in any deque.
    pub open spec fn quiescent(self) -> bool {
        self.ready.len() == 0
    }
}

/// The state after noting `r`: the first error is kept.
pub open spec fn noted(f: Option<ProtocolError>, r: Result<bool, ProtocolError>) -> Option<
    ProtocolError,
> {
    match (f, r) {
        (None, Err(e)) => Some(e),
        _ => f,
    }
}

/// The outcome of finalizing node `h` with `n` upstream producers.
pub open spec fn finalize_result<V>(v: RuntimeView<V>, h: nat, n: nat) -> Result<bool, ProtocolError> {
    if h >= v.acts.len() {
        Err(ProtocolError::UnknownNode)
    } else if v.acts[h as int].finalized {
        Err(ProtocolError::AlreadyFinalized)
    } else if n >= usize::MAX {
        Err(ProtocolError::TooManyActivators)
    } else {
        Ok(n == 0)
    }
}

/// The state after finalizing node `h` with `n` upstream producers: the count is sealed, and a
/// node without producers joins the current worker's deque at once.
pub open spec fn after_finalize<V>(v: RuntimeView<V>, h: nat, n: nat) -> RuntimeView<V> {
    if finalize_result(v, h, n) is Err {
        v
    } else {
        RuntimeView {
            acts: v.acts.update(
                h as int,
                ActivatorState { queued: n == 0, ..finalized_state(v.acts[h as int], n) },
            ),
            ready: if n == 0 {
                v.ready.push(Ready { worker: v.worker as usize, node: h as usize })
            } else {
                v.ready
            },
            ..v
        }
    }
}

/// The outcome of one activation of node `h`: `Ok(true)` when it fired.
pub open spec fn activation_result<V>(v: RuntimeView<V>, h: nat) -> Result<bool, ProtocolError> {
    if h >= v.acts.len() {
        Err(ProtocolError::UnknownNode)
    } else if !can_activate(v.acts[h as int]) {
        Err(ProtocolError::NotArmed)
    } else if v.acts[h as int].pending > 1 {
        Ok(false)
    } else if v.present[h as int] {
        Ok(true)
    } else {
        Err(ProtocolError::Busy)
    }
}

/// The state after one activation of node `h`: the count goes down by one, and a node that
/// fires joins the current worker's deque.
pub open spec fn after_activation<V>(v: RuntimeView<V>, h: nat) -> RuntimeView<V> {
    if h >= v.acts.len() || !can_activate(v.acts[h as int]) {
        v
    } else if v.acts[h as int].pending == 1 && v.present[h as int] {
        RuntimeView {
            acts: v.acts.update(
                h as int,
                ActivatorState { queued: true, ..decremented(v.acts[h as int]) },
            ),
            ready: v.ready.push(Ready { worker: v.worker as usize, node: h as usize }),
            ..v
        }
    } else {
        RuntimeView { acts: v.acts.update(h as int, decremented(v.acts[h as int])), ..v }
    }
}

/// Whether node `h` may be put in a deque by hand: it fired and waits nowhere.
pub open spec fn schedulable<V>(v: RuntimeView<V>, h: nat) -> bool {
    &&& h < v.acts.len()
    &&& v.acts[h as int].finalized
    &&& v.acts[h as int].pending == 0
    &&& !v.acts[h as int].queued
    &&& v.present[h as int]
}

/// The state after putting node `h` in the current worker's deque.
pub open spec fn after_queue<V>(v: RuntimeView<V>, h: nat) -> RuntimeView<V> {
    RuntimeView {
        acts: v.acts.update(h as int, ActivatorState { queued: true, ..v.acts[h as int] }),
        ready: v.ready.push(Ready { worker: v.worker as usize, node: h as usize }),
        ..v
    }
}

/// Whether some entry waits in the deque of worker `w`.
pub open spec fn has_work(ready: Seq<Ready>, w: nat) -> bool {
    exists|i: int| 0 <= i < ready.len() && ready[i].worker == w
}

/// Whether entry `i` is the front of worker `w`'s deque.
pub open spec fn is_front(ready: Seq<Ready>, w: nat, i: int) -> bool {
    &&& 0 <= i < ready.len()
    &&& ready[i].worker == w
    &&& forall|q: int| 0 <= q < i ==> ready[q].worker != w
}

/// The `m`-th victim that worker `j` of `k` probes: the workers after it, in rotation.
pub open spec fn victim(j: nat, m: nat, k: nat) -> nat {
    (j + 1 + m) % k
}

/// Whether worker `j` of `k` takes its work from the deque of worker `w`: its own deque when it
/// holds work, else the first victim in rotation order whose deque does.
pub open spec fn chosen_deque(ready: Seq<Ready>, j: nat, k: nat, w: nat) -> bool {
    if has_work(ready, j) {
        w == j
    } else {
        exists|m: nat|
            #![trigger victim(j, m, k)]
            m + 1 < k && w == victim(j, m, k) && has_work(ready, w) && forall|m2: nat|
                m2 < m ==> !has_work(ready, #[trigger] victim(j, m2, k))
    }
}

/// The state after removing entry `i` from the deques.
pub open spec fn after_take<V>(v: RuntimeView<V>, i: int) -> RuntimeView<V> {
    let h = v.ready[i].node as int;
    RuntimeView {
        ready: v.ready.remove(i),
        acts: v.acts.update(h, ActivatorState { queued: false, ..v.acts[h] }),
        ..v
    }
}

proof fn lemma_victim_covers(j: nat, v: nat, k: nat) -> (m: nat)
    requires
        j < k,
        v < k,
        v != j,
    ensures
        m + 1 < k,
        victim(j, m, k) == v,
{
    if v > j {
        let m = (v - j - 1) as nat;
        lemma_small_mod(v, k);
        m
    } else {
        let m = (v + k - j - 1) as nat;
        lemma_mod_add_multiples_vanish(v as int, k as int);
        lemma_small_mod(v, k);
        assert(j + 1 + m == k + v);
        m
    }
}

/// The order in which worker `j` of `k` probes the others: `j + 1`, `j + 2`, ... modulo `k`,
/// ending with `j - 1`.  With a single worker there is no one to steal from.
pub fn stealer_order(j: usize, k: usize) -> (order: Vec<usize>)
    requires
        j < k,
    ensures
        order@.len() == k - 1,
        forall|m: int| 0 <= m < k - 1 ==> order@[m] as nat == victim(j as nat, m as nat, k as nat),
{
    let mut order: Vec<usize> = Vec::new();
    let mut m: usize = 0;
    while m < k - 1
        invariant
            j < k,
            m <= k - 1,
            order@.len() == m,
            forall|q: int| 0 <= q < m ==> order@[q] as nat == victim(j as nat, q as nat, k as nat),
        decreases k - 1 - m,
    {
        let v = if m < k - 1 - j {
            j + 1 + m
        } else {
            m - (k - 1 - j)
        };
        proof {
            if m < k - 1 - j {
                lemma_small_mod((j + 1 + m) as nat, k as nat);
            } else {
                lemma_mod_add_multiples_vanish(v as int, k as int);
                lemma_small_mod(v as nat, k as nat);
                assert(j + 1 + m == k + v);
            }
        }
        order.push(v);
        m = m + 1;
    }
    order
}

/// The state after writing `v` into port `port`.
pub open spec fn after_send<V>(v: RuntimeView<V>, port: nat, x: V) -> RuntimeView<V> {
    RuntimeView { ports: v.ports.update(port as int, Some(x)), ..v }
}

/// Send before activate: on a node-input edge the value is written before the downstream
/// node is activated, so whatever the activation does, the port then holds the value sent,
/// and the node finds it when it runs.
pub proof fn send_before_activate<V>(v: RuntimeView<V>, port: nat, node: nat, x: V)
    requires
        port < v.ports.len(),
    ensures
        after_activation(after_send(v, port, x), node).ports[port as int] == Some(x),
{
}

/// The state after writing `x` into port `port` and then activating node `node`, with a
/// breach of the protocol noted as the fault.
pub open spec fn delivered<V>(v: RuntimeView<V>, port: nat, node: nat, x: V) -> RuntimeView<V> {
    if port < v.ports.len() {
        RuntimeView {
            fault: noted(v.fault, activation_result(v, node)),
            ..after_activation(after_send(v, port, x), node)
        }
    } else {
        RuntimeView { fault: noted(v.fault, Err(ProtocolError::UnknownPort)), ..v }
    }
}

/// The state after taking the value out of port `port`.
pub open spec fn after_recv<V>(v: RuntimeView<V>, port: nat) -> RuntimeView<V> {
    RuntimeView { ports: v.ports.update(port as int, None), ..v }
}

/// An identity in between changes nothing: when a producer sends `x` into the input port
/// `inner` of an identity task, which takes it out and sends what it took into the consumer's
/// port `outer`, the consumer's port ends up as a direct send of `x` would leave it.
pub proof fn identity_forwarding<V>(v: RuntimeView<V>, inner: nat, outer: nat, x: V)
    requires
        inner < v.ports.len(),
        outer < v.ports.len(),
        inner != outer,
    ensures
        after_send(v, inner, x).ports[inner as int] == Some(x),
        after_send(after_recv(after_send(v, inner, x), inner), outer, x).ports[outer as int]
            == after_send(v, outer, x).ports[outer as int],
        after_send(after_recv(after_send(v, inner, x), inner), outer, x).ports[inner as int]
            is None,
{
}

/// With a single worker every entry sits in its deque, which is then taken strictly in FIFO
/// order: the worker takes the first entry of the whole list, and never steals.
pub proof fn single_worker_is_fifo<V>(v: RuntimeView<V>, w: nat, i: int)
    requires
        v.well_formed(),
        v.workers == 1,
        chosen_deque(v.ready, 0, 1, w),
        is_front(v.ready, w, i),
    ensures
        w == 0,
        i == 0,
{
    if !has_work(v.ready, 0) {
        assert(v.ready[i].worker < 1);
        assert(false);
    }
    if i > 0 {
        assert(v.ready[0].worker < 1);
    }
}

/// What a worker did in one step.
#[derive(PartialEq, Eq, Structural, Debug, Clone, Copy)]
pub enum WorkerStep {
    /// It ran `node`, taken from the front of its own deque.
    Ran { node: usize },
    /// It ran `node`, stolen from the front of the deque of worker `victim`.
    Stole { node: usize, victim: usize },
    /// One full round found no work anywhere; it yields and tries again.
    Idle,
    /// It found no work in enough rounds in a row, and stops.
    Exit,
}

/// How many empty rounds in a row make a worker stop.
pub const IDLE_TOUR_LIMIT: usize = 10;

/// The state of a runtime, kept well formed by its operations.
pub(crate) struct Core<V, N> {
    pub(crate) ports: Vec<Option<V>>,
    pub(crate) acts: Vec<ActivatorState>,
    pub(crate) nodes: Vec<Option<N>>,
    pub(crate) ready: Vec<Ready>,
    pub(crate) workers: usize,
    pub(crate) worker: usize,
    pub(crate) reusable: bool,
    pub(crate) fault: Option<ProtocolError>,
}

impl<V, N> View for Core<V, N> {
    type V = RuntimeView<V>;

    closed spec fn view(&self) -> RuntimeView<V> {
        RuntimeView {
            ports: self.ports@,
            acts: self.acts@,
            present: self.nodes@.map_values(|o: Option<N>| o is Some),
            ready: self.ready@,
            workers: self.workers as nat,
            worker: self.worker as nat,
            reusable: self.reusable,
            fault: self.fault,
        }
    }
}

impl<V, N> Core<V, N> {
    pub(crate) open spec fn wf(self) -> bool {
        &&& self.acts@.len() == self.nodes@.len()
        &&& self@.well_formed()
    }

    pub(crate) fn empty(reusable: bool) -> (c: Self)
        ensures
            c.wf(),
            c@ == (RuntimeView::<V> {
                ports: Seq::empty(),
                acts: Seq::empty(),
                present: Seq::empty(),
                ready: Seq::empty(),
                workers: 1,
                worker: 0,
                reusable,
                fault: None,
            }),
    {
        let c = Core {
            ports: Vec::new(),
            acts: Vec::new(),
            nodes: Vec::new(),
            ready: Vec::new(),
            workers: 1,
            worker: 0,
            reusable,
            fault: None,
        };
        assert(c@.present =~= Seq::<bool>::empty());
        c
    }

    pub(crate) fn queue(&mut self, h: usize)
        requires
            old(self).wf(),
            schedulable(old(self)@, h as nat),
        ensures
            final(self).wf(),
            final(self).nodes@ == old(self).nodes@,
            final(self)@ == after_queue(old(self)@, h as nat),
    {
        let s = self.acts[h];
        assert forall|i: int| 0 <= i < self.ready@.len() implies self.ready@[i].node != h by {
            assert(self@.acts[self.ready@[i].node as int].queued);
        }
        self.acts.set(h, ActivatorState { queued: true, ..s });
        self.ready.push(Ready { worker: self.worker, node: h });
        proof {
            let v = self@;
            let o = old(self)@;
            assert(v.present =~= o.present);
            assert forall|q: int| 0 <= q < v.acts.len() implies node_consistent(
                v.acts[q],
                v.present[q],
            ) by {
                if q != h {
                    assert(node_consistent(o.acts[q], o.present[q]));
                }
            }
            assert forall|i: int| 0 <= i < v.ready.len() implies {
                &&& v.ready[i].worker < v.workers
                &&& v.ready[i].node < v.acts.len()
                &&& v.acts[v.ready[i].node as int].queued
            } by {
                if i < o.ready.len() {
                    assert(o.acts[o.ready[i].node as int].queued);
                }
            }
            assert(v =~= after_queue(o, h as nat));
        }
    }

    pub(crate) fn finalize_node(&mut self, h: usize, n: usize) -> (r: Result<bool, ProtocolError>)
        requires
            old(self).wf(),
        ensures
            final(self).wf(),
            final(self).nodes@ == old(self).nodes@,
            r == finalize_result(old(self)@, h as nat, n as nat),
            final(self)@ == after_finalize(old(self)@, h as nat, n as nat),
    {
        if h >= self.acts.len() {
            return Err(ProtocolError::UnknownNode);
        }
        let s = self.acts[h];
        if s.finalized {
            return Err(ProtocolError::AlreadyFinalized);
        }
        if n == usize::MAX {
            return Err(ProtocolError::TooManyActivators);
        }
        assert(node_consistent(self@.acts[h as int], self@.present[h as int]));
        self.acts.set(h, ActivatorState { pending: n, initial: n + 1, finalized: true, queued: false });
        proof {
            let v = self@;
            let o = old(self)@;
            assert(v.present =~= o.present);
            assert forall|q: int| 0 <= q < v.acts.len() implies node_consistent(
                v.acts[q],
                v.present[q],
            ) by {
                if q != h {
                    assert(node_consistent(o.acts[q], o.present[q]));
                }
            }
            assert forall|i: int| 0 <= i < v.ready.len() implies {
                &&& v.ready[i].worker < v.workers
                &&& v.ready[i].node < v.acts.len()
                &&& v.acts[v.ready[i].node as int].queued
            } by {
                assert(o.acts[o.ready[i].node as int].queued);
            }
        }
        if n == 0 {
            self.queue(h);
            assert(self@.acts =~= old(self)@.acts.update(
                h as int,
                ActivatorState {
                    queued: true,
                    ..finalized_state(old(self)@.acts[h as int], n as nat)
                },
            ));
            assert(self@ =~= after_finalize(old(self)@, h as nat, n as nat));
            Ok(true)
        } else {
            assert(self@ =~= after_finalize(old(self)@, h as nat, n as nat));
            Ok(false)
        }
    }

    pub(crate) fn activate_node(&mut self, h: usize) -> (r: Result<bool, ProtocolError>)
        requires
            old(self).wf(),
        ensures
            final(self).wf(),
            final(self).nodes@ == old(self).nodes@,
            r == activation_result(old(self)@, h as nat),
            final(self)@ == after_activation(old(self)@, h as nat),
    {
        if h >= self.acts.len() {
            return Err(ProtocolError::UnknownNode);
        }
        let s = self.acts[h];
        if !s.finalized || s.pending == 0 {
            return Err(ProtocolError::NotArmed);
        }
        assert(node_consistent(self@.acts[h as int], self@.present[h as int]));
        self.acts.set(h, ActivatorState { pending: s.pending - 1, ..s });
        proof {
            let v = self@;
            let o = old(self)@;
            assert(v.present =~= o.present);
            assert forall|q: int| 0 <= q < v.acts.len() implies node_consistent(
                v.acts[q],
                v.present[q],
            ) by {
                if q != h {
                    assert(node_consistent(o.acts[q], o.present[q]));
                }
            }
            assert forall|i: int| 0 <= i < v.ready.len() implies {
                &&& v.ready[i].worker < v.workers
                &&& v.ready[i].node < v.acts.len()
                &&& v.acts[v.ready[i].node as int].queued
            } by {
                assert(o.acts[o.ready[i].node as int].queued);
            }
        }
        if s.pending == 1 {
            let present = self.nodes[h].is_some();
            if present {
                self.queue(h);
                assert(self@.acts =~= old(self)@.acts.update(
                    h as int,
                    ActivatorState { queued: true, ..decremented(old(self)@.acts[h as int]) },
                ));
                assert(self@ =~= after_activation(old(self)@, h as nat));
                Ok(true)
            } else {
                assert(self@ =~= after_activation(old(self)@, h as nat));
                Err(ProtocolError::Busy)
            }
        } else {
            assert(self@ =~= after_activation(old(self)@, h as nat));
            Ok(false)
        }
    }

    pub(crate) fn schedule_node(&mut self, h: usize) -> (r: Result<(), ProtocolError>)
        requires
            old(self).wf(),
        ensures
            final(self).wf(),
            final(self).nodes@ == old(self).nodes@,
            schedulable(old(self)@, h as nat) ==> r is Ok && final(self)@ == after_queue(
                old(self)@,
                h as nat,
            ),
            !schedulable(old(self)@, h as nat) ==> r == Err::<(), ProtocolError>(
                ProtocolError::NotArmed,
            ) && final(self)@ == old(self)@,
    {
        if h < self.acts.len() {
            let s = self.acts[h];
            if s.finalized && s.pending == 0 && !s.queued && self.nodes[h].is_some() {
                self.queue(h);
                return Ok(());
            }
        }
        Err(ProtocolError::NotArmed)
    }

    pub(crate) fn reset_workers(&mut self, k: usize)
        requires
            old(self).wf(),
            k >= 1,
        ensures
            final(self).wf(),
            final(self).nodes@ == old(self).nodes@,
            final(self)@ == (RuntimeView {
                ready: old(self)@.ready.map_values(|e: Ready| Ready { worker: 0, node: e.node }),
                workers: k as nat,
                worker: 0,
                ..old(self)@
            }),
    {
        let mut i: usize = 0;
        self.worker = 0;
        while i < self.ready.len()
            invariant
                self.wf(),
                self.worker == 0,
                self.nodes@ == old(self).nodes@,
                0 <= i <= self.ready@.len(),
                self.ready@.len() == old(self)@.ready.len(),
                forall|q: int|
                    0 <= q < self.ready@.len() ==> self.ready@[q].node == old(self)@.ready[q].node,
                forall|q: int| 0 <= q < i ==> self.ready@[q].worker == 0,
                self@ == (RuntimeView { ready: self@.ready, worker: 0, ..old(self)@ }),
            decreases self.ready@.len() - i,
        {
            let e = self.ready[i];
            self.ready.set(i, Ready { worker: 0, node: e.node });
            i = i + 1;
        }
        self.workers = k;
        assert(self@.ready =~= old(self)@.ready.map_values(
            |e: Ready| Ready { worker: 0, node: e.node },
        ));
    }

    pub(crate) fn set_worker(&mut self, j: usize)
        requires
            old(self).wf(),
            j < old(self)@.workers,
        ensures
            final(self).wf(),
            final(self).nodes@ == old(self).nodes@,
            final(self)@ == (RuntimeView { worker: j as nat, ..old(self)@ }),
    {
        self.worker = j;
    }

    pub(crate) fn replace_node(&mut self, h: usize, node: N) -> (r: Option<N>)
        requires
            old(self).wf(),
        ensures
            final(self).wf(),
            final(self)@ == old(self)@,
            h < old(self)@.acts.len() && !old(self)@.acts[h as int].finalized ==> r == old(self).nodes@[h as int] && r is Some && final(self).nodes@ == old(self).nodes@.update(
                h as int,
                Some(node),
            ),
            !(h < old(self)@.acts.len() && !old(self)@.acts[h as int].finalized) ==> r is None
                && final(self).nodes@ == old(self).nodes@,
    {
        if h < self.acts.len() && !self.acts[h].finalized {
            assert(node_consistent(self@.acts[h as int], self@.present[h as int]));
            let mut slot = Some(node);
            std::mem::swap(&mut slot, &mut self.nodes[h]);
            assert(self@.present =~= old(self)@.present);
            slot
        } else {
            None
        }
    }

    pub(crate) fn note(&mut self, e: ProtocolError)
        requires
            old(self).wf(),
        ensures
            final(self).wf(),
            final(self).nodes@ == old(self).nodes@,
            final(self)@ == (RuntimeView { fault: noted(old(self)@.fault, Err(e)), ..old(self)@ }),
    {
        if self.fault.is_none() {
            self.fault = Some(e);
        }
    }

    pub(crate) fn find_front(&self, w: usize) -> (r: Option<usize>)
        ensures
            match r {
                Some(i) => is_front(self@.ready, w as nat, i as int),
                None => !has_work(self@.ready, w as nat),
            },
    {
        let mut i: usize = 0;
        while i < self.ready.len()
            invariant
                0 <= i <= self.ready@.len(),
                self@.ready == self.ready@,
                forall|q: int| 0 <= q < i ==> self.ready@[q].worker != w,
            decreases self.ready@.len() - i,
        {
            if self.ready[i].worker == w {
                return Some(i);
            }
            i = i + 1;
        }
        None
    }

    pub(crate) fn take_at(&mut self, i: usize) -> (h: usize)
        requires
            old(self).wf(),
            i < old(self)@.ready.len(),
        ensures
            final(self).wf(),
            final(self).nodes@ == old(self).nodes@,
            h == old(self)@.ready[i as int].node,
            final(self)@ == after_take(old(self)@, i as int),
            final(self)@.acts[h as int].pending == 0,
            final(self)@.acts[h as int].finalized,
            final(self)@.present[h as int],
    {
        let h = self.ready[i].node;
        assert(self@.acts[h as int].queued);
        assert(node_consistent(self@.acts[h as int], self@.present[h as int]));
        self.ready.remove(i);
        let s = self.acts[h];
        self.acts.set(h, ActivatorState { queued: false, ..s });
        proof {
            let v = self@;
            let o = old(self)@;
            assert(v.present =~= o.present);
            assert forall|q: int| 0 <= q < v.acts.len() implies node_consistent(
                v.acts[q],
                v.present[q],
            ) by {
                if q != h {
                    assert(node_consistent(o.acts[q], o.present[q]));
                }
            }
            assert forall|a: int| 0 <= a < v.ready.len() implies {
                &&& v.ready[a].worker < v.workers
                &&& v.ready[a].node < v.acts.len()
                &&& v.acts[v.ready[a].node as int].queued
            } by {
                let b = if a < i { a } else { a + 1 };
                assert(v.ready[a] == o.ready[b]);
                assert(o.acts[o.ready[b].node as int].queued);
                assert(o.ready[b].node != h);
            }
            assert forall|a: int, c: int|
                0 <= a < v.ready.len() && 0 <= c < v.ready.len() && a != c implies v.ready[a].node
                != v.ready[c].node by {
                let a2 = if a < i { a } else { a + 1 };
                let c2 = if c < i { c } else { c + 1 };
                assert(v.ready[a] == o.ready[a2]);
                assert(v.ready[c] == o.ready[c2]);
            }
            assert(v =~= after_take(o, i as int));
        }
        h
    }

    pub(crate) fn take_work(&mut self, j: usize) -> (r: Option<(usize, usize)>)
        requires
            old(self).wf(),
            j < old(self)@.workers,
        ensures
            final(self).wf(),
            final(self).nodes@ == old(self).nodes@,
            match r {
                None => old(self)@.quiescent() && final(self)@ == old(self)@,
                Some((h, w)) => {
                    &&& chosen_deque(old(self)@.ready, j as nat, old(self)@.workers, w as nat)
                    &&& exists|i: int|
                        is_front(old(self)@.ready, w as nat, i) && old(self)@.ready[i].node == h
                            && final(self)@ == after_take(old(self)@, i)
                    &&& h < final(self)@.acts.len()
                    &&& final(self)@.acts[h as int].pending == 0
                    &&& final(self)@.acts[h as int].finalized
                    &&& final(self)@.present[h as int]
                },
            },
    {
        let k = self.workers;
        match self.find_front(j) {
            Some(i) => {
                let h = self.take_at(i);
                return Some((h, j));
            },
            None => {},
        }
        let order = stealer_order(j, k);
        let mut m: usize = 0;
        while m < order.len()
            invariant
                self.wf(),
                self@ == old(self)@,
                self.nodes@ == old(self).nodes@,
                k == self@.workers,
                j < k,
                !has_work(self@.ready, j as nat),
                order@.len() == k - 1,
                m <= order@.len(),
                forall|q: int| 0 <= q < k - 1 ==> order@[q] as nat == victim(j as nat, q as nat, k as nat),
                forall|m2: nat| m2 < m ==> !has_work(self@.ready, #[trigger] victim(j as nat, m2, k as nat)),
            decreases order@.len() - m,
        {
            let w = order[m];
            match self.find_front(w) {
                Some(i) => {
                    let h = self.take_at(i);
                    assert(chosen_deque(old(self)@.ready, j as nat, k as nat, w as nat)) by {
                        assert(has_work(old(self)@.ready, w as nat));
                        assert(w as nat == victim(j as nat, m as nat, k as nat));
                    }
                    return Some((h, w));
                },
                None => {},
            }
            m = m + 1;
        }
        proof {
            let ready = self@.ready;
            if ready.len() > 0 {
                let v = ready[0].worker as nat;
                assert(v != j) by {
                    assert(!has_work(ready, j as nat));
                }
                let mm = lemma_victim_covers(j as nat, v, k as nat);
                assert(!has_work(ready, victim(j as nat, mm, k as nat)));
                assert(false);
            }
        }
        None
    }

    pub(crate) fn create_port(&mut self, init: Option<V>) -> (p: usize)
        requires
            old(self).wf(),
            old(self)@.ports.len() < usize::MAX,
        ensures
            final(self).wf(),
            final(self).nodes@ == old(self).nodes@,
            p == old(self)@.ports.len(),
            final(self)@ == (RuntimeView { ports: old(self)@.ports.push(init), ..old(self)@ }),
    {
        let p = self.ports.len();
        self.ports.push(init);
        p
    }

    pub(crate) fn send(&mut self, port: usize, v: V) -> (ok: bool)
        requires
            old(self).wf(),
        ensures
            final(self).wf(),
            final(self).nodes@ == old(self).nodes@,
            ok == (port < old(self)@.ports.len()),
            ok ==> final(self)@ == (RuntimeView {
                ports: old(self)@.ports.update(port as int, Some(v)),
                ..old(self)@
            }),
            !ok ==> final(self)@ == old(self)@,
    {
        if port < self.ports.len() {
            self.ports.set(port, Some(v));
            true
        } else {
            false
        }
    }

    pub(crate) fn recv(&mut self, port: usize) -> (r: Option<V>)
        requires
            old(self).wf(),
        ensures
            final(self).wf(),
            final(self).nodes@ == old(self).nodes@,
            port < old(self)@.ports.len() ==> r == old(self)@.ports[port as int]
                && final(self)@ == (RuntimeView {
                ports: old(self)@.ports.update(port as int, None),
                ..old(self)@
            }),
            port >= old(self)@.ports.len() ==> r is None && final(self)@ == old(self)@,
    {
        if port < self.ports.len() {
            let r = self.ports[port].take();
            assert(self.ports@ =~= old(self).ports@.update(port as int, None));
            r
        } else {
            None
        }
    }

    pub(crate) fn add_node(&mut self, node: N) -> (h: usize)
        requires
            old(self).wf(),
            old(self)@.acts.len() < usize::MAX,
        ensures
            final(self).wf(),
            final(self).nodes@ == old(self).nodes@.push(Some(node)),
            h == old(self)@.acts.len(),
            final(self)@ == (RuntimeView {
                acts: old(self)@.acts.push(fresh_state()),
                present: old(self)@.present.push(true),
                ..old(self)@
            }),
    {
        let h = self.acts.len();
        self.nodes.push(Some(node));
        self.acts.push(ActivatorState { pending: 0, initial: 1, finalized: false, queued: false });
        assert(self@.present =~= old(self)@.present.push(true));
        h
    }
}

/// A runtime over values of type `V` and nodes of type `N`.
pub struct Toexec<V, N> {
    core: Core<V, N>,
}

impl<V, N> View for Toexec<V, N> {
    type V = RuntimeView<V>;

    closed spec fn view(&self) -> RuntimeView<V> {
        self.core@
    }
}

impl<V, N> Toexec<V, N> {
    #[verifier::type_invariant]
    spec fn inv(self) -> bool {
        self.core.wf()
    }

    /// Takes the state out, leaving an empty one of the same kind.
    fn take_core(&mut self) -> (c: Core<V, N>)
        ensures
            c.wf(),
            c@ == old(self)@,
            c.nodes@ == old(self).bodies(),
            final(self)@.reusable == old(self)@.reusable,
    {
        proof {
            use_type_invariant(&*self);
        }
        let mut c = Core::empty(self.core.reusable);
        std::mem::swap(&mut c, &mut self.core);
        c
    }

    /// An empty runtime for a single-use graph: each node runs at most once.
    pub fn new() -> (rt: Self)
        ensures
            rt@ == (RuntimeView::<V> {
                ports: Seq::empty(),
                acts: Seq::empty(),
                present: Seq::empty(),
                ready: Seq::empty(),
                workers: 1,
                worker: 0,
                reusable: false,
                fault: None,
            }),
    {
        Toexec { core: Core::empty(false) }
    }

    /// An empty runtime for a reusable graph: nodes are rearmed after they run.
    pub fn new_reusable() -> (rt: Self)
        ensures
            rt@ == (RuntimeView::<V> {
                ports: Seq::empty(),
                acts: Seq::empty(),
                present: Seq::empty(),
                ready: Seq::empty(),
                workers: 1,
                worker: 0,
                reusable: true,
                fault: None,
            }),
    {
        Toexec { core: Core::empty(true) }
    }

    /// Seals the activator count of node `h`, which has `n` upstream producers.  A node without
    /// producers is put at once in the deque of the current worker, and `Ok(true)` is returned.
    /// Finalizing a node twice, or an unknown node, is a breach of the protocol and is left out.
    pub fn finalize_node(&mut self, h: usize, n: usize) -> (r: Result<bool, ProtocolError>)
        requires
            finalize_result(old(self)@, h as nat, n as nat) is Ok,
        ensures
            final(self).bodies() == old(self).bodies(),
            final(self)@.well_formed(),
            r == Ok::<bool, ProtocolError>(n == 0),
            final(self)@ == after_finalize(old(self)@, h as nat, n as nat),
    {
        self.try_finalize_node(h, n)
    }

    /// As `finalize_node`, on any input: a breach is returned as the error, changing nothing.
    fn try_finalize_node(&mut self, h: usize, n: usize) -> (r: Result<bool, ProtocolError>)
        ensures
            final(self).bodies() == old(self).bodies(),
            final(self)@.well_formed(),
            r == finalize_result(old(self)@, h as nat, n as nat),
            final(self)@ == after_finalize(old(self)@, h as nat, n as nat),
    {
        let mut c = self.take_core();
        let r = c.finalize_node(h, n);
        self.core = c;
        r
    }

    /// Activates node `h` once; returns `Ok(true)` when this activation fired it.  Activating a
    /// node that is not armed (never finalized, or with no activation pending), or one whose body
    /// is running when it would fire, is a breach of the protocol and is left out.
    pub fn activate_node(&mut self, h: usize) -> (r: Result<bool, ProtocolError>)
        requires
            activation_result(old(self)@, h as nat) is Ok,
        ensures
            final(self).bodies() == old(self).bodies(),
            final(self)@.well_formed(),
            r == activation_result(old(self)@, h as nat),
            final(self)@ == after_activation(old(self)@, h as nat),
    {
        self.try_activate_node(h)
    }

    /// As `activate_node`, on any input: a breach is returned as the error, changing nothing but
    /// the count of a node whose running body would fire.
    fn try_activate_node(&mut self, h: usize) -> (r: Result<bool, ProtocolError>)
        ensures
            final(self).bodies() == old(self).bodies(),
            final(self)@.well_formed(),
            r == activation_result(old(self)@, h as nat),
            final(self)@ == after_activation(old(self)@, h as nat),
    {
        let mut c = self.take_core();
        let r = c.activate_node(h);
        self.core = c;
        r
    }

    /// Writes `v` into port `port`, and only then activates node `node`: the edge from a
    /// producer to the input of a node.
    pub fn send_activate(&mut self, port: usize, node: usize, v: V) -> (r: Result<
        bool,
        ProtocolError,
    >)
        ensures
            final(self).bodies() == old(self).bodies(),
            final(self)@.well_formed(),
            port < old(self)@.ports.len() ==> r == activation_result(old(self)@, node as nat)
                && final(self)@ == after_activation(after_send(old(self)@, port as nat, v), node as nat),
            port >= old(self)@.ports.len() ==> r == Err::<bool, ProtocolError>(
                ProtocolError::UnknownPort,
            ) && final(self)@ == old(self)@,
    {
        let mut c = self.take_core();
        let sent = c.send(port, v);
        if !sent {
            self.core = c;
            return Err(ProtocolError::UnknownPort);
        }
        let r = c.activate_node(node);
        self.core = c;
        r
    }

    /// Puts node `h`, which fired and waits nowhere, in the deque of the current worker.
    pub fn schedule_node(&mut self, h: usize) -> (r: Result<(), ProtocolError>)
        ensures
            final(self).bodies() == old(self).bodies(),
            final(self)@.well_formed(),
            schedulable(old(self)@, h as nat) ==> r is Ok && final(self)@ == after_queue(
                old(self)@,
                h as nat,
            ),
            !schedulable(old(self)@, h as nat) ==> r == Err::<(), ProtocolError>(
                ProtocolError::NotArmed,
            ) && final(self)@ == old(self)@,
    {
        let mut c = self.take_core();
        let r = c.schedule_node(h);
        self.core = c;
        r
    }

    /// The node bodies, by index: `None` while a body runs, and after a single-use node ran.
    pub closed spec fn bodies(&self) -> Seq<Option<N>> {
        self.core.nodes@
    }

    /// Replaces the body of node `h`, which must not be finalized yet, to wire edges that were
    /// not known when it was created; returns the body it had.  Returns `None`, and changes
    /// nothing, for a finalized or unknown node.
    pub fn replace_node(&mut self, h: usize, node: N) -> (r: Option<N>)
        ensures
            final(self)@ == old(self)@,
            h < old(self)@.acts.len() && !old(self)@.acts[h as int].finalized ==> r == old(self).bodies()[h as int] && r is Some && final(self).bodies() == old(self).bodies().update(
                h as int,
                Some(node),
            ),
            !(h < old(self)@.acts.len() && !old(self)@.acts[h as int].finalized) ==> r is None
                && final(self).bodies() == old(self).bodies(),
    {
        let mut c = self.take_core();
        let r = c.replace_node(h, node);
        self.core = c;
        r
    }

    /// Notes a protocol breach; the first one noted is kept.
    pub fn note_fault(&mut self, e: ProtocolError)
        ensures
            final(self).bodies() == old(self).bodies(),
            final(self)@ == (RuntimeView { fault: noted(old(self)@.fault, Err(e)), ..old(self)@ }),
    {
        let mut c = self.take_core();
        c.note(e);
        self.core = c;
    }

    /// The first protocol breach noted, if any.
    pub fn fault(&self) -> (f: Option<ProtocolError>)
        ensures
            f == self@.fault,
    {
        self.core.fault
    }

    /// The control state of node `h`, if there is such a node.
    pub fn activator_state(&self, h: usize) -> (s: Option<ActivatorState>)
        ensures
            h < self@.acts.len() ==> s == Some(self@.acts[h as int]),
            h >= self@.acts.len() ==> s is None,
    {
        if h < self.core.acts.len() {
            Some(self.core.acts[h])
        } else {
            None
        }
    }

    /// The number of nodes.
    pub fn node_count(&self) -> (n: usize)
        ensures
            n == self@.acts.len(),
            n == self.bodies().len(),
    {
        proof {
            use_type_invariant(self);
        }
        self.core.acts.len()
    }

    /// The number of ports.
    pub fn port_count(&self) -> (n: usize)
        ensures
            n == self@.ports.len(),
    {
        self.core.ports.len()
    }

    /// The number of entries in all ready deques together.
    pub fn ready_count(&self) -> (n: usize)
        ensures
            n == self@.ready.len(),
    {
        self.core.ready.len()
    }

    /// The number of workers.
    pub fn worker_count(&self) -> (n: usize)
        ensures
            n == self@.workers,
            n >= 1,
    {
        proof {
            use_type_invariant(self);
        }
        self.core.workers
    }

    /// Whether no node waits in any deque.
    pub fn is_quiescent(&self) -> (b: bool)
        ensures
            b == self@.quiescent(),
    {
        self.core.ready.len() == 0
    }

    /// Sets the number of workers to `k`; what waits is moved to the deque of worker 0, and
    /// worker 0 becomes the current worker.
    pub fn set_workers(&mut self, k: usize)
        requires
            k >= 1,
        ensures
            final(self).bodies() == old(self).bodies(),
            final(self)@ == (RuntimeView {
                ready: old(self)@.ready.map_values(|e: Ready| Ready { worker: 0, node: e.node }),
                workers: k as nat,
                worker: 0,
                ..old(self)@
            }),
    {
        let mut c = self.take_core();
        c.reset_workers(k);
        self.core = c;
    }

    /// Creates a port cell holding `init`; returns its index.
    pub fn create_port(&mut self, init: Option<V>) -> (p: usize)
        requires
            old(self)@.ports.len() < usize::MAX,
        ensures
            final(self).bodies() == old(self).bodies(),
            p == old(self)@.ports.len(),
            final(self)@ == (RuntimeView { ports: old(self)@.ports.push(init), ..old(self)@ }),
    {
        let mut c = self.take_core();
        let p = c.create_port(init);
        self.core = c;
        p
    }

    /// Writes `v` into port `port`, replacing what it held.  Returns false, and changes
    /// nothing, when there is no such port.
    pub fn send(&mut self, port: usize, v: V) -> (ok: bool)
        ensures
            final(self).bodies() == old(self).bodies(),
            ok == (port < old(self)@.ports.len()),
            ok ==> final(self)@ == (RuntimeView {
                ports: old(self)@.ports.update(port as int, Some(v)),
                ..old(self)@
            }),
            !ok ==> final(self)@ == old(self)@,
    {
        let mut c = self.take_core();
        let ok = c.send(port, v);
        self.core = c;
        ok
    }

    /// Takes the value out of port `port`, leaving it empty.  Returns `None` when the port is
    /// empty or does not exist.
    pub fn recv(&mut self, port: usize) -> (r: Option<V>)
        ensures
            final(self).bodies() == old(self).bodies(),
            port < old(self)@.ports.len() ==> r == old(self)@.ports[port as int]
                && final(self)@ == (RuntimeView {
                ports: old(self)@.ports.update(port as int, None),
                ..old(self)@
            }),
            port >= old(self)@.ports.len() ==> r is None && final(self)@ == old(self)@,
    {
        let mut c = self.take_core();
        let r = c.recv(port);
        self.core = c;
        r
    }

    /// Adds a node, not yet armed; returns its index.
    pub fn add_node(&mut self, node: N) -> (h: usize)
        requires
            old(self)@.acts.len() < usize::MAX,
        ensures
            final(self).bodies() == old(self).bodies().push(Some(node)),
            h == old(self)@.acts.len(),
            final(self)@ == (RuntimeView {
                acts: old(self)@.acts.push(fresh_state()),
                present: old(self)@.present.push(true),
                ..old(self)@
            }),
    {
        let mut c = self.take_core();
        let h = c.add_node(node);
        self.core = c;
        h
    }
}

/// An activator of node `node`: the control half of an edge into it.
#[derive(PartialEq, Eq, Structural, Debug, Clone, Copy)]
pub struct RcActivator {
    pub node: usize,
}

impl Default for RcActivator {
    /// A placeholder activator, for an edge whose target is not known yet: it names no node,
    /// so activating it is noted as a fault.
    fn default() -> (a: RcActivator)
        ensures
            a.node == usize::MAX,
    {
        RcActivator { node: usize::MAX }
    }
}

/// A handle on node `node`, ready to run.
#[derive(PartialEq, Eq, Structural, Debug, Clone, Copy)]
pub struct RcHandle {
    pub node: usize,
}

/// The builder of node `node`, counting the activators handed out for it.
#[derive(PartialEq, Eq, Structural, Debug, Clone, Copy)]
pub struct RcBuilder {
    pub node: usize,
    pub num_activators: usize,
}

impl RcBuilder {
    /// The builder of node `node`, with no activator yet.
    pub fn new(node: usize) -> (b: RcBuilder)
        ensures
            b.node == node,
            b.num_activators == 0,
    {
        RcBuilder { node, num_activators: 0 }
    }

    /// Hands out one more activator of the node.  The count stops at `usize::MAX`, which
    /// finalization then refuses.
    pub fn add_activator(&mut self) -> (a: RcActivator)
        ensures
            a.node == old(self).node,
            final(self).node == old(self).node,
            final(self).num_activators == if old(self).num_activators < usize::MAX {
                old(self).num_activators + 1
            } else {
                old(self).num_activators as int
            },
    {
        if self.num_activators < usize::MAX {
            self.num_activators = self.num_activators + 1;
        }
        RcActivator { node: self.node }
    }
}

impl<V, N> Toexec<V, N> {
    /// Adds a node, not yet armed, and returns its builder.
    pub fn new_node(&mut self, node: N) -> (b: RcBuilder)
        requires
            old(self)@.acts.len() < usize::MAX,
        ensures
            final(self).bodies() == old(self).bodies().push(Some(node)),
            b.node == old(self)@.acts.len(),
            b.num_activators == 0,
            final(self)@ == (RuntimeView {
                acts: old(self)@.acts.push(fresh_state()),
                present: old(self)@.present.push(true),
                ..old(self)@
            }),
    {
        let h = self.add_node(node);
        RcBuilder::new(h)
    }

    /// Creates a port holding `init`.
    pub fn new_port(&mut self, init: Option<V>) -> (p: RcPort)
        requires
            old(self)@.ports.len() < usize::MAX,
        ensures
            final(self).bodies() == old(self).bodies(),
            p.port == old(self)@.ports.len(),
            final(self)@ == (RuntimeView { ports: old(self)@.ports.push(init), ..old(self)@ }),
    {
        let p = self.create_port(init);
        RcPort::new(p)
    }

    /// Finalizes the node of `b` with the activators it handed out.
    pub fn finalize(&mut self, b: &RcBuilder) -> (r: Result<bool, ProtocolError>)
        requires
            finalize_result(old(self)@, b.node as nat, b.num_activators as nat) is Ok,
        ensures
            final(self).bodies() == old(self).bodies(),
            final(self)@.well_formed(),
            r == Ok::<bool, ProtocolError>(b.num_activators == 0),
            final(self)@ == after_finalize(old(self)@, b.node as nat, b.num_activators as nat),
    {
        self.finalize_node(b.node, b.num_activators)
    }

    /// Finalizes the node of `b`; a breach of the protocol is noted as the fault.
    fn finalize_or_note(&mut self, b: &RcBuilder)
        ensures
            final(self).bodies() == old(self).bodies(),
            final(self)@ == (RuntimeView {
                fault: noted(
                    old(self)@.fault,
                    finalize_result(old(self)@, b.node as nat, b.num_activators as nat),
                ),
                ..after_finalize(old(self)@, b.node as nat, b.num_activators as nat)
            }),
    {
        match self.try_finalize_node(b.node, b.num_activators) {
            Ok(_) => {},
            Err(e) => self.note_fault(e),
        }
    }

    /// Activates node `h` once.  A breach of the protocol is left out, as for `activate_node`.
    pub fn activate(&mut self, h: usize)
        requires
            activation_result(old(self)@, h as nat) is Ok,
        ensures
            final(self).bodies() == old(self).bodies(),
            final(self)@.well_formed(),
            final(self)@ == after_activation(old(self)@, h as nat),
    {
        self.activate_node(h);
    }

    /// Activates node `h` once; a breach of the protocol is noted as the fault.
    fn activate_or_note(&mut self, h: usize)
        ensures
            final(self).bodies() == old(self).bodies(),
            final(self)@.well_formed(),
            final(self)@ == (RuntimeView {
                fault: noted(old(self)@.fault, activation_result(old(self)@, h as nat)),
                ..after_activation(old(self)@, h as nat)
            }),
    {
        match self.try_activate_node(h) {
            Ok(_) => {},
            Err(e) => self.note_fault(e),
        }
    }

    /// Writes `v` into port `port`, then activates node `node`; a breach of the protocol is
    /// noted as the fault.
    pub fn deliver(&mut self, port: usize, node: usize, v: V)
        ensures
            final(self).bodies() == old(self).bodies(),
            final(self)@.well_formed(),
            final(self)@ == delivered(old(self)@, port as nat, node as nat, v),
    {
        match self.send_activate(port, node, v) {
            Ok(_) => {},
            Err(e) => self.note_fault(e),
        }
    }
}

impl<V, N> Scheduler for Toexec<V, N> {
    type Handle = RcHandle;

    fn schedule(&mut self, handle: RcHandle)
        ensures
            final(self).bodies() == old(self).bodies(),
            schedulable(old(self)@, handle.node as nat) ==> final(self)@ == after_queue(
                old(self)@,
                handle.node as nat,
            ),
            !schedulable(old(self)@, handle.node as nat) ==> final(self)@ == (RuntimeView {
                fault: noted(old(self)@.fault, Err(ProtocolError::NotArmed)),
                ..old(self)@
            }),
    {
        match self.schedule_node(handle.node) {
            Ok(()) => {},
            Err(e) => self.note_fault(e),
        }
    }
}

impl<V, N> GraphSpec for Toexec<V, N> {
    type Activator = RcActivator;
}

impl<V, N> NodeBuilder<Toexec<V, N>> for RcBuilder {
    type Node = N;

    fn add_activator(&mut self) -> (a: RcActivator)
        ensures
            a.node == old(self).node,
            final(self).node == old(self).node,
            final(self).num_activators == if old(self).num_activators < usize::MAX {
                old(self).num_activators + 1
            } else {
                old(self).num_activators as int
            },
    {
        RcBuilder::add_activator(self)
    }

    fn finalize(&mut self, spec: &mut Toexec<V, N>)
        ensures
            *final(self) == *old(self),
            final(spec).bodies() == old(spec).bodies(),
            final(spec)@ == (RuntimeView {
                fault: noted(
                    old(spec)@.fault,
                    finalize_result(old(spec)@, old(self).node as nat, old(self).num_activators as nat),
                ),
                ..after_finalize(old(spec)@, old(self).node as nat, old(self).num_activators as nat)
            }),
    {
        spec.finalize_or_note(self)
    }
}

impl<V, N> NodeSpec<N> for Toexec<V, N> {
    type Builder = RcBuilder;

    fn node(&mut self, node: N) -> (b: RcBuilder)
        ensures
            b.num_activators == 0,
            old(self)@.acts.len() < usize::MAX ==> b.node == old(self)@.acts.len() && final(self)@
                == (RuntimeView {
                acts: old(self)@.acts.push(fresh_state()),
                present: old(self)@.present.push(true),
                ..old(self)@
            }) && final(self).bodies() == old(self).bodies().push(Some(node)),
            old(self)@.acts.len() >= usize::MAX ==> b.node == usize::MAX && final(self)@ == old(self)@ && final(self).bodies() == old(self).bodies(),
    {
        if self.node_count() < usize::MAX {
            self.new_node(node)
        } else {
            RcBuilder::new(usize::MAX)
        }
    }
}

impl<V, N> PortSpec<Option<V>> for Toexec<V, N> {
    type Port = RcPort;

    fn port(&mut self, init: Option<V>) -> (p: RcPort)
        ensures
            final(self).bodies() == old(self).bodies(),
            old(self)@.ports.len() < usize::MAX ==> p.port == old(self)@.ports.len() && final(self)@ == (RuntimeView { ports: old(self)@.ports.push(init), ..old(self)@ }),
            old(self)@.ports.len() >= usize::MAX ==> p.port == usize::MAX && final(self)@ == old(self)@,
    {
        if self.port_count() < usize::MAX {
            self.new_port(init)
        } else {
            RcPort::new(usize::MAX)
        }
    }
}

impl<V, N> ActivatorOnce<Toexec<V, N>> for RcActivator {
    fn activate_once(self, scheduler: &mut Toexec<V, N>)
        ensures
            final(scheduler).bodies() == old(scheduler).bodies(),
            final(scheduler)@ == (RuntimeView {
                fault: noted(old(scheduler)@.fault, activation_result(old(scheduler)@, self.node as nat)),
                ..after_activation(old(scheduler)@, self.node as nat)
            }),
    {
        scheduler.activate_or_note(self.node)
    }
}

impl<V, N> ActivatorMut<Toexec<V, N>> for RcActivator {
    fn activate_mut(&mut self, scheduler: &mut Toexec<V, N>)
        ensures
            final(scheduler).bodies() == old(scheduler).bodies(),
            final(scheduler)@ == (RuntimeView {
                fault: noted(old(scheduler)@.fault, activation_result(old(scheduler)@, old(self).node as nat)),
                ..after_activation(old(scheduler)@, old(self).node as nat)
            }),
    {
        scheduler.activate_or_note(self.node)
    }
}

impl<V, N> Activator<Toexec<V, N>> for RcActivator {
    fn activate(&self, scheduler: &mut Toexec<V, N>)
        ensures
            final(scheduler).bodies() == old(scheduler).bodies(),
            final(scheduler)@ == (RuntimeView {
                fault: noted(old(scheduler)@.fault, activation_result(old(scheduler)@, self.node as nat)),
                ..after_activation(old(scheduler)@, self.node as nat)
            }),
    {
        scheduler.activate_or_note(self.node)
    }
}

/// The state when node `h`, just taken from a deque by worker `j`, starts to run: its body
/// leaves the arena, and a reusable node is rearmed.
pub open spec fn started<V>(v: RuntimeView<V>, h: nat, j: nat) -> RuntimeView<V> {
    RuntimeView {
        acts: if v.reusable {
            v.acts.update(h as int, rearmed(v.acts[h as int]))
        } else {
            v.acts
        },
        present: v.present.update(h as int, false),
        worker: j,
        ..v
    }
}

/// The state after the body of node `h` returned: a reusable node gets its body back and gives
/// back its running handle's own activation, a breach being noted as the fault; a single-use
/// node stays consumed.
pub open spec fn finished<V>(v: RuntimeView<V>, h: nat) -> RuntimeView<V> {
    if v.reusable && h < v.acts.len() {
        let w = RuntimeView { present: v.present.update(h as int, true), ..v };
        RuntimeView { fault: noted(w.fault, activation_result(w, h)), ..after_activation(w, h) }
    } else {
        v
    }
}

/// Whether state `b` can follow state `a` by one step of worker `j`: the worker takes the
/// front `h` of the deque it chooses, and `b` is what is left once the body of `h` returned
/// from some state `m` (see `finished`).
pub open spec fn step_of<V>(a: RuntimeView<V>, j: nat, b: RuntimeView<V>) -> bool {
    exists|i: int, w: nat, m: RuntimeView<V>|
        #![trigger is_front(a.ready, w, i), finished(m, a.ready[i].node as nat)]
        chosen_deque(a.ready, j, a.workers, w) && is_front(a.ready, w, i) && b == finished(
            m,
            a.ready[i].node as nat,
        )
}

/// Whether `tr` is the trace of a run: each state follows the one before by a step of some
/// worker.
pub open spec fn is_run<V>(tr: Seq<RuntimeView<V>>) -> bool {
    forall|i: int| 0 <= i < tr.len() - 1 ==> #[trigger] stepped(tr, i)
}

/// Whether state `i + 1` of trace `tr` follows state `i` by a step of some worker.
pub open spec fn stepped<V>(tr: Seq<RuntimeView<V>>, i: int) -> bool {
    exists|j: nat| j < tr[i].workers && #[trigger] step_of(tr[i], j, tr[i + 1])
}

/// The state of a run with `k` workers before any node runs: what waits is moved to the
/// deque of worker 0.
pub open spec fn prepared<V>(v: RuntimeView<V>, k: nat) -> RuntimeView<V> {
    RuntimeView {
        ready: v.ready.map_values(|e: Ready| Ready { worker: 0, node: e.node }),
        workers: k,
        worker: 0,
        ..v
    }
}

impl<V, N> Toexec<V, N> {
    /// The first half of a step of worker `j`: takes the front of its own deque, or else the
    /// front of the first deque with work among the others in rotation order, and takes the
    /// node's body out of the arena to run it; a reusable node is rearmed.  Returns the node,
    /// the deque it came from and its body, or `None`, changing nothing, when no node waits.
    fn begin_step(&mut self, j: usize) -> (r: Option<(usize, usize, N)>)
        requires
            j < old(self)@.workers,
        ensures
            final(self)@.well_formed(),
            r is None ==> old(self)@.quiescent(),
            r is None ==> final(self)@ == old(self)@,
            r is None ==> final(self).bodies() == old(self).bodies(),
            r is Some ==> chosen_deque(
                old(self)@.ready,
                j as nat,
                old(self)@.workers,
                (r->Some_0).1 as nat,
            ),
            r is Some ==> exists|i: int|
                is_front(old(self)@.ready, (r->Some_0).1 as nat, i) && old(self)@.ready[i].node == (
                r->Some_0).0 && final(self)@ == started(
                    after_take(old(self)@, i),
                    (r->Some_0).0 as nat,
                    j as nat,
                ),
            r is Some ==> (r->Some_0).0 < old(self)@.acts.len(),
            r is Some ==> old(self).bodies()[(r->Some_0).0 as int] == Some((r->Some_0).2),
            r is Some ==> final(self).bodies() == old(self).bodies().update((r->Some_0).0 as int, None),
    {
        let mut c = self.take_core();
        let ghost pre = c@;
        let ghost pre_nodes = c.nodes@;
        let taken = c.take_work(j);
        if taken.is_none() {
            self.core = c;
            assert(self.bodies() =~= old(self).bodies());
            assert(self@ =~= old(self)@);
            return None;
        }
        let (h, w) = taken.unwrap();
        let ghost i = choose|i: int|
            is_front(pre.ready, w as nat, i) && pre.ready[i].node == h && c@ == after_take(pre, i);
        let ghost mid = c@;
        c.set_worker(j);
        let body = c.nodes[h].take();
        if c.reusable {
            let s = c.acts[h];
            c.acts.set(h, ActivatorState { pending: s.initial, ..s });
        }
        proof {
            let v = c@;
            assert(v.present =~= mid.present.update(h as int, false));
            assert forall|q: int| 0 <= q < v.acts.len() implies node_consistent(
                v.acts[q],
                v.present[q],
            ) by {
                if q != h {
                    assert(node_consistent(mid.acts[q], mid.present[q]));
                }
            }
            assert forall|e: int| 0 <= e < v.ready.len() implies {
                &&& v.ready[e].worker < v.workers
                &&& v.ready[e].node < v.acts.len()
                &&& v.acts[v.ready[e].node as int].queued
            } by {
                assert(mid.acts[mid.ready[e].node as int].queued);
            }
            assert(v =~= started(mid, h as nat, j as nat));
        }
        self.core = c;
        proof {
            assert(self.bodies() =~= old(self).bodies().update(h as int, None));
            assert(body == pre_nodes[h as int]);
        }
        match body {
            Some(node) => {
                let r = Some((h, w, node));
                assert(is_front(old(self)@.ready, (r->Some_0).1 as nat, i) && old(self)@.ready[i].node
                    == (r->Some_0).0 && self@ == started(
                    after_take(old(self)@, i),
                    (r->Some_0).0 as nat,
                    j as nat,
                ));
                r
            },
            None => {
                proof {
                    assert(mid.present[h as int]);
                }
                None
            },
        }
    }

    /// The second half of a step: the body of node `h` returned.  A reusable node gets its body
    /// back and gives back its running handle's own activation, so it fires again only once
    /// all its producers have activated it anew; a single-use node stays consumed.
    fn end_run(&mut self, h: usize, node: N)
        ensures
            final(self)@.well_formed(),
            final(self)@ == finished(old(self)@, h as nat),
            old(self)@.reusable && h < old(self)@.acts.len() ==> final(self).bodies() == old(self).bodies().update(h as int, Some(node)),
            !(old(self)@.reusable && h < old(self)@.acts.len()) ==> final(self).bodies() == old(self).bodies(),
    {
        let mut c = self.take_core();
        if c.reusable && h < c.nodes.len() {
            c.nodes.set(h, Some(node));
            let ghost w = c@;
            proof {
                assert(w.present =~= old(self)@.present.update(h as int, true));
                assert(w =~= RuntimeView { present: old(self)@.present.update(h as int, true), ..old(self)@ });
                assert forall|q: int| 0 <= q < w.acts.len() implies node_consistent(
                    w.acts[q],
                    w.present[q],
                ) by {
                    assert(node_consistent(old(self)@.acts[q], old(self)@.present[q]));
                }
            }
            match c.activate_node(h) {
                Ok(_) => {},
                Err(e) => c.note(e),
            }
        }
        self.core = c;
        proof {
            use_type_invariant(&*self);
        }
    }
}

impl<V, N: NodeMut<Toexec<V, N>>> Toexec<V, N> {
    /// One step of worker `j`: it takes the front of its own deque, or else steals the front of
    /// the first deque with work among the others, in rotation order; then it runs that node.
    /// Returns the node and the deque it came from, or `None` when no node waits anywhere, in
    /// which case nothing changes.
    pub fn step(&mut self, j: usize) -> (r: Option<(usize, usize)>)
        requires
            j < old(self)@.workers,
        ensures
            final(self)@.well_formed(),
            match r {
                None => old(self)@.quiescent() && final(self)@ == old(self)@ && final(self).bodies()
                    == old(self).bodies(),
                Some((h, w)) => chosen_deque(old(self)@.ready, j as nat, old(self)@.workers, w as nat)
                    && exists|i: int|
                    is_front(old(self)@.ready, w as nat, i) && old(self)@.ready[i].node == h,
            },
            r is Some ==> exists|m: RuntimeView<V>|
                #[trigger] finished(m, (r->Some_0).0 as nat) == final(self)@,
            r is Some ==> step_of(old(self)@, j as nat, final(self)@),
    {
        let ghost pre = self@;
        match self.begin_step(j) {
            Some((h, w, mut node)) => {
                node.execute_mut(self);
                let ghost m = self@;
                self.end_run(h, node);
                assert(finished(m, h as nat) == self@);
                proof {
                    let i = choose|i: int| is_front(pre.ready, w as nat, i) && pre.ready[i].node == h;
                    assert(chosen_deque(pre.ready, j as nat, pre.workers, w as nat) && is_front(
                        pre.ready,
                        w as nat,
                        i,
                    ) && self@ == finished(m, pre.ready[i].node as nat));
                }
                Some((h, w))
            },
            None => None,
        }
    }

    /// One step of worker `j` in a pool: as `step`, counting in `tours` the empty rounds in a
    /// row.  After `IDLE_TOUR_LIMIT` of them the worker stops.
    pub fn worker_step(&mut self, j: usize, tours: &mut Compteur) -> (r: WorkerStep)
        requires
            j < old(self)@.workers,
        ensures
            final(self)@.well_formed(),
            match r {
                WorkerStep::Ran { node } => final(tours)@ == 0 && exists|i: int|
                    is_front(old(self)@.ready, j as nat, i) && old(self)@.ready[i].node == node,
                WorkerStep::Stole { node, victim } => {
                    &&& final(tours)@ == 0
                    &&& victim != j
                    &&& chosen_deque(old(self)@.ready, j as nat, old(self)@.workers, victim as nat)
                    &&& exists|i: int|
                        is_front(old(self)@.ready, victim as nat, i) && old(self)@.ready[i].node
                            == node
                },
                WorkerStep::Idle => {
                    &&& old(self)@.quiescent()
                    &&& final(self)@ == old(self)@
                    &&& old(tours)@ < IDLE_TOUR_LIMIT
                    &&& final(tours)@ == old(tours)@ + 1
                },
                WorkerStep::Exit => {
                    &&& old(self)@.quiescent()
                    &&& final(self)@ == old(self)@
                    &&& old(tours)@ >= IDLE_TOUR_LIMIT
                    &&& final(tours)@ == old(tours)@
                },
            },
    {
        let ghost pre = self@;
        match self.step(j) {
            Some((h, w)) => {
                tours.reset();
                if w == j {
                    proof {
                        let i = choose|i: int|
                            is_front(pre.ready, w as nat, i) && pre.ready[i].node == h;
                        assert(is_front(pre.ready, j as nat, i));
                    }
                    WorkerStep::Ran { node: h }
                } else {
                    WorkerStep::Stole { node: h, victim: w }
                }
            },
            None => {
                if tours.value() >= IDLE_TOUR_LIMIT {
                    WorkerStep::Exit
                } else {
                    let before = tours.add_wrapping(1);
                    proof {
                        lemma_small_mod((before + 1) as nat, usize::MAX as nat + 1);
                    }
                    WorkerStep::Idle
                }
            },
        }
    }

    /// Runs the graph with `k` workers, which take turns, until no node waits in any deque, or
    /// until a breach of the protocol is noted: the run stops at the first fault, and does not
    /// start on a runtime that holds one.  What waits is first moved to the deque of worker 0.
    /// Returns the number of nodes run; a run also stops after `usize::MAX` of them.
    pub fn execute(&mut self, k: usize) -> (steps: usize)
        requires
            k >= 1,
        ensures
            final(self)@.well_formed(),
            old(self)@.quiescent() || old(self)@.fault is Some ==> steps == 0 && final(self)@
                == prepared(old(self)@, k as nat) && final(self).bodies() == old(self).bodies(),
            steps < usize::MAX ==> final(self)@.quiescent() || final(self)@.fault is Some,
            final(self)@.fault is Some <== old(self)@.fault is Some,
            exists|tr: Seq<RuntimeView<V>>|
                {
                    &&& tr.len() == steps + 1
                    &&& tr[0] == prepared(old(self)@, k as nat)
                    &&& tr[steps as int] == final(self)@
                    &&& is_run(tr)
                },
    {
        self.set_workers(k);
        let mut steps: usize = 0;
        let mut turn: usize = 0;
        let ghost mut tr: Seq<RuntimeView<V>> = seq![self@];
        while steps < usize::MAX
            invariant
                tr.len() == steps + 1,
                tr[0] == prepared(old(self)@, k as nat),
                tr[steps as int] == self@,
                is_run(tr),
                steps == 0 ==> self@ == prepared(old(self)@, k as nat) && self.bodies() == old(self).bodies(),
                old(self)@.fault is Some || old(self)@.quiescent() ==> steps == 0,
            decreases usize::MAX - steps,
        {
            if self.is_quiescent() || self.fault().is_some() {
                proof {
                    use_type_invariant(&*self);
                }
                return steps;
            }
            let w = self.worker_count();
            let j = turn % w;
            let ghost before = self@;
            match self.step(j) {
                Some(_) => {
                    proof {
                        let tr2 = tr.push(self@);
                        assert forall|i: int| 0 <= i < tr2.len() - 1 implies #[trigger] stepped(
                            tr2,
                            i,
                        ) by {
                            if i < tr.len() - 1 {
                                assert(tr2[i] == tr[i] && tr2[i + 1] == tr[i + 1]);
                                assert(stepped(tr, i));
                            } else {
                                assert(tr2[i] == before && tr2[i + 1] == self@);
                                assert(step_of(before, j as nat, self@));
                            }
                        }
                        tr = tr2;
                    }
                },
                None => {
                    proof {
                        use_type_invariant(&*self);
                    }
                    return steps;
                },
            }
            steps = steps + 1;
            turn = if turn < usize::MAX { turn + 1 } else { 0 };
        }
        proof {
            use_type_invariant(&*self);
        }
        steps
    }
}

} // verus!
