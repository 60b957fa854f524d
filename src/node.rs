//! Nodes: a task bound to its input and output edges, and a placeholder node.

use vstd::prelude::*;
use crate::activator::ProtocolError;
use crate::api::{NodeMut, NodeOnce, TaskMut, TaskOnce, Tuple};
use crate::runtime::{RuntimeView, Toexec, noted};

verus! {

/// A placeholder for a node not yet known.  Running it is a breach of the protocol, which the
/// runtime notes as its fault.
#[derive(PartialEq, Eq, Structural, Debug, Clone, Copy)]
pub struct UninitializedNode;

impl UninitializedNode {
    /// Notes that the placeholder was run.
    pub fn run_placeholder<V, N>(&self, scheduler: &mut Toexec<V, N>)
        ensures
            final(scheduler)@ == (RuntimeView {
                fault: noted(old(scheduler)@.fault, Err(ProtocolError::Uninitialized)),
                ..old(scheduler)@
            }),
            final(scheduler).bodies() == old(scheduler).bodies(),
    {
        scheduler.note_fault(ProtocolError::Uninitialized)
    }
}

impl<V, N> NodeOnce<Toexec<V, N>> for UninitializedNode {
    fn execute_once(self, scheduler: &mut Toexec<V, N>)
        ensures
            final(scheduler)@ == (RuntimeView {
                fault: noted(old(scheduler)@.fault, Err(ProtocolError::Uninitialized)),
                ..old(scheduler)@
            }),
            final(scheduler).bodies() == old(scheduler).bodies(),
    {
        self.run_placeholder(scheduler)
    }
}

impl<V, N> NodeMut<Toexec<V, N>> for UninitializedNode {
    fn execute_mut(&mut self, scheduler: &mut Toexec<V, N>)
        ensures
            final(scheduler)@ == (RuntimeView {
                fault: noted(old(scheduler)@.fault, Err(ProtocolError::Uninitialized)),
                ..old(scheduler)@
            }),
            final(scheduler).bodies() == old(scheduler).bodies(),
    {
        self.run_placeholder(scheduler)
    }
}

/// A task together with the edges it reads and writes.
pub struct TaskNode<I: Tuple, O: Tuple, T> {
    /// The input edges, as a tuple.
    pub inputs: I,
    /// The output edges, as a tuple.
    pub outputs: O,
    /// The task body.
    pub task: T,
}

impl<S, I: Tuple, O: Tuple, T: TaskOnce<I, O, S>> NodeOnce<S> for TaskNode<I, O, T> {
    fn execute_once(self, scheduler: &mut S) {
        self.task.run_once(scheduler, self.inputs, self.outputs)
    }
}

impl<S, I: Tuple + Clone, O: Tuple + Clone, T: TaskMut<I, O, S>> NodeMut<S> for TaskNode<
    I,
    O,
    T,
> {
    fn execute_mut(&mut self, scheduler: &mut S) {
        let inputs = self.inputs.clone();
        let outputs = self.outputs.clone();
        self.task.run_mut(scheduler, inputs, outputs)
    }
}

/// A strict function, taking the values of all inputs and returning those of all outputs,
/// held as a task.
pub struct StrictTask<F> {
    inner: F,
}

impl<F> StrictTask<F> {
    /// The task of function `inner`.
    pub fn new(inner: F) -> (t: StrictTask<F>)
        ensures
            t.function() == inner,
    {
        StrictTask { inner }
    }

    /// The function held.
    pub closed spec fn function(&self) -> F {
        self.inner
    }

    /// Borrows the function held.
    pub fn inner(&self) -> (f: &F)
        ensures
            *f == self.function(),
    {
        &self.inner
    }

    /// Gives back the function held.
    pub fn into_inner(self) -> (f: F)
        ensures
            f == self.function(),
    {
        self.inner
    }
}

} // verus!
