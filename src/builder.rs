//! Scoped graph building: a builder that borrows the runtime while nodes are wired, and counts
//! the nodes created in it that were not finalized.

use vstd::prelude::*;
use crate::activator::{ProtocolError, fresh_state};
use crate::api::GraphSpec;
use crate::port::RcPort;
use crate::runtime::{RcActivator, RcBuilder, RuntimeView, Toexec, after_finalize, finalize_result};

verus! {

/// A runtime that can open a building scope over itself.
pub trait GraphSpecExt<'a>: GraphSpec {
    type Scope;

    fn build_scope(&'a mut self) -> Self::Scope;
}

impl<'a, V: 'a, N: 'a> GraphSpecExt<'a> for Toexec<V, N> {
    type Scope = ScopedGraphBuilder<'a, V, N>;

    fn build_scope(&'a mut self) -> ScopedGraphBuilder<'a, V, N> {
        ScopedGraphBuilder::new(self)
    }
}

/// The builder of one node created in a scope.
#[derive(PartialEq, Eq, Structural, Debug, Clone, Copy)]
pub struct ScopedNodeBuilder {
    pub builder: RcBuilder,
}

impl ScopedNodeBuilder {
    /// Hands out one more activator of the node.
    pub fn add_activator(&mut self) -> (a: RcActivator)
        ensures
            a.node == old(self).builder.node,
            final(self).builder.node == old(self).builder.node,
            final(self).builder.num_activators == if old(self).builder.num_activators
                < usize::MAX {
                old(self).builder.num_activators + 1
            } else {
                old(self).builder.num_activators as int
            },
    {
        self.builder.add_activator()
    }

    /// Replaces the body of the node, before it is finalized, to wire edges that were not known
    /// when it was created; returns the body it had, or `None`, changing nothing, once the node
    /// is finalized.
    pub fn borrow_mut<'a, V, N>(&self, scope: &mut ScopedGraphBuilder<'a, V, N>, node: N) -> (r:
        Option<N>)
        ensures
            final(scope).runtime() == old(scope).runtime(),
            final(scope).unfinalized() == old(scope).unfinalized(),
            r is Some <==> self.builder.node < old(scope).runtime().acts.len()
                && !old(scope).runtime().acts[self.builder.node as int].finalized,
            r is Some ==> final(scope).bodies() == old(scope).bodies().update(
                self.builder.node as int,
                Some(node),
            ),
            r is None ==> final(scope).bodies() == old(scope).bodies(),
    {
        scope.spec.replace_node(self.builder.node, node)
    }
}

/// A building scope over a runtime.
pub struct ScopedGraphBuilder<'a, V, N> {
    spec: &'a mut Toexec<V, N>,
    open: usize,
}

impl<'a, V, N> ScopedGraphBuilder<'a, V, N> {
    /// The runtime being built.
    pub closed spec fn runtime(&self) -> RuntimeView<V> {
        (*self.spec)@
    }

    /// The node bodies of the runtime being built.
    pub closed spec fn bodies(&self) -> Seq<Option<N>> {
        (*self.spec).bodies()
    }

    /// The number of nodes created in this scope and not yet finalized.
    pub closed spec fn unfinalized(&self) -> nat {
        self.open as nat
    }

    /// Opens a scope over `spec`.
    pub fn new(spec: &'a mut Toexec<V, N>) -> (b: Self)
        ensures
            b.runtime() == old(spec)@,
            b.unfinalized() == 0,
    {
        ScopedGraphBuilder { spec, open: 0 }
    }

    /// Adds a node, not yet armed, and returns its builder.
    pub fn node(&mut self, node: N) -> (b: ScopedNodeBuilder)
        requires
            old(self).runtime().acts.len() < usize::MAX,
            old(self).unfinalized() < usize::MAX,
        ensures
            b.builder.node == old(self).runtime().acts.len(),
            b.builder.num_activators == 0,
            final(self).runtime() == (RuntimeView {
                acts: old(self).runtime().acts.push(fresh_state()),
                present: old(self).runtime().present.push(true),
                ..old(self).runtime()
            }),
            final(self).unfinalized() == old(self).unfinalized() + 1,
            final(self).bodies() == old(self).bodies().push(Some(node)),
    {
        let builder = self.spec.new_node(node);
        self.open = self.open + 1;
        ScopedNodeBuilder { builder }
    }

    /// Creates a port holding `init`.
    pub fn port(&mut self, init: Option<V>) -> (p: RcPort)
        requires
            old(self).runtime().ports.len() < usize::MAX,
        ensures
            p.port == old(self).runtime().ports.len(),
            final(self).runtime() == (RuntimeView {
                ports: old(self).runtime().ports.push(init),
                ..old(self).runtime()
            }),
            final(self).unfinalized() == old(self).unfinalized(),
            final(self).bodies() == old(self).bodies(),
    {
        self.spec.new_port(init)
    }

    /// Finalizes the node of `b`, which was created in this scope.
    pub fn finalize(&mut self, b: ScopedNodeBuilder) -> (r: Result<bool, ProtocolError>)
        requires
            finalize_result(
                old(self).runtime(),
                b.builder.node as nat,
                b.builder.num_activators as nat,
            ) is Ok,
        ensures
            r == finalize_result(
                old(self).runtime(),
                b.builder.node as nat,
                b.builder.num_activators as nat,
            ),
            final(self).runtime() == after_finalize(
                old(self).runtime(),
                b.builder.node as nat,
                b.builder.num_activators as nat,
            ),
            final(self).unfinalized() == if r is Ok && old(self).unfinalized() > 0 {
                old(self).unfinalized() - 1
            } else {
                old(self).unfinalized() as int
            },
            final(self).bodies() == old(self).bodies(),
    {
        let r = self.spec.finalize(&b.builder);
        if r.is_ok() && self.open > 0 {
            self.open = self.open - 1;
        }
        r
    }

    /// Mutable access to the runtime, to replace the body of a node not yet finalized or to
    /// wire what the scope does not offer.
    pub fn borrow_mut(&mut self) -> (rt: &mut Toexec<V, N>)
        ensures
            (*rt)@ == old(self).runtime(),
    {
        &mut *self.spec
    }

    /// Closes the scope; returns the number of nodes created in it that were never finalized,
    /// and so can never run.
    pub fn finish(self) -> (leaked: usize)
        ensures
            leaked == self.unfinalized(),
    {
        self.open
    }
}

} // verus!
