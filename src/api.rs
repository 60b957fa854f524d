//! The traits through which tasks, edges, ports, activators and schedulers talk to each other.
//!
//! Each family comes in three reuse disciplines: `Once` consumes the value, `Mut` borrows it
//! mutably and may be used again, and the plain trait borrows it immutably.

use vstd::prelude::*;

verus! {

/// Marks a type that must be a tuple, so that tasks of any arity take their inputs and outputs
/// as one value.
pub trait Tuple {}

impl Tuple for () {}

impl<A> Tuple for (A,) {}

impl<A, B> Tuple for (A, B) {}

impl<A, B, C> Tuple for (A, B, C) {}

impl<A, B, C, D> Tuple for (A, B, C, D) {}

/// Activation that consumes the activator.
pub trait ActivatorOnce<S> {
    /// Takes one pending activation away, and schedules the node if it became ready.
    fn activate_once(self, scheduler: &mut S);
}

/// Activation through a mutable activator, which may be activated again in a later round.
pub trait ActivatorMut<S>: ActivatorOnce<S> {
    fn activate_mut(&mut self, scheduler: &mut S);
}

/// Activation through a shared activator.
pub trait Activator<S>: ActivatorMut<S> {
    fn activate(&self, scheduler: &mut S);
}

/// A sender that is used once.
pub trait SenderOnce {
    type Item;

    /// Writes `item` into the port, replacing what it held.
    fn send_once(self, item: Self::Item);
}

/// A sender that may be used repeatedly and may change its own state.
pub trait SenderMut: SenderOnce {
    fn send_mut(&mut self, item: Self::Item);
}

/// A sender that may be used repeatedly through a shared reference.
pub trait Sender: SenderMut {
    fn send(&self, item: Self::Item);
}

/// A receiver that is used once.
pub trait ReceiverOnce {
    type Item;

    /// Takes the value out of the port.
    fn recv_once(self) -> Self::Item;
}

/// A receiver that may be used repeatedly and may change its own state.
pub trait ReceiverMut: ReceiverOnce {
    fn recv_mut(&mut self) -> Self::Item;
}

/// A receiver that may be used repeatedly through a shared reference.
pub trait Receiver: ReceiverMut {
    fn recv(&self) -> Self::Item;
}

/// A one-slot port that splits into a sending half and a receiving half.
pub trait Port {
    type Sender;

    type Receiver;

    fn split(self) -> (Self::Sender, Self::Receiver);
}

/// An output edge used once: it sends the item, then activates the node downstream.
pub trait OutputEdgeOnce<S> {
    type Item;

    /// Whether sending `item` along this edge may take the scheduler from `before` to `after`.
    spec fn sends(&self, before: S, item: Self::Item, after: S) -> bool;

    fn send_activate_once(self, scheduler: &mut S, item: Self::Item)
        ensures
            self.sends(*old(scheduler), item, *final(scheduler)),
    ;
}

/// An output edge that can be used from a box.
pub trait OutputEdgeBox<S>: OutputEdgeOnce<S> {
    fn send_activate_box(self: Box<Self>, scheduler: &mut S, item: Self::Item)
        ensures
            (*self).sends(*old(scheduler), item, *final(scheduler)),
    ;
}

impl<S, E: OutputEdgeOnce<S>> OutputEdgeBox<S> for E {
    fn send_activate_box(self: Box<Self>, scheduler: &mut S, item: Self::Item) {
        (*self).send_activate_once(scheduler, item)
    }
}

/// An output edge that may be used repeatedly and may change its own state.
pub trait OutputEdgeMut<S>: OutputEdgeBox<S> {
    fn send_activate_mut(&mut self, scheduler: &mut S, item: Self::Item)
        ensures
            old(self).sends(*old(scheduler), item, *final(scheduler)),
    ;
}

/// An output edge that may be used repeatedly through a shared reference.
pub trait OutputEdge<S>: OutputEdgeMut<S> {
    fn send_activate(&self, scheduler: &mut S, item: Self::Item)
        ensures
            self.sends(*old(scheduler), item, *final(scheduler)),
    ;
}

/// An input edge used once: it receives the item sent upstream.
pub trait InputEdgeOnce<S> {
    type Item;

    fn recv_activate_once(self, scheduler: &mut S) -> Self::Item;
}

/// An input edge that can be used from a box.
pub trait InputEdgeBox<S>: InputEdgeOnce<S> {
    fn recv_activate_box(self: Box<Self>, scheduler: &mut S) -> Self::Item;
}

impl<S, E: InputEdgeOnce<S>> InputEdgeBox<S> for E {
    fn recv_activate_box(self: Box<Self>, scheduler: &mut S) -> Self::Item {
        (*self).recv_activate_once(scheduler)
    }
}

/// An input edge that may be used repeatedly and may change its own state.
pub trait InputEdgeMut<S>: InputEdgeBox<S> {
    fn recv_activate_mut(&mut self, scheduler: &mut S) -> Self::Item;
}

/// An input edge that may be used repeatedly through a shared reference.
pub trait InputEdge<S>: InputEdgeMut<S> {
    fn recv_activate(&self, scheduler: &mut S) -> Self::Item;
}

/// A node that is executed once and consumed.
pub trait NodeOnce<S> {
    fn execute_once(self, scheduler: &mut S);
}

/// A node that can be executed from a box.
pub trait NodeBox<S> {
    fn execute_box(self: Box<Self>, scheduler: &mut S);
}

impl<S, N: NodeOnce<S>> NodeBox<S> for N {
    fn execute_box(self: Box<Self>, scheduler: &mut S) {
        (*self).execute_once(scheduler);
    }
}

/// A node that can be executed repeatedly and may change its own state.
pub trait NodeMut<S> {
    fn execute_mut(&mut self, scheduler: &mut S);
}

/// A task run once: it receives its inputs and sends its outputs through the edges it is given.
pub trait TaskOnce<I: Tuple, O: Tuple, S> {
    fn run_once(self, scheduler: &mut S, inputs: I, outputs: O);
}

/// A task that can run repeatedly, one run at a time.
pub trait TaskMut<I: Tuple, O: Tuple, S> {
    fn run_mut(&mut self, scheduler: &mut S, inputs: I, outputs: O);
}

/// A task that can run repeatedly, also concurrently.
pub trait Task<I: Tuple, O: Tuple, S> {
    fn run(&self, scheduler: &mut S, inputs: I, outputs: O);
}

/// A scheduler that accepts ready nodes.
pub trait Scheduler {
    type Handle;

    fn schedule(&mut self, handle: Self::Handle);
}

/// A runtime that can build graphs: it names the activator type of its control edges.
pub trait GraphSpec: Sized {
    type Activator;
}

/// A runtime that can hold nodes of type `Node`.
pub trait NodeSpec<Node>: GraphSpec {
    type Builder: NodeBuilder<Self, Node = Node>;

    /// Adds a node, not yet armed, and returns its builder.
    fn node(&mut self, node: Node) -> Self::Builder;
}

/// A runtime that can create ports holding values of type `T`.
pub trait PortSpec<T> {
    type Port: Port;

    /// Creates a port that holds `init`.
    fn port(&mut self, init: T) -> Self::Port;
}

/// The builder of a node that is not yet finalized.
pub trait NodeBuilder<Spec: GraphSpec>: Sized {
    type Node;

    /// Creates one more activator for the node: one more upstream producer.
    fn add_activator(&mut self) -> Spec::Activator;

    /// Seals the activator count, so that the node may fire; a node without activators is
    /// scheduled at once.
    fn finalize(&mut self, spec: &mut Spec);
}

/// Access to the node of a builder, to wire edges that were not known when it was created.
pub trait NodeBorrowMut<'a, Spec: GraphSpec>: NodeBuilder<Spec> {
    type RefMut: core::ops::DerefMut<Target = Self::Node> + 'a;

    fn borrow_mut(&'a mut self) -> Self::RefMut;
}

} // verus!
