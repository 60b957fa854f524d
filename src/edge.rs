//! Edges: the data half of a port joined with the control half of an activator.
//!
//! A `NodeInput` sends, then activates.  A `DataOutput` or `DataInput` carries data only, for
//! side effects or for a memory kept between runs of a reusable node.  A `CloneOutput` sends a
//! clone of one value down each of several edges, in the order they were connected.

use vstd::prelude::*;
use vstd::pervasive::strictly_cloned;
use crate::activator::ProtocolError;
use crate::api::{
    InputEdge, InputEdgeMut, InputEdgeOnce, OutputEdge, OutputEdgeMut, OutputEdgeOnce,
};
use crate::port::{RcReceiver, RcSender};
use crate::runtime::{RcActivator, RuntimeView, Toexec, after_send, delivered, noted};

verus! {

/// The edge into an input of a node: the sender of the node's input port and the node's
/// activator.  Sending writes the port first and activates the node only then.
#[derive(PartialEq, Eq, Structural, Debug, Clone, Copy)]
pub struct NodeInput<A, I> {
    pub activator: A,
    pub sender: I,
}

/// A receiver used as an input edge with no control half.
#[derive(PartialEq, Eq, Structural, Debug, Clone, Copy)]
pub struct DataInput<T> {
    pub receiver: T,
}

/// A sender used as an output edge with no control half: sending never activates a node.
#[derive(PartialEq, Eq, Structural, Debug, Clone, Copy)]
pub struct DataOutput<T> {
    pub sender: T,
}

/// Conversions of a receiver into an input edge.
pub trait ReceiverExt: Sized {
    fn as_data_input(self) -> DataInput<Self>;
}

impl ReceiverExt for RcReceiver {
    fn as_data_input(self) -> (d: DataInput<RcReceiver>)
        ensures
            d.receiver == self,
    {
        DataInput { receiver: self }
    }
}

/// Conversions of a sender into an output edge.
pub trait SenderExt: Sized {
    /// Joins the sender with the activator of the node that reads the port.
    fn with_activator<A>(self, activator: A) -> NodeInput<A, Self>;

    /// Uses the sender alone, with no activation.
    fn as_data_output(self) -> DataOutput<Self>;
}

impl SenderExt for RcSender {
    fn with_activator<A>(self, activator: A) -> (e: NodeInput<A, RcSender>)
        ensures
            e.activator == activator,
            e.sender == self,
    {
        NodeInput { activator, sender: self }
    }

    fn as_data_output(self) -> (d: DataOutput<RcSender>)
        ensures
            d.sender == self,
    {
        DataOutput { sender: self }
    }
}

impl NodeInput<RcActivator, RcSender> {
    /// The edge that writes through `sender` and then activates `activator`.
    pub fn new(sender: RcSender, activator: RcActivator) -> (e: Self)
        ensures
            e.sender == sender,
            e.activator == activator,
    {
        NodeInput { activator, sender }
    }
}

impl<V, N> OutputEdgeOnce<Toexec<V, N>> for NodeInput<RcActivator, RcSender> {
    type Item = V;

    /// The value is written into the port, and only then is the node activated.
    open spec fn sends(&self, before: Toexec<V, N>, item: V, after: Toexec<V, N>) -> bool {
        &&& after@ == delivered(before@, self.sender.port as nat, self.activator.node as nat, item)
        &&& after.bodies() == before.bodies()
    }

    fn send_activate_once(self, scheduler: &mut Toexec<V, N>, item: V)
        ensures
            final(scheduler).bodies() == old(scheduler).bodies(),
            final(scheduler)@ == delivered(
                old(scheduler)@,
                self.sender.port as nat,
                self.activator.node as nat,
                item,
            ),
    {
        scheduler.deliver(self.sender.port, self.activator.node, item)
    }
}

impl<V, N> OutputEdgeMut<Toexec<V, N>> for NodeInput<RcActivator, RcSender> {
    fn send_activate_mut(&mut self, scheduler: &mut Toexec<V, N>, item: V)
        ensures
            final(scheduler).bodies() == old(scheduler).bodies(),
            final(scheduler)@ == delivered(
                old(scheduler)@,
                old(self).sender.port as nat,
                old(self).activator.node as nat,
                item,
            ),
    {
        scheduler.deliver(self.sender.port, self.activator.node, item)
    }
}

impl<V, N> OutputEdge<Toexec<V, N>> for NodeInput<RcActivator, RcSender> {
    fn send_activate(&self, scheduler: &mut Toexec<V, N>, item: V)
        ensures
            final(scheduler).bodies() == old(scheduler).bodies(),
            final(scheduler)@ == delivered(
                old(scheduler)@,
                self.sender.port as nat,
                self.activator.node as nat,
                item,
            ),
    {
        scheduler.deliver(self.sender.port, self.activator.node, item)
    }
}

/// The state after a data-only send of `x` into port `port`; a missing port is noted as the
/// fault.
pub open spec fn sent_data<V>(v: RuntimeView<V>, port: nat, x: V) -> RuntimeView<V> {
    if port < v.ports.len() {
        after_send(v, port, x)
    } else {
        RuntimeView { fault: noted(v.fault, Err(ProtocolError::UnknownPort)), ..v }
    }
}

fn send_data<V, N>(scheduler: &mut Toexec<V, N>, port: usize, item: V)
    ensures
        final(scheduler).bodies() == old(scheduler).bodies(),
        final(scheduler)@ == sent_data(old(scheduler)@, port as nat, item),
{
    if !scheduler.send(port, item) {
        scheduler.note_fault(ProtocolError::UnknownPort);
    }
}

impl<V, N> OutputEdgeOnce<Toexec<V, N>> for DataOutput<RcSender> {
    type Item = V;

    /// The value is written into the port; no node is activated.
    open spec fn sends(&self, before: Toexec<V, N>, item: V, after: Toexec<V, N>) -> bool {
        &&& after@ == sent_data(before@, self.sender.port as nat, item)
        &&& after.bodies() == before.bodies()
    }

    fn send_activate_once(self, scheduler: &mut Toexec<V, N>, item: V)
        ensures
            final(scheduler).bodies() == old(scheduler).bodies(),
            final(scheduler)@ == sent_data(old(scheduler)@, self.sender.port as nat, item),
    {
        send_data(scheduler, self.sender.port, item)
    }
}

impl<V, N> OutputEdgeMut<Toexec<V, N>> for DataOutput<RcSender> {
    fn send_activate_mut(&mut self, scheduler: &mut Toexec<V, N>, item: V)
        ensures
            final(scheduler).bodies() == old(scheduler).bodies(),
            final(scheduler)@ == sent_data(old(scheduler)@, old(self).sender.port as nat, item),
    {
        send_data(scheduler, self.sender.port, item)
    }
}

impl<V, N> OutputEdge<Toexec<V, N>> for DataOutput<RcSender> {
    fn send_activate(&self, scheduler: &mut Toexec<V, N>, item: V)
        ensures
            final(scheduler).bodies() == old(scheduler).bodies(),
            final(scheduler)@ == sent_data(old(scheduler)@, self.sender.port as nat, item),
    {
        send_data(scheduler, self.sender.port, item)
    }
}

impl<V, N> InputEdgeOnce<Toexec<V, N>> for DataInput<RcReceiver> {
    type Item = Option<V>;

    fn recv_activate_once(self, scheduler: &mut Toexec<V, N>) -> (r: Option<V>)
        ensures
            final(scheduler).bodies() == old(scheduler).bodies(),
            self.receiver.port < old(scheduler)@.ports.len() ==> r == old(scheduler)@.ports[self.receiver.port as int]
                && final(scheduler)@ == (RuntimeView {
                ports: old(scheduler)@.ports.update(self.receiver.port as int, None),
                ..old(scheduler)@
            }),
            self.receiver.port >= old(scheduler)@.ports.len() ==> r is None && final(scheduler)@ == old(scheduler)@,
    {
        scheduler.recv(self.receiver.port)
    }
}

impl<V, N> InputEdgeMut<Toexec<V, N>> for DataInput<RcReceiver> {
    fn recv_activate_mut(&mut self, scheduler: &mut Toexec<V, N>) -> (r: Option<V>)
        ensures
            final(scheduler).bodies() == old(scheduler).bodies(),
            old(self).receiver.port < old(scheduler)@.ports.len() ==> r == old(scheduler)@.ports[old(self).receiver.port as int]
                && final(scheduler)@ == (RuntimeView {
                ports: old(scheduler)@.ports.update(old(self).receiver.port as int, None),
                ..old(scheduler)@
            }),
            old(self).receiver.port >= old(scheduler)@.ports.len() ==> r is None && final(scheduler)@ == old(scheduler)@,
    {
        scheduler.recv(self.receiver.port)
    }
}

impl<V, N> InputEdge<Toexec<V, N>> for DataInput<RcReceiver> {
    fn recv_activate(&self, scheduler: &mut Toexec<V, N>) -> (r: Option<V>)
        ensures
            final(scheduler).bodies() == old(scheduler).bodies(),
            self.receiver.port < old(scheduler)@.ports.len() ==> r == old(scheduler)@.ports[self.receiver.port as int]
                && final(scheduler)@ == (RuntimeView {
                ports: old(scheduler)@.ports.update(self.receiver.port as int, None),
                ..old(scheduler)@
            }),
            self.receiver.port >= old(scheduler)@.ports.len() ==> r is None && final(scheduler)@ == old(scheduler)@,
    {
        scheduler.recv(self.receiver.port)
    }
}

/// An output edge that sends a clone of its value down each connected edge, in the order in
/// which they were connected.
#[derive(Debug)]
pub struct CloneOutput<E> {
    outputs: Vec<E>,
}

impl<E> CloneOutput<E> {
    /// An output with no edge connected.
    pub fn new() -> (c: Self)
        ensures
            c.edges() == Seq::<E>::empty(),
    {
        CloneOutput { outputs: Vec::new() }
    }

    /// The connected edges, in order.
    pub closed spec fn edges(&self) -> Seq<E> {
        self.outputs@
    }

    /// An output with no edge connected, for edges used once.
    pub fn new_box_once() -> (c: Self)
        ensures
            c.edges() == Seq::<E>::empty(),
    {
        CloneOutput { outputs: Vec::new() }
    }

    /// An output with no edge connected, for edges used repeatedly.
    pub fn new_box_mut() -> (c: Self)
        ensures
            c.edges() == Seq::<E>::empty(),
    {
        CloneOutput { outputs: Vec::new() }
    }

    /// Connects one more edge, after the others.
    pub fn connect(&mut self, output: E)
        ensures
            final(self).edges() == old(self).edges().push(output),
    {
        self.outputs.push(output)
    }

    /// The number of connected edges.
    pub fn len(&self) -> (n: usize)
        ensures
            n == self.edges().len(),
    {
        self.outputs.len()
    }
}

/// The state after delivering `x` along the first `n` of `edges`, in order.
pub open spec fn delivered_along<V>(
    v: RuntimeView<V>,
    edges: Seq<NodeInput<RcActivator, RcSender>>,
    x: V,
    n: nat,
) -> RuntimeView<V>
    decreases n,
{
    if n == 0 || n > edges.len() {
        v
    } else {
        let w = delivered_along(v, edges, x, (n - 1) as nat);
        let e = edges[n - 1];
        delivered(w, e.sender.port as nat, e.activator.node as nat, x)
    }
}

proof fn lemma_delivered_along<V>(
    v: RuntimeView<V>,
    edges: Seq<NodeInput<RcActivator, RcSender>>,
    x: V,
    n: nat,
)
    requires
        n <= edges.len(),
    ensures
        delivered_along(v, edges, x, n).ports.len() == v.ports.len(),
        forall|i: int|
            0 <= i < n && edges[i].sender.port < v.ports.len() ==> delivered_along(
                v,
                edges,
                x,
                n,
            ).ports[edges[i].sender.port as int] == Some(x),
    decreases n,
{
    if n > 0 {
        lemma_delivered_along(v, edges, x, (n - 1) as nat);
    }
}

/// A clone output behaves as separate edges: after a value is sent through it, every consumer
/// whose port exists finds that value in its port, whatever the other edges did.
pub proof fn clone_output_delivers_to_each<V>(
    v: RuntimeView<V>,
    edges: Seq<NodeInput<RcActivator, RcSender>>,
    x: V,
)
    ensures
        forall|i: int|
            0 <= i < edges.len() && edges[i].sender.port < v.ports.len() ==> delivered_along(
                v,
                edges,
                x,
                edges.len(),
            ).ports[edges[i].sender.port as int] == Some(x),
{
    lemma_delivered_along(v, edges, x, edges.len());
}

impl CloneOutput<NodeInput<RcActivator, RcSender>> {
    /// Sends a copy of `x` down each connected edge, in the order they were connected.
    pub fn send_copies<V: Copy, N>(&self, scheduler: &mut Toexec<V, N>, x: V)
        ensures
            final(scheduler)@ == delivered_along(old(scheduler)@, self.edges(), x, self.edges().len()),
            final(scheduler).bodies() == old(scheduler).bodies(),
    {
        let mut i: usize = 0;
        while i < self.outputs.len()
            invariant
                i <= self.outputs@.len(),
                scheduler@ == delivered_along(old(scheduler)@, self.edges(), x, i as nat),
                scheduler.bodies() == old(scheduler).bodies(),
            decreases self.outputs@.len() - i,
        {
            let e = self.outputs[i];
            scheduler.deliver(e.sender.port, e.activator.node, x);
            i = i + 1;
        }
    }
}

/// Whether sending `item` along the first `n` of `edges`, each getting a clone of it and in
/// order, may take the scheduler from `before` to `after`.
pub open spec fn clone_chain<S, E: OutputEdgeOnce<S>>(
    edges: Seq<E>,
    n: nat,
    before: S,
    item: E::Item,
    after: S,
) -> bool where E::Item: Clone
    decreases n,
{
    if n == 0 {
        before == after
    } else if n > edges.len() {
        false
    } else {
        exists|mid: S, c: E::Item|
            clone_chain(edges, (n - 1) as nat, before, item, mid) && strictly_cloned(item, c)
                && #[trigger] edges[n - 1].sends(mid, c, after)
    }
}

impl<S, E: OutputEdgeOnce<S>> OutputEdgeOnce<S> for CloneOutput<E> where E::Item: Clone {
    type Item = E::Item;

    /// Each connected edge, in the order of connection, is sent a clone of the item once.
    open spec fn sends(&self, before: S, item: E::Item, after: S) -> bool {
        clone_chain(self.edges(), self.edges().len(), before, item, after)
    }

    fn send_activate_once(self, scheduler: &mut S, item: E::Item) {
        let ghost edges = self.edges();
        let ghost start = *scheduler;
        let mut outputs = self.outputs;
        let total = outputs.len();
        let mut done: usize = 0;
        while outputs.len() > 0
            invariant
                edges.len() == total,
                done + outputs@.len() == edges.len(),
                outputs@ == edges.subrange(done as int, edges.len() as int),
                clone_chain(edges, done as nat, start, item, *scheduler),
            decreases outputs@.len(),
        {
            let output = outputs.remove(0);
            let c = item.clone();
            let ghost mid = *scheduler;
            output.send_activate_once(scheduler, c);
            proof {
                assert(edges[done as int] == output);
                assert(clone_chain(edges, done as nat, start, item, mid) && strictly_cloned(item, c)
                    && edges[done as int].sends(mid, c, *scheduler));
                assert(((done + 1) as nat - 1) as int == done as int);
                assert(clone_chain(edges, (done + 1) as nat, start, item, *scheduler));
            }
            done = done + 1;
        }
    }
}

impl<S, E: OutputEdgeMut<S>> OutputEdgeMut<S> for CloneOutput<E> where E::Item: Clone {
    fn send_activate_mut(&mut self, scheduler: &mut S, item: E::Item) {
        let ghost edges = old(self).edges();
        let ghost start = *scheduler;
        let mut i: usize = 0;
        while i < self.outputs.len()
            invariant
                i <= edges.len(),
                self.outputs@.len() == edges.len(),
                forall|j: int| i <= j < edges.len() ==> self.outputs@[j] == edges[j],
                clone_chain(edges, i as nat, start, item, *scheduler),
            decreases self.outputs@.len() - i,
        {
            let c = item.clone();
            let ghost mid = *scheduler;
            self.outputs[i].send_activate_mut(scheduler, c);
            proof {
                assert(clone_chain(edges, i as nat, start, item, mid) && strictly_cloned(item, c)
                    && edges[i as int].sends(mid, c, *scheduler));
                assert(((i + 1) as nat - 1) as int == i as int);
                assert(clone_chain(edges, (i + 1) as nat, start, item, *scheduler));
            }
            i = i + 1;
        }
    }
}

impl<S, E: OutputEdge<S>> OutputEdge<S> for CloneOutput<E> where E::Item: Clone {
    fn send_activate(&self, scheduler: &mut S, item: E::Item) {
        let ghost edges = self.edges();
        let ghost start = *scheduler;
        let mut i: usize = 0;
        while i < self.outputs.len()
            invariant
                i <= edges.len(),
                self.outputs@ == edges,
                clone_chain(edges, i as nat, start, item, *scheduler),
            decreases self.outputs@.len() - i,
        {
            let c = item.clone();
            let ghost mid = *scheduler;
            self.outputs[i].send_activate(scheduler, c);
            proof {
                assert(clone_chain(edges, i as nat, start, item, mid) && strictly_cloned(item, c)
                    && edges[i as int].sends(mid, c, *scheduler));
                assert(((i + 1) as nat - 1) as int == i as int);
                assert(clone_chain(edges, (i + 1) as nat, start, item, *scheduler));
            }
            i = i + 1;
        }
    }
}

/// An output edge that a task may use only once in a run.
#[derive(Debug)]
pub struct OutputOnce<T>(pub T);

impl<S, O: OutputEdgeOnce<S>> OutputEdgeOnce<S> for OutputOnce<O> {
    type Item = O::Item;

    open spec fn sends(&self, before: S, item: O::Item, after: S) -> bool {
        self.0.sends(before, item, after)
    }

    fn send_activate_once(self, scheduler: &mut S, item: O::Item) {
        self.0.send_activate_once(scheduler, item)
    }
}

/// An input edge that a task may use only once in a run.
#[derive(Debug)]
pub struct InputOnce<T>(pub T);

impl<S, I: InputEdgeOnce<S>> InputEdgeOnce<S> for InputOnce<I> {
    type Item = I::Item;

    fn recv_activate_once(self, scheduler: &mut S) -> I::Item {
        self.0.recv_activate_once(scheduler)
    }
}

// A tuple of edges is an edge over the tuple of their items: each component goes along
// its own edge, in positional order.

impl<S, A: OutputEdgeOnce<S>> OutputEdgeOnce<S> for (A,) {
    type Item = (A::Item,);

    open spec fn sends(&self, before: S, item: (A::Item,), after: S) -> bool {
        self.0.sends(before, item.0, after)
    }

    fn send_activate_once(self, scheduler: &mut S, item: (A::Item,)) {
        let ghost before = *scheduler;
        let ghost edges = self;
        let (a,) = self;
        let (x,) = item;
        a.send_activate_once(scheduler, x);
    }
}

impl<S, A: OutputEdgeMut<S>> OutputEdgeMut<S> for (A,) {
    fn send_activate_mut(&mut self, scheduler: &mut S, item: (A::Item,)) {
        let ghost before = *scheduler;
        let ghost edges = *old(self);
        let (x,) = item;
        self.0.send_activate_mut(scheduler, x);
    }
}

impl<S, A: OutputEdge<S>> OutputEdge<S> for (A,) {
    fn send_activate(&self, scheduler: &mut S, item: (A::Item,)) {
        let ghost before = *scheduler;
        let ghost edges = *self;
        let (x,) = item;
        self.0.send_activate(scheduler, x);
    }
}

impl<S, A: InputEdgeOnce<S>> InputEdgeOnce<S> for (A,) {
    type Item = (A::Item,);

    fn recv_activate_once(self, scheduler: &mut S) -> (A::Item,) {
        let (a,) = self;
        let x = a.recv_activate_once(scheduler);
        (x,)
    }
}

impl<S, A: InputEdgeMut<S>> InputEdgeMut<S> for (A,) {
    fn recv_activate_mut(&mut self, scheduler: &mut S) -> (A::Item,) {
        let x = self.0.recv_activate_mut(scheduler);
        (x,)
    }
}

impl<S, A: InputEdge<S>> InputEdge<S> for (A,) {
    fn recv_activate(&self, scheduler: &mut S) -> (A::Item,) {
        let x = self.0.recv_activate(scheduler);
        (x,)
    }
}

impl<S, A: OutputEdgeOnce<S>, B: OutputEdgeOnce<S>> OutputEdgeOnce<S> for (A, B) {
    type Item = (A::Item, B::Item);

    open spec fn sends(&self, before: S, item: (A::Item, B::Item), after: S) -> bool {
        exists|m1: S| self.0.sends(before, item.0, m1) && self.1.sends(m1, item.1, after)
    }

    fn send_activate_once(self, scheduler: &mut S, item: (A::Item, B::Item)) {
        let ghost before = *scheduler;
        let ghost edges = self;
        let (a, b) = self;
        let (x, y) = item;
        a.send_activate_once(scheduler, x);
        let ghost m1 = *scheduler;
        b.send_activate_once(scheduler, y);
        assert(edges.0.sends(before, item.0, m1) && edges.1.sends(m1, item.1, *scheduler));
    }
}

impl<S, A: OutputEdgeMut<S>, B: OutputEdgeMut<S>> OutputEdgeMut<S> for (A, B) {
    fn send_activate_mut(&mut self, scheduler: &mut S, item: (A::Item, B::Item)) {
        let ghost before = *scheduler;
        let ghost edges = *old(self);
        let (x, y) = item;
        self.0.send_activate_mut(scheduler, x);
        let ghost m1 = *scheduler;
        self.1.send_activate_mut(scheduler, y);
        assert(edges.0.sends(before, item.0, m1) && edges.1.sends(m1, item.1, *scheduler));
    }
}

impl<S, A: OutputEdge<S>, B: OutputEdge<S>> OutputEdge<S> for (A, B) {
    fn send_activate(&self, scheduler: &mut S, item: (A::Item, B::Item)) {
        let ghost before = *scheduler;
        let ghost edges = *self;
        let (x, y) = item;
        self.0.send_activate(scheduler, x);
        let ghost m1 = *scheduler;
        self.1.send_activate(scheduler, y);
        assert(edges.0.sends(before, item.0, m1) && edges.1.sends(m1, item.1, *scheduler));
    }
}

impl<S, A: InputEdgeOnce<S>, B: InputEdgeOnce<S>> InputEdgeOnce<S> for (A, B) {
    type Item = (A::Item, B::Item);

    fn recv_activate_once(self, scheduler: &mut S) -> (A::Item, B::Item) {
        let (a, b) = self;
        let x = a.recv_activate_once(scheduler);
        let y = b.recv_activate_once(scheduler);
        (x, y)
    }
}

impl<S, A: InputEdgeMut<S>, B: InputEdgeMut<S>> InputEdgeMut<S> for (A, B) {
    fn recv_activate_mut(&mut self, scheduler: &mut S) -> (A::Item, B::Item) {
        let x = self.0.recv_activate_mut(scheduler);
        let y = self.1.recv_activate_mut(scheduler);
        (x, y)
    }
}

impl<S, A: InputEdge<S>, B: InputEdge<S>> InputEdge<S> for (A, B) {
    fn recv_activate(&self, scheduler: &mut S) -> (A::Item, B::Item) {
        let x = self.0.recv_activate(scheduler);
        let y = self.1.recv_activate(scheduler);
        (x, y)
    }
}

impl<S, A: OutputEdgeOnce<S>, B: OutputEdgeOnce<S>, C: OutputEdgeOnce<S>> OutputEdgeOnce<S> for (A, B, C) {
    type Item = (A::Item, B::Item, C::Item);

    open spec fn sends(&self, before: S, item: (A::Item, B::Item, C::Item), after: S) -> bool {
        exists|m1: S, m2: S| self.0.sends(before, item.0, m1) && self.1.sends(m1, item.1, m2) && self.2.sends(m2, item.2, after)
    }

    fn send_activate_once(self, scheduler: &mut S, item: (A::Item, B::Item, C::Item)) {
        let ghost before = *scheduler;
        let ghost edges = self;
        let (a, b, c) = self;
        let (x, y, z) = item;
        a.send_activate_once(scheduler, x);
        let ghost m1 = *scheduler;
        b.send_activate_once(scheduler, y);
        let ghost m2 = *scheduler;
        c.send_activate_once(scheduler, z);
        assert(edges.0.sends(before, item.0, m1) && edges.1.sends(m1, item.1, m2) && edges.2.sends(m2, item.2, *scheduler));
    }
}

impl<S, A: OutputEdgeMut<S>, B: OutputEdgeMut<S>, C: OutputEdgeMut<S>> OutputEdgeMut<S> for (A, B, C) {
    fn send_activate_mut(&mut self, scheduler: &mut S, item: (A::Item, B::Item, C::Item)) {
        let ghost before = *scheduler;
        let ghost edges = *old(self);
        let (x, y, z) = item;
        self.0.send_activate_mut(scheduler, x);
        let ghost m1 = *scheduler;
        self.1.send_activate_mut(scheduler, y);
        let ghost m2 = *scheduler;
        self.2.send_activate_mut(scheduler, z);
        assert(edges.0.sends(before, item.0, m1) && edges.1.sends(m1, item.1, m2) && edges.2.sends(m2, item.2, *scheduler));
    }
}

impl<S, A: OutputEdge<S>, B: OutputEdge<S>, C: OutputEdge<S>> OutputEdge<S> for (A, B, C) {
    fn send_activate(&self, scheduler: &mut S, item: (A::Item, B::Item, C::Item)) {
        let ghost before = *scheduler;
        let ghost edges = *self;
        let (x, y, z) = item;
        self.0.send_activate(scheduler, x);
        let ghost m1 = *scheduler;
        self.1.send_activate(scheduler, y);
        let ghost m2 = *scheduler;
        self.2.send_activate(scheduler, z);
        assert(edges.0.sends(before, item.0, m1) && edges.1.sends(m1, item.1, m2) && edges.2.sends(m2, item.2, *scheduler));
    }
}

impl<S, A: InputEdgeOnce<S>, B: InputEdgeOnce<S>, C: InputEdgeOnce<S>> InputEdgeOnce<S> for (A, B, C) {
    type Item = (A::Item, B::Item, C::Item);

    fn recv_activate_once(self, scheduler: &mut S) -> (A::Item, B::Item, C::Item) {
        let (a, b, c) = self;
        let x = a.recv_activate_once(scheduler);
        let y = b.recv_activate_once(scheduler);
        let z = c.recv_activate_once(scheduler);
        (x, y, z)
    }
}

impl<S, A: InputEdgeMut<S>, B: InputEdgeMut<S>, C: InputEdgeMut<S>> InputEdgeMut<S> for (A, B, C) {
    fn recv_activate_mut(&mut self, scheduler: &mut S) -> (A::Item, B::Item, C::Item) {
        let x = self.0.recv_activate_mut(scheduler);
        let y = self.1.recv_activate_mut(scheduler);
        let z = self.2.recv_activate_mut(scheduler);
        (x, y, z)
    }
}

impl<S, A: InputEdge<S>, B: InputEdge<S>, C: InputEdge<S>> InputEdge<S> for (A, B, C) {
    fn recv_activate(&self, scheduler: &mut S) -> (A::Item, B::Item, C::Item) {
        let x = self.0.recv_activate(scheduler);
        let y = self.1.recv_activate(scheduler);
        let z = self.2.recv_activate(scheduler);
        (x, y, z)
    }
}

} // verus!
