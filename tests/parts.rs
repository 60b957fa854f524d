use std::cell::Cell;

use dataflow::activator::{ActivatorState, ProtocolError};
use dataflow::api::{
    Activator, InputEdge, NodeBuilder, OutputEdge, Port, Receiver, ReceiverMut, ReceiverOnce, Sender, SenderMut,
    SenderOnce,
};
use dataflow::builder::GraphSpecExt;
use dataflow::edge::{ReceiverExt, SenderExt};
use dataflow::counter::{Compteur, CompteurAtomic};
use dataflow::node::{StrictTask, UninitializedNode};
use dataflow::port::{RcPort, RefPort};
use dataflow::runtime::{stealer_order, RcActivator, RcBuilder, Toexec, WorkerStep, IDLE_TOUR_LIMIT};

#[test]
fn counter_counts_and_wraps() {
    let mut c = Compteur::new(3);
    assert_eq!(c.inc(), 3);
    assert_eq!(c.add(4), 4);
    assert_eq!(c.get(), 8);
    let mut top = Compteur::new(usize::MAX);
    assert_eq!(top.inc(), usize::MAX);
    assert_eq!(top.get(), 0);
    let mut near = Compteur::new(usize::MAX - 1);
    assert_eq!(near.add(5), usize::MAX - 1);
    assert_eq!(near.get(), 3);
}

#[test]
fn stealers_rotate_after_the_worker() {
    assert_eq!(stealer_order(1, 4), vec![2, 3, 0]);
    assert_eq!(stealer_order(0, 4), vec![1, 2, 3]);
    assert_eq!(stealer_order(3, 4), vec![0, 1, 2]);
    assert_eq!(stealer_order(0, 1), Vec::<usize>::new());
}

#[test]
fn idle_worker_stops_after_the_limit() {
    let mut rt: Toexec<u8, UninitializedNode> = Toexec::new();
    let mut tours = Compteur::new(0);
    for i in 0..IDLE_TOUR_LIMIT {
        assert_eq!(rt.worker_step(0, &mut tours), WorkerStep::Idle);
        assert_eq!(tours.get(), i + 1);
    }
    assert_eq!(rt.worker_step(0, &mut tours), WorkerStep::Exit);
    assert_eq!(tours.get(), IDLE_TOUR_LIMIT);
}

#[test]
fn workers_steal_from_the_next_deque() {
    let mut rt: Toexec<u8, UninitializedNode> = Toexec::new();
    let b = rt.new_node(UninitializedNode);
    rt.set_workers(3);
    assert_eq!(rt.finalize(&b), Ok(true));
    let mut tours = Compteur::new(4);
    assert_eq!(rt.worker_step(2, &mut tours), WorkerStep::Stole { node: 0, victim: 0 });
    assert_eq!(tours.get(), 0);
    assert_eq!(rt.fault(), Some(ProtocolError::Uninitialized));
}

#[test]
fn placeholder_node_is_a_fault() {
    let mut rt: Toexec<u8, UninitializedNode> = Toexec::new();
    let b = rt.new_node(UninitializedNode);
    assert_eq!(rt.finalize(&b), Ok(true));
    assert_eq!(rt.step(0), Some((0, 0)));
    assert_eq!(rt.fault(), Some(ProtocolError::Uninitialized));
    assert_eq!(rt.step(0), None);
}

#[test]
fn finalization_and_activation() {
    let mut rt: Toexec<u8, UninitializedNode> = Toexec::new();
    let mut b = rt.new_node(UninitializedNode);
    b.add_activator();
    b.add_activator();
    assert_eq!(b.num_activators, 2);
    assert_eq!(rt.finalize(&b), Ok(false));
    assert_eq!(
        rt.activator_state(b.node),
        Some(ActivatorState { pending: 2, initial: 3, finalized: true, queued: false })
    );
    assert_eq!(rt.activate_node(b.node), Ok(false));
    assert_eq!(rt.activate_node(b.node), Ok(true));
    assert_eq!(rt.ready_count(), 1);
    assert_eq!(rt.schedule_node(b.node), Err(ProtocolError::NotArmed));
    assert_eq!(rt.fault(), None);
}

#[test]
fn breaches_through_the_trait_entry_points_are_faults() {
    let mut rt: Toexec<u8, UninitializedNode> = Toexec::new();
    let b = rt.new_node(UninitializedNode);
    RcActivator { node: b.node }.activate(&mut rt);
    assert_eq!(rt.fault(), Some(ProtocolError::NotArmed));

    let mut rt: Toexec<u8, UninitializedNode> = Toexec::new();
    let mut b = RcBuilder { node: rt.new_node(UninitializedNode).node, num_activators: usize::MAX };
    NodeBuilder::finalize(&mut b, &mut rt);
    assert_eq!(rt.fault(), Some(ProtocolError::TooManyActivators));

    let mut rt: Toexec<u8, UninitializedNode> = Toexec::new();
    let mut b = rt.new_node(UninitializedNode);
    b.add_activator();
    NodeBuilder::finalize(&mut b, &mut rt);
    assert_eq!(rt.fault(), None);
    NodeBuilder::finalize(&mut b, &mut rt);
    assert_eq!(rt.fault(), Some(ProtocolError::AlreadyFinalized));

    let mut rt: Toexec<u8, UninitializedNode> = Toexec::new();
    NodeBuilder::finalize(&mut RcBuilder::new(5), &mut rt);
    assert_eq!(rt.fault(), Some(ProtocolError::UnknownNode));
}

#[test]
fn ports_hold_the_last_value_sent() {
    let mut rt: Toexec<u32, UninitializedNode> = Toexec::new();
    let (s, r) = rt.new_port(Some(7)).split();
    assert_eq!(s.port, r.port);
    assert_eq!(rt.recv(r.port), Some(7));
    assert_eq!(rt.recv(r.port), None);
    assert!(rt.send(s.port, 1));
    assert!(rt.send(s.port, 2));
    assert_eq!(rt.recv(r.port), Some(2));
    assert!(!rt.send(9, 1));
    assert_eq!(rt.recv(9), None);
    assert_eq!(RcPort::new(3).halves().1.port, 3);
}

struct Slot(Cell<Option<u8>>);

impl SenderOnce for Slot {
    type Item = u8;
    fn send_once(self, item: u8) {
        self.0.set(Some(item));
    }
}

impl SenderMut for Slot {
    fn send_mut(&mut self, item: u8) {
        self.0.set(Some(item));
    }
}

impl Sender for Slot {
    fn send(&self, item: u8) {
        self.0.set(Some(item));
    }
}

impl ReceiverOnce for Slot {
    type Item = Option<u8>;
    fn recv_once(self) -> Option<u8> {
        self.0.take()
    }
}

impl ReceiverMut for Slot {
    fn recv_mut(&mut self) -> Option<u8> {
        self.0.take()
    }
}

impl Receiver for Slot {
    fn recv(&self) -> Option<u8> {
        self.0.take()
    }
}

#[test]
fn ref_port_halves_share_the_cell() {
    let mut slot = Slot(Cell::new(None));
    let (s, r) = RefPort::new(&mut slot).split();
    s.send(4);
    assert_eq!(r.recv(), Some(4));
    assert_eq!(r.recv(), None);
}

#[test]
fn strict_task_holds_its_function() {
    let t = StrictTask::new(|x: i32| (x + 1,));
    assert_eq!((t.inner())(1), (2,));
    assert_eq!((t.into_inner())(5), (6,));
}

#[test]
fn tuple_edges_go_in_positional_order() {
    let mut rt: Toexec<u32, UninitializedNode> = Toexec::new();
    let (s1, r1) = rt.new_port(None).split();
    let (s2, r2) = rt.new_port(None).split();
    let (s3, r3) = rt.new_port(None).split();
    let outputs = (s1.as_data_output(), s2.as_data_output(), s3.as_data_output());
    outputs.send_activate(&mut rt, (1, 2, 3));
    let inputs = (r3.as_data_input(), r1.as_data_input());
    assert_eq!(inputs.recv_activate(&mut rt), (Some(3), Some(1)));
    assert_eq!((r2.as_data_input(),).recv_activate(&mut rt), (Some(2),));
    assert_eq!(rt.recv(r1.port), None);
}

#[derive(Debug, PartialEq)]
enum Body {
    Old,
    New,
}

#[test]
fn bodies_can_be_replaced_until_finalized() {
    let mut rt: Toexec<u8, Body> = Toexec::new();
    let b = rt.new_node(Body::Old);
    assert_eq!(rt.replace_node(b.node, Body::New), Some(Body::Old));
    assert_eq!(rt.replace_node(7, Body::Old), None);
    assert_eq!(rt.finalize(&b), Ok(true));
    assert_eq!(rt.replace_node(b.node, Body::Old), None);
}

#[test]
fn scoped_builder_replaces_bodies() {
    let mut rt: Toexec<u8, Body> = Toexec::new();
    let mut scope = rt.build_scope();
    let n = scope.node(Body::Old);
    assert_eq!(n.borrow_mut(&mut scope, Body::New), Some(Body::Old));
    assert_eq!(scope.finalize(n), Ok(true));
    assert_eq!(n.borrow_mut(&mut scope, Body::Old), None);
    assert_eq!(scope.borrow_mut().ready_count(), 1);
    assert_eq!(scope.finish(), 0);
}

#[test]
fn placeholder_activator_names_no_node() {
    let mut rt: Toexec<u8, UninitializedNode> = Toexec::new();
    let a = RcActivator::default();
    a.activate(&mut rt);
    assert_eq!(rt.fault(), Some(ProtocolError::UnknownNode));
}

#[test]
fn ref_port_over_a_std_cell() {
    let mut cell: Cell<Option<u8>> = Cell::new(Some(1));
    let (s, r) = RefPort::new(&mut cell).split();
    assert_eq!(r.recv(), Some(1));
    assert_eq!(r.recv(), None);
    s.send(8);
    s.send(9);
    assert_eq!(r.recv(), Some(9));
}
