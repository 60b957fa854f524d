use std::cell::{Cell, RefCell};
use std::rc::Rc;

use dataflow::activator::ProtocolError;
use dataflow::api::{Activator, InputEdge, NodeBuilder, NodeMut, NodeSpec, OutputEdge, Port, PortSpec};
use dataflow::edge::{CloneOutput, DataInput, DataOutput, NodeInput, ReceiverExt, SenderExt};
use dataflow::port::{RcReceiver, RcSender};
use dataflow::runtime::{RcActivator, RcBuilder, Toexec};

type Edge = NodeInput<RcActivator, RcSender>;
type Rt = Toexec<i32, Node>;

enum Node {
    /// Sends its input down every connected edge.
    Identity { input: DataInput<RcReceiver>, output: CloneOutput<Edge> },
    /// Stores its input in a data port that the test reads afterwards.
    Store { input: DataInput<RcReceiver>, output: DataOutput<RcSender> },
    /// Sends its input on to one edge.
    Forward { input: DataInput<RcReceiver>, output: Edge },
    /// Loops its input back to itself, incremented, until it reaches 10.
    Inc10 { input: DataInput<RcReceiver>, again: Edge, exit: Edge, runs: Rc<Cell<u32>> },
    /// Receives the start value and creates the first looping node.
    Loop10Init { input: DataInput<RcReceiver>, exit: Edge, runs: Rc<Cell<u32>>, rearm: bool },
    /// Creates a node for the next value until it reaches 10.
    Loop10 { data: i32, exit: Edge, runs: Rc<Cell<u32>>, rearm: bool },
    /// Records its id when it runs.
    Log { id: u32, log: Rc<RefCell<Vec<u32>>> },
    /// Activates its own node once more while it runs.
    SelfActivate { me: RcActivator },
}

fn spawn_loop(rt: &mut Rt, data: i32, exit: Edge, runs: Rc<Cell<u32>>, rearm: bool) {
    let mut b = rt.node(Node::Loop10 { data, exit, runs, rearm });
    if rearm {
        // a reusable node waits for one activation per run
        let a = b.add_activator();
        b.finalize(rt);
        rt.activate(a.node);
    } else {
        b.finalize(rt);
    }
}

impl NodeMut<Rt> for Node {
    fn execute_mut(&mut self, rt: &mut Rt) {
        match self {
            Node::Identity { input, output } => {
                if let Some(v) = input.recv_activate(rt) {
                    output.send_activate(rt, v);
                }
            }
            Node::Store { input, output } => {
                if let Some(v) = input.recv_activate(rt) {
                    output.send_activate(rt, v);
                }
            }
            Node::Forward { input, output } => {
                if let Some(v) = input.recv_activate(rt) {
                    output.send_activate(rt, v);
                }
            }
            Node::Inc10 { input, again, exit, runs } => {
                runs.set(runs.get() + 1);
                let data = input.recv_activate(rt).unwrap();
                if data < 10 {
                    again.send_activate(rt, data + 1);
                } else {
                    exit.send_activate(rt, data);
                }
            }
            Node::Loop10Init { input, exit, runs, rearm } => {
                let data = input.recv_activate(rt).unwrap();
                spawn_loop(rt, data, *exit, runs.clone(), *rearm);
            }
            Node::Loop10 { data, exit, runs, rearm } => {
                runs.set(runs.get() + 1);
                if *data < 10 {
                    spawn_loop(rt, *data + 1, *exit, runs.clone(), *rearm);
                } else {
                    exit.send_activate(rt, *data);
                }
            }
            Node::Log { id, log } => log.borrow_mut().push(*id),
            Node::SelfActivate { me } => me.activate(rt),
        }
    }
}

/// A node storing what it receives; returns the edge into it and the port to read.
fn store(rt: &mut Rt) -> (Edge, usize) {
    let (in_s, in_r) = rt.port(None).split();
    let (out_s, out_r) = rt.port(None).split();
    let mut b = rt.node(Node::Store { input: in_r.as_data_input(), output: out_s.as_data_output() });
    let a = b.add_activator();
    b.finalize(rt);
    (in_s.with_activator(a), out_r.port)
}

/// The looping graph: an identity fans out to x, y and a loop up to 10 that ends
/// in z.  Returns the root edge, the ports of x, y and z, and the run counter of the loop.
fn loop_graph(rt: &mut Rt, dynamic: bool, rearm: bool) -> (Edge, [usize; 3], Rc<Cell<u32>>) {
    let (x_in, x) = store(rt);
    let (y_in, y) = store(rt);
    let (z_in, z) = store(rt);
    let runs = Rc::new(Cell::new(0));
    let (l_s, l_r) = rt.port(None).split();
    let loop_in = if dynamic {
        let mut b = rt.node(Node::Loop10Init {
            input: l_r.as_data_input(),
            exit: z_in,
            runs: runs.clone(),
            rearm,
        });
        let a = b.add_activator();
        b.finalize(rt);
        l_s.with_activator(a)
    } else {
        let me = RcActivator { node: rt.node_count() };
        let mut b = rt.node(Node::Inc10 {
            input: l_r.as_data_input(),
            again: l_s.with_activator(me),
            exit: z_in,
            runs: runs.clone(),
        });
        let a = b.add_activator();
        assert_eq!(a, me);
        b.finalize(rt);
        l_s.with_activator(a)
    };
    let (s, r) = rt.port(None).split();
    let mut fan = CloneOutput::new();
    fan.connect(x_in);
    fan.connect(y_in);
    fan.connect(loop_in);
    let mut b = rt.node(Node::Identity { input: r.as_data_input(), output: fan });
    let a = b.add_activator();
    b.finalize(rt);
    (s.with_activator(a), [x, y, z], runs)
}

fn run_loop_graph(mut rt: Rt, dynamic: bool, rearm: bool, k: usize) -> (Rt, [Option<i32>; 3], u32) {
    let (root, ports, runs) = loop_graph(&mut rt, dynamic, rearm);
    root.send_activate(&mut rt, 1);
    rt.execute(k);
    let got = [rt.recv(ports[0]), rt.recv(ports[1]), rt.recv(ports[2])];
    (rt, got, runs.get())
}

#[test]
fn application_ssu() {
    let (rt, [x, y, z], _) = run_loop_graph(Toexec::new(), true, false, 5);
    assert_eq!(x, Some(1));
    assert_eq!(y, Some(1));
    assert_eq!(z, Some(10));
    assert_eq!(rt.fault(), None);
}

#[test]
fn lib_ssu() {
    let (rt, [x, y, z], _) = run_loop_graph(Toexec::new(), true, false, 5);
    assert_eq!(x, Some(1));
    assert_eq!(y, Some(1));
    assert_eq!(z, Some(10));
    assert_eq!(rt.fault(), None);
}

#[test]
fn smu_dynamic() {
    let (rt, [x, y, z], _) = run_loop_graph(Toexec::new_reusable(), true, true, 5);
    assert_eq!(x, Some(1));
    assert_eq!(y, Some(1));
    assert_eq!(z, Some(10));
    assert_eq!(rt.fault(), None);
}

#[test]
fn smu_static() {
    let (rt, [x, y, z], _) = run_loop_graph(Toexec::new_reusable(), false, true, 5);
    assert_eq!(x, Some(1));
    assert_eq!(y, Some(1));
    assert_eq!(z, Some(10));
    assert_eq!(rt.fault(), None);
}

#[test]
fn fan_out_identity_sets_all_three() {
    for k in [1, 3] {
        let mut rt: Rt = Toexec::new();
        let (x_in, x) = store(&mut rt);
        let (y_in, y) = store(&mut rt);
        let (z_in, z) = store(&mut rt);
        let (s, r) = rt.port(None).split();
        let mut fan = CloneOutput::new();
        fan.connect(x_in);
        fan.connect(y_in);
        fan.connect(z_in);
        let mut b = rt.node(Node::Identity { input: r.as_data_input(), output: fan });
        let a = b.add_activator();
        b.finalize(&mut rt);
        s.with_activator(a).send_activate(&mut rt, 1);
        assert_eq!(rt.execute(k), 4);
        assert_eq!(rt.recv(x), Some(1));
        assert_eq!(rt.recv(y), Some(1));
        assert_eq!(rt.recv(z), Some(1));
    }
}

#[test]
fn loop_to_ten_runs_ten_times() {
    let (_, [_, _, z], runs) = run_loop_graph(Toexec::new(), true, false, 1);
    assert_eq!(z, Some(10));
    assert_eq!(runs, 10);
    let (_, [_, _, z], runs) = run_loop_graph(Toexec::new_reusable(), false, true, 1);
    assert_eq!(z, Some(10));
    assert_eq!(runs, 10);
}

#[test]
fn reusable_counter_four_workers_matches_one() {
    let (rt4, [_, _, z4], runs4) = run_loop_graph(Toexec::new_reusable(), false, true, 4);
    let (_, [_, _, z1], runs1) = run_loop_graph(Toexec::new_reusable(), false, true, 1);
    assert_eq!(z4, Some(10));
    assert_eq!(z4, z1);
    assert_eq!(runs4, runs1);
    assert!(rt4.is_quiescent());
}

#[test]
fn reusable_graph_runs_again() {
    let mut rt: Rt = Toexec::new_reusable();
    let (root, ports, runs) = loop_graph(&mut rt, false, true);
    for round in 1..=3u32 {
        root.send_activate(&mut rt, 1);
        rt.execute(2);
        assert_eq!(rt.recv(ports[2]), Some(10));
        assert_eq!(runs.get(), 10 * round);
    }
    assert_eq!(rt.fault(), None);
}

#[test]
fn immediate_finalization_runs_once() {
    let log = Rc::new(RefCell::new(Vec::new()));
    let mut rt: Rt = Toexec::new();
    let b = rt.node(Node::Log { id: 7, log: log.clone() });
    assert_eq!(rt.finalize(&b), Ok(true));
    assert_eq!(rt.ready_count(), 1);
    assert!(rt.activator_state(b.node).unwrap().queued);
    assert_eq!(rt.execute(1), 1);
    assert_eq!(*log.borrow(), vec![7]);
    assert_eq!(rt.execute(1), 0);
    assert_eq!(*log.borrow(), vec![7]);
}

#[test]
fn double_activate_is_refused() {
    let log = Rc::new(RefCell::new(Vec::new()));
    let mut rt: Rt = Toexec::new();
    let mut b = rt.node(Node::Log { id: 1, log: log.clone() });
    let a = b.add_activator();
    b.finalize(&mut rt);
    assert_eq!(rt.activate_node(a.node), Ok(true));
    a.activate(&mut rt);
    assert_eq!(rt.fault(), Some(ProtocolError::NotArmed));
    assert_eq!(rt.ready_count(), 1);
    // the breach poisons the runtime: nothing runs any more
    assert_eq!(rt.execute(1), 0);
    assert!(log.borrow().is_empty());
}

#[test]
fn a_run_stops_at_the_first_fault() {
    let log = Rc::new(RefCell::new(Vec::new()));
    let mut rt: Rt = Toexec::new_reusable();
    let h = rt.node_count();
    let b = rt.node(Node::SelfActivate { me: RcActivator { node: h } });
    assert_eq!(rt.finalize(&b), Ok(true));
    let l = rt.node(Node::Log { id: 2, log: log.clone() });
    assert_eq!(rt.finalize(&l), Ok(true));
    assert_eq!(rt.execute(1), 1);
    assert_eq!(rt.fault(), Some(ProtocolError::Busy));
    assert_eq!(rt.ready_count(), 1);
    assert!(log.borrow().is_empty());
}

#[test]
fn identity_between_producer_and_consumer_changes_nothing() {
    for v in [-3, 0, 42] {
        let mut direct: Rt = Toexec::new();
        let (c_in, c) = store(&mut direct);
        c_in.send_activate(&mut direct, v);
        direct.execute(2);

        let mut through: Rt = Toexec::new();
        let (c_in2, c2) = store(&mut through);
        let (s, r) = through.port(None).split();
        let mut b = through.node(Node::Forward { input: r.as_data_input(), output: c_in2 });
        let a = b.add_activator();
        b.finalize(&mut through);
        s.with_activator(a).send_activate(&mut through, v);
        through.execute(2);

        assert_eq!(direct.recv(c), Some(v));
        assert_eq!(through.recv(c2), Some(v));
    }
}

#[test]
fn clone_output_matches_separate_edges() {
    let mut fanned: Rt = Toexec::new();
    let mut outs = Vec::new();
    let mut fan = CloneOutput::new();
    for _ in 0..3 {
        let (e, p) = store(&mut fanned);
        fan.connect(e);
        outs.push(p);
    }
    assert_eq!(fan.len(), 3);
    fan.send_activate(&mut fanned, 5);
    fanned.execute(3);

    let mut separate: Rt = Toexec::new();
    let mut edges = Vec::new();
    let mut outs2 = Vec::new();
    for _ in 0..3 {
        let (e, p) = store(&mut separate);
        edges.push(e);
        outs2.push(p);
    }
    for e in &edges {
        e.send_activate(&mut separate, 5);
    }
    separate.execute(3);

    let mut copied: Rt = Toexec::new();
    let mut outs3 = Vec::new();
    let mut fan3 = CloneOutput::new();
    for _ in 0..3 {
        let (e, p) = store(&mut copied);
        fan3.connect(e);
        outs3.push(p);
    }
    fan3.send_copies(&mut copied, 5);
    copied.execute(2);

    for i in 0..3 {
        assert_eq!(fanned.recv(outs[i]), Some(5));
        assert_eq!(separate.recv(outs2[i]), Some(5));
        assert_eq!(copied.recv(outs3[i]), Some(5));
    }
}

#[test]
fn single_worker_runs_in_fifo_order() {
    let log = Rc::new(RefCell::new(Vec::new()));
    let mut rt: Rt = Toexec::new();
    let mut acts = Vec::new();
    for id in 0..5 {
        let mut b = rt.node(Node::Log { id, log: log.clone() });
        acts.push(b.add_activator());
        b.finalize(&mut rt);
    }
    for i in [3, 0, 4, 1, 2] {
        rt.activate(acts[i].node);
    }
    assert_eq!(rt.execute(1), 5);
    assert_eq!(*log.borrow(), vec![3, 0, 4, 1, 2]);
}

#[test]
fn activation_counting_in_a_reusable_graph() {
    let log = Rc::new(RefCell::new(Vec::new()));
    let mut rt: Rt = Toexec::new_reusable();
    let mut b: RcBuilder = rt.node(Node::Log { id: 9, log: log.clone() });
    let a1 = b.add_activator();
    let a2 = b.add_activator();
    b.finalize(&mut rt);
    // five activations from two producers: two full rounds
    for a in [a1, a2, a1, a2, a1] {
        rt.activate(a.node);
        rt.execute(2);
    }
    assert_eq!(log.borrow().len(), 5 / 2);
    assert_eq!(rt.activator_state(b.node).unwrap().pending, 1);
    assert_eq!(rt.fault(), None);
}

#[test]
fn firing_while_running_is_busy() {
    let mut rt: Rt = Toexec::new_reusable();
    let h = rt.node_count();
    let b = rt.node(Node::SelfActivate { me: RcActivator { node: h } });
    assert_eq!(rt.finalize(&b), Ok(true));
    rt.execute(1);
    assert_eq!(rt.fault(), Some(ProtocolError::Busy));
}

#[test]
fn sends_to_unknown_ports_and_nodes_are_noted() {
    let mut rt: Rt = Toexec::new();
    assert_eq!(rt.send_activate(4, 0, 1), Err(ProtocolError::UnknownPort));
    let p = rt.port(None);
    assert_eq!(rt.send_activate(p.port, 4, 1), Err(ProtocolError::UnknownNode));
    assert_eq!(rt.recv(p.port), Some(1));
    rt.deliver(9, 0, 2);
    assert_eq!(rt.fault(), Some(ProtocolError::UnknownPort));
}
