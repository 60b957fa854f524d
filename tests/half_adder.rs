use dataflow::api::{InputEdge, NodeMut, OutputEdge, Port};
use dataflow::builder::{GraphSpecExt, ScopedGraphBuilder};
use dataflow::edge::{CloneOutput, DataInput, DataOutput, NodeInput, ReceiverExt, SenderExt};
use dataflow::port::{RcReceiver, RcSender};
use dataflow::runtime::{RcActivator, Toexec};

type Edge = NodeInput<RcActivator, RcSender>;
type Rt = Toexec<bool, Gate>;

enum Gate {
    Fan { input: DataInput<RcReceiver>, output: CloneOutput<Edge> },
    Xor { a: DataInput<RcReceiver>, b: DataInput<RcReceiver>, output: Edge },
    And { a: DataInput<RcReceiver>, b: DataInput<RcReceiver>, output: Edge },
    Store { input: DataInput<RcReceiver>, output: DataOutput<RcSender> },
}

impl NodeMut<Rt> for Gate {
    fn execute_mut(&mut self, rt: &mut Rt) {
        match self {
            Gate::Fan { input, output } => {
                if let Some(v) = input.recv_activate(rt) {
                    output.send_activate(rt, v);
                }
            }
            Gate::Xor { a, b, output } => {
                let (x, y) = (a.recv_activate(rt).unwrap(), b.recv_activate(rt).unwrap());
                output.send_activate(rt, x ^ y);
            }
            Gate::And { a, b, output } => {
                let (x, y) = (a.recv_activate(rt).unwrap(), b.recv_activate(rt).unwrap());
                output.send_activate(rt, x && y);
            }
            Gate::Store { input, output } => {
                if let Some(v) = input.recv_activate(rt) {
                    output.send_activate(rt, v);
                }
            }
        }
    }
}

fn store(b: &mut ScopedGraphBuilder<'_, bool, Gate>) -> (Edge, usize) {
    let (in_s, in_r) = b.port(None).split();
    let (out_s, out_r) = b.port(None).split();
    let mut n = b.node(Gate::Store { input: in_r.as_data_input(), output: out_s.as_data_output() });
    let a = n.add_activator();
    assert!(b.finalize(n).is_ok());
    (in_s.with_activator(a), out_r.port)
}

/// Builds the half adder; returns the edges of its two inputs and the ports of sum and carry.
fn half_adder(rt: &mut Rt) -> ((Edge, Edge), (usize, usize)) {
    let mut b = rt.build_scope();
    let (sum_in, sum) = store(&mut b);
    let (carry_in, carry) = store(&mut b);

    let (xor_s1, xor_r1) = b.port(None).split();
    let (xor_s2, xor_r2) = b.port(None).split();
    let mut xor = b.node(Gate::Xor { a: xor_r1.as_data_input(), b: xor_r2.as_data_input(), output: sum_in });
    let xor_a1 = xor.add_activator();
    let xor_a2 = xor.add_activator();
    assert!(b.finalize(xor).is_ok());

    let (and_s1, and_r1) = b.port(None).split();
    let (and_s2, and_r2) = b.port(None).split();
    let mut and = b.node(Gate::And { a: and_r1.as_data_input(), b: and_r2.as_data_input(), output: carry_in });
    let and_a1 = and.add_activator();
    let and_a2 = and.add_activator();
    assert!(b.finalize(and).is_ok());

    let mut inputs = Vec::new();
    for (xs, xa, ys, ya) in [(xor_s1, xor_a1, and_s1, and_a1), (xor_s2, xor_a2, and_s2, and_a2)] {
        let (s, r) = b.port(None).split();
        let mut fan = CloneOutput::new();
        fan.connect(xs.with_activator(xa));
        fan.connect(ys.with_activator(ya));
        let mut n = b.node(Gate::Fan { input: r.as_data_input(), output: fan });
        let a = n.add_activator();
        assert!(b.finalize(n).is_ok());
        inputs.push(s.with_activator(a));
    }
    assert_eq!(b.finish(), 0);
    ((inputs[0], inputs[1]), (sum, carry))
}

fn add(x: bool, y: bool, k: usize) -> (Option<bool>, Option<bool>) {
    let mut rt: Rt = Toexec::new();
    let ((xi, yi), (sum, carry)) = half_adder(&mut rt);
    xi.send_activate(&mut rt, x);
    yi.send_activate(&mut rt, y);
    rt.execute(k);
    assert_eq!(rt.fault(), None);
    (rt.recv(sum), rt.recv(carry))
}

#[test]
fn demi_additionneur() {
    let (x, y) = add(true, false, 2);
    assert_eq!(x, Some(true));
    assert_eq!(y, Some(false));
}

#[test]
fn half_adder_truth_table() {
    for k in [1, 2, 4] {
        assert_eq!(add(false, false, k), (Some(false), Some(false)));
        assert_eq!(add(false, true, k), (Some(true), Some(false)));
        assert_eq!(add(true, false, k), (Some(true), Some(false)));
        assert_eq!(add(true, true, k), (Some(false), Some(true)));
    }
}

#[test]
fn unfinalized_nodes_are_reported_at_scope_end() {
    let mut rt: Rt = Toexec::new();
    let mut b = rt.build_scope();
    let (s, r) = b.port(None).split();
    let (o, _) = b.port(None).split();
    let mut n = b.node(Gate::Store { input: r.as_data_input(), output: o.as_data_output() });
    let a = n.add_activator();
    let _forgotten = b.node(Gate::Store { input: r.as_data_input(), output: o.as_data_output() });
    assert!(b.finalize(n).is_ok());
    assert_eq!(b.finish(), 1);
    s.with_activator(a).send_activate(&mut rt, true);
    assert_eq!(rt.execute(1), 1);
    assert_eq!(rt.node_count(), 2);
}
