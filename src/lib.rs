//! A dataflow runtime: tasks wired into a graph by ports, which carry data, and activators,
//! which decide when a task is ready; a pool of work-stealing workers runs the graph.
//!
//! - `api`: the traits of tasks, nodes, edges, ports, activators and schedulers.
//! - `activator`: the pending-count protocol by which a node becomes ready.
//! - `runtime`: the arena of nodes and ports, the ready deques and the workers' decisions.
//! - `port`, `edge`, `node`: the parts a graph is wired from.
//! - `builder`: scoped graph building.
//! - `counter`: the counter of a worker's empty stealing rounds.

pub mod activator;
pub mod api;
pub mod builder;
pub mod counter;
pub mod edge;
pub mod node;
pub mod port;
pub mod runtime;
