//! One node of the mesh: it listens on its address, hands every connection
//! it accepts to a handler of its own, and broadcasts on every tick.
//!
//! The accept loop and the ticks do not wait for each other, and neither is
//! started again once it has ended.

use crate::broadcast::{plan_round, round_of, SendTask, TaskView};
use crate::log::{listening_line, listening_text};
use crate::topology::{peer_set, peers_of, NodeAddr};
use vstd::prelude::*;

verus! {

/// What a node is made of. None of it changes while the node lives.
#[derive(Debug, PartialEq, Eq)]
pub struct Node {
    pub id: usize,
    pub addr: NodeAddr,
    pub peers: Vec<NodeAddr>,
    pub latency_ms: u64,
}

/// A node as plain mathematical values.
pub struct NodeView {
    pub id: nat,
    pub addr: NodeAddr,
    pub peers: Seq<NodeAddr>,
    pub latency_ms: nat,
}

impl View for Node {
    type V = NodeView;

    open spec fn view(&self) -> NodeView {
        NodeView {
            id: self.id as nat,
            addr: self.addr,
            peers: self.peers@,
            latency_ms: self.latency_ms as nat,
        }
    }
}

/// How far a node has come.
#[derive(Debug, Clone, Copy, PartialEq, Eq, Structural)]
pub enum NodePhase {
    /// Not bound yet.
    Starting,
    /// Bound: accepting connections and broadcasting.
    Serving,
    /// The accept loop has ended; the node still broadcasts.
    Deaf,
    /// The address could not be bound: the node never ran.
    Failed,
}

/// What happened to a node.
#[derive(Debug, PartialEq, Eq)]
pub enum NodeEvent {
    Bound,
    BindFailed(String),
    Accepted,
    AcceptFailed,
    /// The ticker fired, at this second since the epoch.
    Tick(u64),
}

/// An event as plain mathematical values.
pub enum NodeEventView {
    Bound,
    BindFailed(Seq<char>),
    Accepted,
    AcceptFailed,
    Tick(nat),
}

impl View for NodeEvent {
    type V = NodeEventView;

    open spec fn view(&self) -> NodeEventView {
        match self {
            NodeEvent::Bound => NodeEventView::Bound,
            NodeEvent::BindFailed(e) => NodeEventView::BindFailed(e@),
            NodeEvent::Accepted => NodeEventView::Accepted,
            NodeEvent::AcceptFailed => NodeEventView::AcceptFailed,
            NodeEvent::Tick(now) => NodeEventView::Tick(*now as nat),
        }
    }
}

/// What the caller is to do for a node.
#[derive(Debug, PartialEq, Eq)]
pub enum NodeAction {
    /// Log this line, then start the accept loop and the ticker.
    Announce(String),
    /// Give up on this node with this error.
    Abort(String),
    /// Start a handler on the connection, and accept again at once.
    Handle,
    /// Accept no more.
    StopAccepting,
    /// Start each of these sends, and wait for none of them.
    Broadcast(Vec<SendTask>),
    /// The event came out of turn: nothing to do.
    Nothing,
}

/// An action as plain mathematical values.
pub enum NodeActionView {
    Announce(Seq<char>),
    Abort(Seq<char>),
    Handle,
    StopAccepting,
    Broadcast(Seq<TaskView>),
    Nothing,
}

impl View for NodeAction {
    type V = NodeActionView;

    open spec fn view(&self) -> NodeActionView {
        match self {
            NodeAction::Announce(l) => NodeActionView::Announce(l@),
            NodeAction::Abort(e) => NodeActionView::Abort(e@),
            NodeAction::Handle => NodeActionView::Handle,
            NodeAction::StopAccepting => NodeActionView::StopAccepting,
            NodeAction::Broadcast(tasks) => NodeActionView::Broadcast(
                tasks@.map_values(|t: SendTask| t@),
            ),
            NodeAction::Nothing => NodeActionView::Nothing,
        }
    }
}

/// Node `id` of the mesh with these addresses.
pub open spec fn node_in_mesh(id: nat, addrs: Seq<NodeAddr>, latency_ms: nat) -> NodeView {
    NodeView { id, addr: addrs[id as int], peers: peers_of(addrs, id as int), latency_ms }
}

/// Where a node goes from `phase` on `event`, and what is to be done.
pub open spec fn node_step(node: NodeView, phase: NodePhase, event: NodeEventView) -> (
    NodePhase,
    NodeActionView,
) {
    match (phase, event) {
        (NodePhase::Starting, NodeEventView::Bound) => (
            NodePhase::Serving,
            NodeActionView::Announce(listening_text(node.id, node.addr)),
        ),
        (NodePhase::Starting, NodeEventView::BindFailed(e)) => (
            NodePhase::Failed,
            NodeActionView::Abort(e),
        ),
        (NodePhase::Serving, NodeEventView::Accepted) => (
            NodePhase::Serving,
            NodeActionView::Handle,
        ),
        (NodePhase::Serving, NodeEventView::AcceptFailed) => (
            NodePhase::Deaf,
            NodeActionView::StopAccepting,
        ),
        (NodePhase::Serving, NodeEventView::Tick(now)) => (
            NodePhase::Serving,
            NodeActionView::Broadcast(round_of(node.id, now, node.peers, node.latency_ms)),
        ),
        (NodePhase::Deaf, NodeEventView::Tick(now)) => (
            NodePhase::Deaf,
            NodeActionView::Broadcast(round_of(node.id, now, node.peers, node.latency_ms)),
        ),
        _ => (phase, NodeActionView::Nothing),
    }
}

impl Node {
    /// Node `id` of a mesh: it listens on its own address and has every
    /// other address as a peer.
    pub fn in_mesh(id: usize, addrs: &Vec<NodeAddr>, latency_ms: u64) -> (r: Node)
        requires
            id < addrs@.len(),
        ensures
            r@ == node_in_mesh(id as nat, addrs@, latency_ms as nat),
    {
        Node { id, addr: addrs[id], peers: peer_set(addrs, id), latency_ms }
    }

    /// Moves the node on by one event.
    pub fn step(&self, phase: NodePhase, event: &NodeEvent) -> (r: (NodePhase, NodeAction))
        ensures
            (r.0, r.1@) == node_step(self@, phase, event@),
    {
        match phase {
            NodePhase::Starting => match event {
                NodeEvent::Bound => (
                    NodePhase::Serving,
                    NodeAction::Announce(listening_line(self.id, &self.addr)),
                ),
                NodeEvent::BindFailed(e) => (NodePhase::Failed, NodeAction::Abort(e.clone())),
                _ => (phase, NodeAction::Nothing),
            },
            NodePhase::Serving => match event {
                NodeEvent::Accepted => (NodePhase::Serving, NodeAction::Handle),
                NodeEvent::AcceptFailed => (NodePhase::Deaf, NodeAction::StopAccepting),
                NodeEvent::Tick(now) => (
                    NodePhase::Serving,
                    NodeAction::Broadcast(plan_round(self.id, *now, &self.peers, self.latency_ms)),
                ),
                _ => (phase, NodeAction::Nothing),
            },
            NodePhase::Deaf => match event {
                NodeEvent::Tick(now) => (
                    NodePhase::Deaf,
                    NodeAction::Broadcast(plan_round(self.id, *now, &self.peers, self.latency_ms)),
                ),
                _ => (phase, NodeAction::Nothing),
            },
            NodePhase::Failed => (phase, NodeAction::Nothing),
        }
    }
}

} // verus!
