//! One broadcast round, and the life of each send that it starts.
//!
//! A round builds one share and starts one send per peer. Each send waits
//! out the simulated latency, connects, writes the share once and ends. A
//! send that fails is reported and dropped; it is never tried again, and it
//! touches no other send.

use crate::codec::{decode_spec, encode, encode_spec, DecodeError};
use crate::inbound::{record_of, step_of_chunk, StepView};
use crate::log::{connect_failure_line, connect_failure_text, write_failure_line, write_failure_text};
use crate::share::{fresh_share, Share, ShareView};
use crate::topology::NodeAddr;
use vstd::prelude::*;

verus! {

/// The time between two rounds of one node, in seconds.
pub const TICK_PERIOD_SECS: u64 = 2;

/// One send of one round: which node sends what to whom, and after how long.
#[derive(Debug, PartialEq, Eq)]
pub struct SendTask {
    pub node_id: usize,
    pub target: NodeAddr,
    pub latency_ms: u64,
    pub share: Share,
}

/// A send as plain mathematical values.
pub struct TaskView {
    pub node_id: nat,
    pub target: NodeAddr,
    pub latency_ms: nat,
    pub share: ShareView,
}

impl View for SendTask {
    type V = TaskView;

    open spec fn view(&self) -> TaskView {
        TaskView {
            node_id: self.node_id as nat,
            target: self.target,
            latency_ms: self.latency_ms as nat,
            share: self.share@,
        }
    }
}

/// How far a send has come.
#[derive(Debug, Clone, Copy, PartialEq, Eq, Structural)]
pub enum SendState {
    /// Waiting out the latency.
    Delayed,
    /// Connecting to the peer.
    Connecting,
    /// Writing the share.
    Writing,
    /// Over, whether the share went out or not.
    Finished,
}

/// What happened to a send.
#[derive(Debug, PartialEq, Eq)]
pub enum SendEvent {
    DelayElapsed,
    Connected,
    ConnectFailed(String),
    Written,
    WriteFailed(String),
}

/// An event as plain mathematical values.
pub enum EventView {
    DelayElapsed,
    Connected,
    ConnectFailed(Seq<char>),
    Written,
    WriteFailed(Seq<char>),
}

impl View for SendEvent {
    type V = EventView;

    open spec fn view(&self) -> EventView {
        match self {
            SendEvent::DelayElapsed => EventView::DelayElapsed,
            SendEvent::Connected => EventView::Connected,
            SendEvent::ConnectFailed(e) => EventView::ConnectFailed(e@),
            SendEvent::Written => EventView::Written,
            SendEvent::WriteFailed(e) => EventView::WriteFailed(e@),
        }
    }
}

/// What the caller is to do for a send.
#[derive(Debug, PartialEq, Eq)]
pub enum SendAction {
    /// Wait this many milliseconds, then report `DelayElapsed`.
    Sleep(u64),
    /// Open a new connection to this address.
    Connect(NodeAddr),
    /// Write these bytes to the connection, once.
    Write(Vec<u8>),
    /// Log this line at error level; the send is over.
    Report(String),
    /// The send is over.
    Finish,
    /// The event came out of turn: nothing to do.
    Nothing,
}

/// An action as plain mathematical values.
pub enum ActionView {
    Sleep(nat),
    Connect(NodeAddr),
    Write(Seq<u8>),
    Report(Seq<char>),
    Finish,
    Nothing,
}

impl View for SendAction {
    type V = ActionView;

    open spec fn view(&self) -> ActionView {
        match self {
            SendAction::Sleep(ms) => ActionView::Sleep(*ms as nat),
            SendAction::Connect(a) => ActionView::Connect(*a),
            SendAction::Write(b) => ActionView::Write(b@),
            SendAction::Report(l) => ActionView::Report(l@),
            SendAction::Finish => ActionView::Finish,
            SendAction::Nothing => ActionView::Nothing,
        }
    }
}

/// The send of `share` from `node_id` to `target`.
pub open spec fn task_for(node_id: nat, target: NodeAddr, latency_ms: nat, share: ShareView)
    -> TaskView {
    TaskView { node_id, target, latency_ms, share }
}

/// The sends of the round of node `node_id` at second `now`: one per peer,
/// in the order of the peers, all with the same share.
pub open spec fn round_of(node_id: nat, now: nat, peers: Seq<NodeAddr>, latency_ms: nat) -> Seq<
    TaskView,
> {
    Seq::new(
        peers.len(),
        |i: int| task_for(node_id, peers[i], latency_ms, fresh_share(node_id, now)),
    )
}

/// Where a send goes from `state` on `event`, and what is to be done.
pub open spec fn send_step(task: TaskView, state: SendState, event: EventView) -> (
    SendState,
    ActionView,
) {
    match (state, event) {
        (SendState::Delayed, EventView::DelayElapsed) => (
            SendState::Connecting,
            ActionView::Connect(task.target),
        ),
        (SendState::Connecting, EventView::Connected) => (
            SendState::Writing,
            ActionView::Write(encode_spec(task.share)),
        ),
        (SendState::Connecting, EventView::ConnectFailed(e)) => (
            SendState::Finished,
            ActionView::Report(connect_failure_text(task.node_id, task.target, e)),
        ),
        (SendState::Writing, EventView::Written) => (SendState::Finished, ActionView::Finish),
        (SendState::Writing, EventView::WriteFailed(e)) => (
            SendState::Finished,
            ActionView::Report(write_failure_text(task.node_id, task.target, e)),
        ),
        _ => (state, ActionView::Nothing),
    }
}

impl SendTask {
    /// Starts the send: it waits out the latency first.
    pub fn start(&self) -> (r: (SendState, SendAction))
        ensures
            r.0 == SendState::Delayed,
            r.1@ == ActionView::Sleep(self@.latency_ms),
    {
        (SendState::Delayed, SendAction::Sleep(self.latency_ms))
    }

    /// Moves the send on by one event. The bytes that it asks to write are
    /// delivered, by whichever node receives them as one chunk, as a share
    /// of this sender.
    pub fn step(&self, state: SendState, event: &SendEvent) -> (r: (SendState, SendAction))
        ensures
            (r.0, r.1@) == send_step(self@, state, event@),
            r.1 matches SendAction::Write(bytes) ==> forall|receiver: nat|
                #[trigger] step_of_chunk(receiver, bytes@) == StepView::Deliver(
                    record_of(receiver, self@.share),
                ),
    {
        match state {
            SendState::Delayed => match event {
                SendEvent::DelayElapsed => (SendState::Connecting, SendAction::Connect(self.target)),
                _ => (state, SendAction::Nothing),
            },
            SendState::Connecting => match event {
                SendEvent::Connected => (SendState::Writing, SendAction::Write(encode(&self.share))),
                SendEvent::ConnectFailed(e) => (
                    SendState::Finished,
                    SendAction::Report(connect_failure_line(self.node_id, &self.target, e.as_str())),
                ),
                _ => (state, SendAction::Nothing),
            },
            SendState::Writing => match event {
                SendEvent::Written => (SendState::Finished, SendAction::Finish),
                SendEvent::WriteFailed(e) => (
                    SendState::Finished,
                    SendAction::Report(write_failure_line(self.node_id, &self.target, e.as_str())),
                ),
                _ => (state, SendAction::Nothing),
            },
            SendState::Finished => (state, SendAction::Nothing),
        }
    }
}

/// Plans the round of node `node_id` at second `now`: one new share, and one
/// send of it per peer.
pub fn plan_round(node_id: usize, now: u64, peers: &Vec<NodeAddr>, latency_ms: u64) -> (r: Vec<
    SendTask,
>)
    ensures
        r@.map_values(|t: SendTask| t@) == round_of(
            node_id as nat,
            now as nat,
            peers@,
            latency_ms as nat,
        ),
{
    let share = Share::new(node_id, now);
    let mut out: Vec<SendTask> = Vec::new();
    let mut i: usize = 0;
    while i < peers.len()
        invariant
            i <= peers.len(),
            share@ == fresh_share(node_id as nat, now as nat),
            out@.len() == i,
            forall|k: int|
                0 <= k < i ==> (#[trigger] out@[k])@ == task_for(
                    node_id as nat,
                    peers@[k],
                    latency_ms as nat,
                    share@,
                ),
        decreases peers.len() - i,
    {
        out.push(SendTask { node_id, target: peers[i], latency_ms, share: share.clone() });
        i = i + 1;
    }
    assert(out@.map_values(|t: SendTask| t@) =~= round_of(
        node_id as nat,
        now as nat,
        peers@,
        latency_ms as nat,
    ));
    out
}

/// What a round sends to one peer does not depend on the other peers, nor
/// on what became of any other send: the send to peer `i` is the send of the
/// round's share to that peer, and once connected it writes that share,
/// whatever the peers before and after it are.
pub proof fn lemma_sends_are_independent(
    node_id: nat,
    now: nat,
    peers: Seq<NodeAddr>,
    others: Seq<NodeAddr>,
    latency_ms: nat,
    i: int,
    j: int,
)
    requires
        0 <= i < peers.len(),
        0 <= j < others.len(),
        peers[i] == others[j],
    ensures
        round_of(node_id, now, peers, latency_ms)[i] == round_of(
            node_id,
            now,
            others,
            latency_ms,
        )[j],
        send_step(
            round_of(node_id, now, peers, latency_ms)[i],
            SendState::Connecting,
            EventView::Connected,
        ) == (SendState::Writing, ActionView::Write(encode_spec(fresh_share(node_id, now)))),
{
}

} // verus!
