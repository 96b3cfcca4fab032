//! What a node does with one accepted connection.
//!
//! The connection is read in chunks. Each chunk is taken as one whole share
//! or dropped; nothing is kept from one chunk to the next, and nothing is
//! ever written back.

use crate::codec::{decode, decode_spec};
use crate::log::{receive_line, receive_text};
use crate::share::ShareView;
use vstd::prelude::*;
use vstd::slice::slice_subrange;

verus! {

/// The most that one receive asks for, in bytes.
pub const READ_BUFFER_LEN: usize = 1024;

/// How one receive on the connection ended.
#[derive(Debug, Clone, Copy, PartialEq, Eq, Structural)]
pub enum ReadOutcome {
    /// This many bytes arrived, at the start of the buffer. None means that
    /// the peer has closed the connection.
    Received(usize),
    /// The receive failed.
    Failed,
}

/// A share that arrived, as the log shows it.
#[derive(Debug, PartialEq, Eq)]
pub struct ReceiveRecord {
    pub receiver: usize,
    pub sender: usize,
    pub content: String,
}

/// A record as plain mathematical values.
pub struct RecordView {
    pub receiver: nat,
    pub sender: nat,
    pub content: Seq<char>,
}

impl View for ReceiveRecord {
    type V = RecordView;

    open spec fn view(&self) -> RecordView {
        RecordView {
            receiver: self.receiver as nat,
            sender: self.sender as nat,
            content: self.content@,
        }
    }
}

/// What the handler does after a receive.
#[derive(Debug, PartialEq, Eq)]
pub enum HandlerStep {
    /// Log this record, then receive again.
    Deliver(ReceiveRecord),
    /// The chunk was no share: receive again.
    Ignore,
    /// Stop: the connection is closed or broken.
    Close,
}

/// A step as plain mathematical values.
pub enum StepView {
    Deliver(RecordView),
    Ignore,
    Close,
}

impl View for HandlerStep {
    type V = StepView;

    open spec fn view(&self) -> StepView {
        match self {
            HandlerStep::Deliver(r) => StepView::Deliver(r@),
            HandlerStep::Ignore => StepView::Ignore,
            HandlerStep::Close => StepView::Close,
        }
    }
}

/// The record of a share that `receiver` got.
pub open spec fn record_of(receiver: nat, s: ShareView) -> RecordView {
    RecordView { receiver, sender: s.from, content: s.content }
}

/// What `receiver` does with the bytes of one receive.
pub open spec fn step_of_chunk(receiver: nat, chunk: Seq<u8>) -> StepView {
    if chunk.len() == 0 {
        StepView::Close
    } else {
        match decode_spec(chunk) {
            Ok(s) => StepView::Deliver(record_of(receiver, s)),
            Err(_) => StepView::Ignore,
        }
    }
}

/// What `receiver` does after a receive into `buf`.
pub open spec fn step_of_read(receiver: nat, buf: Seq<u8>, outcome: ReadOutcome) -> StepView {
    match outcome {
        ReadOutcome::Received(n) => step_of_chunk(receiver, buf.subrange(0, n as int)),
        ReadOutcome::Failed => StepView::Close,
    }
}

impl ReceiveRecord {
    /// The log line of this record.
    pub fn line(&self) -> (r: String)
        ensures
            r@ == receive_text(self@.receiver, self@.sender, self@.content),
    {
        receive_line(self.receiver, self.sender, self.content.as_str())
    }
}

/// Decides on one chunk that arrived: an empty chunk closes the handler, a
/// chunk that is exactly one share is delivered, any other chunk is dropped.
pub fn on_chunk(node_id: usize, chunk: &[u8]) -> (r: HandlerStep)
    ensures
        r@ == step_of_chunk(node_id as nat, chunk@),
{
    if chunk.len() == 0 {
        return HandlerStep::Close;
    }
    match decode(chunk) {
        Ok(share) => HandlerStep::Deliver(
            ReceiveRecord { receiver: node_id, sender: share.from, content: share.content },
        ),
        Err(_) => HandlerStep::Ignore,
    }
}

/// Decides after one receive into `buf`. A receive never reports more bytes
/// than the buffer holds.
pub fn on_read(node_id: usize, buf: &[u8], outcome: ReadOutcome) -> (r: HandlerStep)
    requires
        outcome matches ReadOutcome::Received(n) ==> n <= buf@.len(),
    ensures
        r@ == step_of_read(node_id as nat, buf@, outcome),
{
    match outcome {
        ReadOutcome::Received(n) => on_chunk(node_id, slice_subrange(buf, 0, n)),
        ReadOutcome::Failed => HandlerStep::Close,
    }
}

/// A chunk that decodes to a share is delivered with that share's sender
/// and content, whoever receives it and however often it arrives: the
/// handler keeps nothing between chunks.
pub proof fn lemma_chunk_delivers(receiver: nat, chunk: Seq<u8>, s: ShareView)
    requires
        chunk.len() > 0,
        decode_spec(chunk) == Ok::<ShareView, crate::codec::DecodeError>(s),
    ensures
        step_of_chunk(receiver, chunk) == StepView::Deliver(record_of(receiver, s)),
{
}

} // verus!
