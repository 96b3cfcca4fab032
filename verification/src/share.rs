//! The message that nodes exchange.

use crate::text::{decimal, push_decimal};
use vstd::prelude::*;
use vstd::string::StringExecFns;

verus! {

/// One broadcast message: who sent it, a short text, and the second (since
/// the epoch) at which it was built. A share refers to no other share.
#[derive(Debug, PartialEq, Eq)]
pub struct Share {
    pub from: usize,
    pub content: String,
    pub timestamp: u64,
}

/// A share as plain mathematical values.
pub struct ShareView {
    pub from: nat,
    pub content: Seq<char>,
    pub timestamp: nat,
}

impl View for Share {
    type V = ShareView;

    open spec fn view(&self) -> ShareView {
        ShareView {
            from: self.from as nat,
            content: self.content@,
            timestamp: self.timestamp as nat,
        }
    }
}

/// The text that node `id` puts into every share it builds.
pub open spec fn content_of(id: nat) -> Seq<char> {
    "Share from Node "@ + decimal(id)
}

/// The share that node `id` builds at second `now`.
pub open spec fn fresh_share(id: nat, now: nat) -> ShareView {
    ShareView { from: id, content: content_of(id), timestamp: now }
}

/// Builds the content text of node `node_id`.
pub fn share_content(node_id: usize) -> (r: String)
    ensures
        r@ == content_of(node_id as nat),
{
    let mut out = String::from_str("Share from Node ");
    push_decimal(&mut out, node_id as u64);
    out
}

impl Share {
    /// The share of one broadcast round: sent by `node_id`, built at second
    /// `now`, with that node's content text.
    pub fn new(node_id: usize, now: u64) -> (r: Share)
        ensures
            r@ == fresh_share(node_id as nat, now as nat),
    {
        Share { from: node_id, content: share_content(node_id), timestamp: now }
    }
}

impl Clone for Share {
    fn clone(&self) -> (r: Share)
        ensures
            r@ == self@,
    {
        Share { from: self.from, content: self.content.clone(), timestamp: self.timestamp }
    }
}

} // verus!
