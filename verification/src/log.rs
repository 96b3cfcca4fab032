//! The lines that a node writes to its log.

use crate::text::{decimal, push_decimal};
use crate::topology::{addr_text, NodeAddr};
use vstd::prelude::*;
use vstd::string::StringExecFns;

verus! {

/// The line for a share that arrived.
pub open spec fn receive_text(receiver: nat, sender: nat, content: Seq<char>) -> Seq<char> {
    "Node "@ + decimal(receiver) + " received share from Node "@ + decimal(sender) + ": "@
        + content
}

/// The line for a node that has bound its address.
pub open spec fn listening_text(node: nat, addr: NodeAddr) -> Seq<char> {
    "Node "@ + decimal(node) + " listening on "@ + addr_text(addr)
}

/// The line for a peer that could not be reached.
pub open spec fn connect_failure_text(node: nat, target: NodeAddr, error: Seq<char>) -> Seq<char> {
    "Node "@ + decimal(node) + " failed to connect to "@ + addr_text(target) + ": "@ + error
}

/// The line for a share that could not be written to a peer.
pub open spec fn write_failure_text(node: nat, target: NodeAddr, error: Seq<char>) -> Seq<char> {
    "Node "@ + decimal(node) + " failed to write to "@ + addr_text(target) + ": "@ + error
}

/// Writes the line for a share that arrived.
pub fn receive_line(receiver: usize, sender: usize, content: &str) -> (r: String)
    ensures
        r@ == receive_text(receiver as nat, sender as nat, content@),
{
    let mut out = String::from_str("Node ");
    push_decimal(&mut out, receiver as u64);
    out.append(" received share from Node ");
    push_decimal(&mut out, sender as u64);
    out.append(": ");
    out.append(content);
    assert(out@ =~= receive_text(receiver as nat, sender as nat, content@));
    out
}

/// Writes the line for a node that has bound its address.
pub fn listening_line(node: usize, addr: &NodeAddr) -> (r: String)
    ensures
        r@ == listening_text(node as nat, *addr),
{
    let mut out = String::from_str("Node ");
    push_decimal(&mut out, node as u64);
    out.append(" listening on ");
    addr.push_text(&mut out);
    assert(out@ =~= listening_text(node as nat, *addr));
    out
}

/// Writes the line for a peer that could not be reached.
pub fn connect_failure_line(node: usize, target: &NodeAddr, error: &str) -> (r: String)
    ensures
        r@ == connect_failure_text(node as nat, *target, error@),
{
    let mut out = String::from_str("Node ");
    push_decimal(&mut out, node as u64);
    out.append(" failed to connect to ");
    target.push_text(&mut out);
    out.append(": ");
    out.append(error);
    assert(out@ =~= connect_failure_text(node as nat, *target, error@));
    out
}

/// Writes the line for a share that could not be written to a peer.
pub fn write_failure_line(node: usize, target: &NodeAddr, error: &str) -> (r: String)
    ensures
        r@ == write_failure_text(node as nat, *target, error@),
{
    let mut out = String::from_str("Node ");
    push_decimal(&mut out, node as u64);
    out.append(" failed to write to ");
    target.push_text(&mut out);
    out.append(": ");
    out.append(error);
    assert(out@ =~= write_failure_text(node as nat, *target, error@));
    out
}

} // verus!
