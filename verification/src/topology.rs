//! Who talks to whom: the addresses of a mesh and each node's peers.

use crate::text::{decimal, push_decimal};
use vstd::prelude::*;
use vstd::string::StringExecFns;

verus! {

/// Where a node listens: an IPv4 host and a port.
#[derive(Debug, Clone, Copy, PartialEq, Eq, Hash)]
pub struct NodeAddr {
    pub host: [u8; 4],
    pub port: u16,
}

/// The usual text of an address, such as `127.0.0.1:8000`.
pub open spec fn addr_text(a: NodeAddr) -> Seq<char> {
    decimal(a.host[0] as nat) + "."@ + decimal(a.host[1] as nat) + "."@ + decimal(
        a.host[2] as nat,
    ) + "."@ + decimal(a.host[3] as nat) + ":"@ + decimal(a.port as nat)
}

/// The addresses of a mesh of `count` nodes on one host: node `i` listens on
/// port `base_port + i`.
pub open spec fn mesh(host: [u8; 4], base_port: u16, count: nat) -> Seq<NodeAddr> {
    Seq::new(count, |i: int| NodeAddr { host, port: (base_port + i) as u16 })
}

/// The peers of node `id`: every address but its own, in order. An `id`
/// that names no node leaves nothing out.
pub open spec fn peers_of(addrs: Seq<NodeAddr>, id: int) -> Seq<NodeAddr> {
    if 0 <= id < addrs.len() {
        addrs.remove(id)
    } else {
        addrs
    }
}

impl NodeAddr {
    /// Appends the text of this address to `out`.
    pub fn push_text(&self, out: &mut String)
        ensures
            final(out)@ == old(out)@ + addr_text(*self),
    {
        push_decimal(out, self.host[0] as u64);
        out.append(".");
        push_decimal(out, self.host[1] as u64);
        out.append(".");
        push_decimal(out, self.host[2] as u64);
        out.append(".");
        push_decimal(out, self.host[3] as u64);
        out.append(":");
        push_decimal(out, self.port as u64);
        assert(out@ =~= old(out)@ + addr_text(*self));
    }

    /// The text of this address.
    pub fn render(&self) -> (r: String)
        ensures
            r@ == addr_text(*self),
    {
        let mut out = String::new();
        self.push_text(&mut out);
        assert(out@ =~= addr_text(*self));
        out
    }
}

/// Builds the addresses of a mesh. The last port must exist.
pub fn mesh_addresses(host: [u8; 4], base_port: u16, count: usize) -> (r: Vec<NodeAddr>)
    requires
        count == 0 || base_port + count - 1 <= u16::MAX,
    ensures
        r@ == mesh(host, base_port, count as nat),
{
    let mut out: Vec<NodeAddr> = Vec::new();
    let mut i: usize = 0;
    while i < count
        invariant
            i <= count,
            count == 0 || base_port + count - 1 <= u16::MAX,
            out@ == mesh(host, base_port, i as nat),
        decreases count - i,
    {
        let port: u16 = base_port + i as u16;
        out.push(NodeAddr { host, port });
        i = i + 1;
        assert(out@ =~= mesh(host, base_port, i as nat));
    }
    out
}

/// Builds the peer set of node `node_id`.
pub fn peer_set(addrs: &Vec<NodeAddr>, node_id: usize) -> (r: Vec<NodeAddr>)
    ensures
        r@ == peers_of(addrs@, node_id as int),
{
    let mut out: Vec<NodeAddr> = Vec::new();
    let mut i: usize = 0;
    while i < addrs.len()
        invariant
            i <= addrs.len(),
            out@ == peers_of(addrs@.take(i as int), node_id as int),
        decreases addrs.len() - i,
    {
        if i != node_id {
            out.push(addrs[i]);
        }
        assert(addrs@.take(i + 1) =~= addrs@.take(i as int).push(addrs@[i as int]));
        i = i + 1;
        assert(out@ =~= peers_of(addrs@.take(i as int), node_id as int));
    }
    assert(addrs@.take(i as int) =~= addrs@);
    out
}

/// In a mesh whose addresses are distinct, a node has every other node as a
/// peer and not itself, so one node fewer than the mesh; and whenever `j` is
/// a peer of `i`, `i` is a peer of `j`.
pub proof fn lemma_full_mesh(addrs: Seq<NodeAddr>, i: int, j: int)
    requires
        addrs.no_duplicates(),
        0 <= i < addrs.len(),
        0 <= j < addrs.len(),
    ensures
        peers_of(addrs, i).len() == addrs.len() - 1,
        !peers_of(addrs, i).contains(addrs[i]),
        i != j ==> peers_of(addrs, i).contains(addrs[j]),
        peers_of(addrs, i).contains(addrs[j]) <==> peers_of(addrs, j).contains(addrs[i]),
{
    lemma_peers(addrs, i, j);
    lemma_peers(addrs, j, i);
    lemma_peers(addrs, i, i);
}

/// Address `j` is among the peers of `i` exactly when `j` is another node.
proof fn lemma_peers(addrs: Seq<NodeAddr>, i: int, j: int)
    requires
        addrs.no_duplicates(),
        0 <= i < addrs.len(),
        0 <= j < addrs.len(),
    ensures
        peers_of(addrs, i).len() == addrs.len() - 1,
        peers_of(addrs, i).contains(addrs[j]) <==> i != j,
{
    let p = peers_of(addrs, i);
    if i != j {
        let k = if j < i { j } else { j - 1 };
        assert(p[k] == addrs[j]);
    } else {
        assert forall|k: int| 0 <= k < p.len() implies p[k] != addrs[i] by {
            let m = if k < i { k } else { k + 1 };
            assert(p[k] == addrs[m]);
        }
    }
}

/// The addresses of a mesh are distinct, as long as its last port exists.
pub proof fn lemma_mesh_distinct(host: [u8; 4], base_port: u16, count: nat)
    requires
        count == 0 || base_port + count - 1 <= u16::MAX,
    ensures
        mesh(host, base_port, count).no_duplicates(),
        mesh(host, base_port, count).len() == count,
{
    let m = mesh(host, base_port, count);
    assert forall|a: int, b: int| 0 <= a < m.len() && 0 <= b < m.len() && a != b implies m[a]
        != m[b] by {
        assert(m[a].port == base_port + a);
        assert(m[b].port == base_port + b);
    }
}

/// A mesh built on one host is full: node `i` has all the other nodes as
/// peers and not itself, and node `j` is its peer exactly when it is a peer
/// of node `j`.
pub proof fn lemma_mesh_is_full(host: [u8; 4], base_port: u16, count: nat, i: int, j: int)
    requires
        count == 0 || base_port + count - 1 <= u16::MAX,
        0 <= i < count,
        0 <= j < count,
    ensures
        peers_of(mesh(host, base_port, count), i).len() == count - 1,
        !peers_of(mesh(host, base_port, count), i).contains(mesh(host, base_port, count)[i]),
        i != j ==> peers_of(mesh(host, base_port, count), i).contains(
            mesh(host, base_port, count)[j],
        ),
        peers_of(mesh(host, base_port, count), i).contains(mesh(host, base_port, count)[j])
            <==> peers_of(mesh(host, base_port, count), j).contains(
            mesh(host, base_port, count)[i],
        ),
{
    lemma_mesh_distinct(host, base_port, count);
    lemma_full_mesh(mesh(host, base_port, count), i, j);
}

} // verus!
