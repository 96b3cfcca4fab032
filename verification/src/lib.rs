//! A full-mesh broadcast simulation, reduced to its decisions.
//!
//! Every node of the mesh periodically builds one [`share::Share`], encodes it
//! and sends it to each of its peers; every node also decodes whatever its
//! peers send. The functions here compute what a node does next from what
//! just happened to it. Sockets, timers and task spawning are left to the
//! caller.

pub mod broadcast;
pub mod codec;
pub mod inbound;
pub mod json;
pub mod log;
pub mod node;
pub mod share;
pub mod text;
pub mod topology;
