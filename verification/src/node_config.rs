use vstd::prelude::*;

verus! {

/// Static chain topology and bootstrap settings for one node.
///
/// A node with no successor address is the tail of the chain; a node with no
/// predecessor address is the head.  Both may be absent only for a
/// single-node chain.
#[derive(Clone, Debug)]
pub struct NodeConfig {
    /// Address of the successor node, absent at the tail.
    pub next_addr: Option<String>,
    /// Address of the predecessor node, absent at the head.
    pub prev_addr: Option<String>,
    /// Address this node's own endpoint binds to.
    pub bind_addr: String,
    /// Location of the durable store; consumed by the storage engine outside
    /// this crate.
    pub db_path: String,
}

} // verus!
