//! A chain-replicated key-value node.
//!
//! A chain is an ordered sequence of nodes, each holding a full copy of the
//! data.  A write accepted by a node is persisted locally, forwarded to the
//! node's successor, and acknowledged backward through its predecessor once
//! the tail has confirmed durability.  This crate holds the coordinator for
//! one node: the local store model, the tracker of outstanding writes, the
//! peer-connection cache, and the write/acknowledgment protocols, each with a
//! verified contract.  The network transport and the durable storage engine
//! are outside collaborators: their outcomes enter the protocol functions as
//! plain verdict values, and the contracts state what holds for every verdict.

pub mod database;
pub mod laws;
pub mod messages;
pub mod node_config;
pub mod peer;
pub mod protocol;
pub mod query_node;
pub mod replication_node;

pub use database::Database;
pub use messages::Messages;
pub use node_config::NodeConfig;
pub use peer::PeerSlot;
pub use peer::Route;
pub use protocol::RpcError;
pub use protocol::SendVerdict;
pub use protocol::StoreVerdict;
pub use protocol::UpdateReply;
pub use query_node::QueryNode;
pub use query_node::QueryReply;
pub use replication_node::ReplicationNode;
