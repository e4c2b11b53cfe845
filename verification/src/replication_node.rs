use vstd::prelude::*;

verus! {

use crate::database::Database;
use crate::messages::Messages;
use crate::node_config::NodeConfig;
use crate::peer::PeerSlot;
use crate::peer::PeerSlotView;
use crate::peer::Route;
use crate::peer::spec_route;
use crate::protocol::NodeView;
use crate::protocol::RpcError;
use crate::protocol::SendVerdict;
use crate::protocol::StoreVerdict;
use crate::protocol::UpdateReply;
use crate::protocol::reply_matches;
use crate::protocol::spec_ack;
use crate::protocol::spec_handle_ack;
use crate::protocol::spec_replicate;
use crate::protocol::spec_update;

/// The chain-replication coordinator for one node.
///
/// It owns the local store model, the outstanding-write tracker, and the two
/// peer-connection slots, and implements the write and acknowledgment
/// protocols over them.  The network transport is an outside collaborator:
/// each protocol step takes the transport's verdict as a plain value, and
/// the contracts state the node's next state and reply for every verdict.
pub struct ReplicationNode {
    pub node: Database,
    next: PeerSlot,
    prev: PeerSlot,
    message_base: Messages,
}

impl View for ReplicationNode {
    type V = NodeView;

    closed spec fn view(&self) -> NodeView {
        NodeView {
            store: self.node@,
            sent: self.message_base@.sent,
            pending: self.message_base@.pending,
            next: self.next@,
            prev: self.prev@,
        }
    }
}

impl ReplicationNode {
    /// A coordinator for the chain position in `node_config`, with an empty
    /// tracker and both connection slots cold.
    pub fn default(node_config: NodeConfig, node: Database) -> (r: ReplicationNode)
        ensures
            r@ == (NodeView {
                store: node@,
                sent: Set::<Seq<char>>::empty(),
                pending: Set::<Seq<char>>::empty(),
                next: PeerSlotView { addr: node_config.next_addr.deep_view(), connected: false },
                prev: PeerSlotView { addr: node_config.prev_addr.deep_view(), connected: false },
            }),
    {
        let next = PeerSlot::new(node_config.next_addr);
        let prev = PeerSlot::new(node_config.prev_addr);
        let message_base = Messages::default();
        ReplicationNode { node, next, prev, message_base }
    }

    /// Record the outcome of forwarding the write `id` to the successor,
    /// as [`spec_replicate`] says: nothing at the tail; on delivery the
    /// identifier becomes sent and pending; on failure the tracker is
    /// untouched, the successor connection is invalidated, and the caller
    /// sees an internal error.
    pub fn replicate(&mut self, id: String, transport: SendVerdict) -> (r: Result<(), RpcError>)
        ensures
            ({
                let step = spec_replicate(old(self)@, id@, transport == SendVerdict::Delivered);
                final(self)@ == step.0 && r == step.1
            }),
    {
        match self.next.route() {
            Route::Absent => Ok(()),
            _ => match transport {
                SendVerdict::Delivered => {
                    self.message_base.add_sent(id.clone());
                    self.message_base.add_pending(id);
                    self.next.note_established();
                    Ok(())
                },
                SendVerdict::Unreachable => {
                    self.next.note_failure();
                    Err(RpcError::Internal)
                },
            },
        }
    }

    /// Retire `id` locally, then record the outcome of forwarding the
    /// acknowledgment to the predecessor, as [`spec_ack`] says.  Retirement
    /// comes first, so a failure to reach the predecessor never resurrects
    /// the pending entry.
    pub fn ack(&mut self, id: String, transport: SendVerdict) -> (r: Result<(), RpcError>)
        ensures
            ({
                let step = spec_ack(old(self)@, id@, transport == SendVerdict::Delivered);
                final(self)@ == step.0 && r == step.1
            }),
    {
        self.message_base.remove_pending(id);
        match self.prev.route() {
            Route::Absent => Ok(()),
            _ => match transport {
                SendVerdict::Delivered => {
                    self.prev.note_established();
                    Ok(())
                },
                SendVerdict::Unreachable => {
                    self.prev.note_failure();
                    Err(RpcError::Internal)
                },
            },
        }
    }

    /// The write protocol, as [`spec_update`] says: reject an empty key or
    /// value before any side effect; stop with an internal error when the
    /// store failed; otherwise persist and forward.  On success the reply
    /// echoes the identifier, and `originate_ack` is set exactly when this
    /// node is the tail.
    pub fn update(
        &mut self,
        id: String,
        key: Vec<u8>,
        value: Vec<u8>,
        store: StoreVerdict,
        transport: SendVerdict,
    ) -> (r: Result<UpdateReply, RpcError>)
        ensures
            ({
                let step = spec_update(
                    old(self)@,
                    id@,
                    key@,
                    value@,
                    store == StoreVerdict::Persisted,
                    transport == SendVerdict::Delivered,
                );
                final(self)@ == step.node && reply_matches(r, step.result)
            }),
    {
        if key.len() == 0 || value.len() == 0 {
            return Err(RpcError::InvalidArgument);
        }
        match store {
            StoreVerdict::Failed => Err(RpcError::Internal),
            StoreVerdict::Persisted => {
                let _replaced = self.node.insert(key, value);
                match self.next.route() {
                    Route::Absent => Ok(UpdateReply { id, originate_ack: true }),
                    _ => match self.replicate(id.clone(), transport) {
                        Ok(()) => Ok(UpdateReply { id, originate_ack: false }),
                        Err(e) => Err(e),
                    },
                }
            },
        }
    }

    /// The acknowledgment protocol, as [`spec_handle_ack`] says: reject an
    /// empty identifier, then retire and propagate.  The reply echoes the
    /// identifier.
    pub fn handle_ack(&mut self, id: String, transport: SendVerdict) -> (r: Result<
        UpdateReply,
        RpcError,
    >)
        ensures
            ({
                let step = spec_handle_ack(old(self)@, id@, transport == SendVerdict::Delivered);
                final(self)@ == step.node && reply_matches(r, step.result)
            }),
    {
        if id.as_str().is_empty() {
            return Err(RpcError::InvalidArgument);
        }
        match self.ack(id.clone(), transport) {
            Ok(()) => Ok(UpdateReply { id, originate_ack: false }),
            Err(e) => Err(e),
        }
    }

    /// Whether `id` was ever forwarded by this node.
    pub fn sent_contains(&self, id: &String) -> (r: bool)
        ensures
            r == self@.sent.contains(id@),
    {
        self.message_base.contains_sent(id)
    }

    /// Whether `id` still awaits an acknowledgment through this node.
    pub fn pending_contains(&self, id: &String) -> (r: bool)
        ensures
            r == self@.pending.contains(id@),
    {
        self.message_base.contains_pending(id)
    }

    /// How to reach the successor before forwarding a write.
    pub fn next_route(&self) -> (r: Route)
        ensures
            r == spec_route(self@.next),
    {
        self.next.route()
    }

    /// How to reach the predecessor before forwarding an acknowledgment.
    pub fn prev_route(&self) -> (r: Route)
        ensures
            r == spec_route(self@.prev),
    {
        self.prev.route()
    }

    /// The configured successor address.
    pub fn next_address(&self) -> (a: &Option<String>)
        ensures
            a.deep_view() == self@.next.addr,
    {
        self.next.address()
    }

    /// The configured predecessor address.
    pub fn prev_address(&self) -> (a: &Option<String>)
        ensures
            a.deep_view() == self@.prev.addr,
    {
        self.prev.address()
    }
}

} // verus!
