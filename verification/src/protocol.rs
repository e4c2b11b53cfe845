use vstd::prelude::*;

verus! {

use crate::peer::PeerSlotView;

/// Failure conditions surfaced to the immediate caller of a node operation.
#[derive(Clone, Copy, Debug, PartialEq, Eq, Structural)]
pub enum RpcError {
    /// An empty key, value or identifier on a caller-facing call, rejected
    /// before any side effect.
    InvalidArgument,
    /// A query for a key never written: an expected outcome, distinct from
    /// an internal error.
    NotFound,
    /// A local storage failure or an unreachable peer.
    Internal,
}

/// What the durable storage engine reported for a local persist.
#[derive(Clone, Copy, Debug, PartialEq, Eq, Structural)]
pub enum StoreVerdict {
    /// The pair is durable locally.
    Persisted,
    /// The engine failed; nothing was persisted.
    Failed,
}

/// What the transport reported for one call to a neighbor.  Connection
/// establishment and the call itself collapse into one verdict, since both
/// failures surface to the caller alike as an unreachable peer.
#[derive(Clone, Copy, Debug, PartialEq, Eq, Structural)]
pub enum SendVerdict {
    /// The neighbor received the call.
    Delivered,
    /// The neighbor could not be reached; nothing is known to have arrived.
    Unreachable,
}

/// Reply to an accepted write or acknowledgment, echoing its identifier.
#[derive(Clone, Debug, PartialEq, Eq)]
pub struct UpdateReply {
    pub id: String,
    /// True exactly when this node accepted the write as the tail of the
    /// chain.  The tail is where durability is first confirmed with no
    /// further forwarding, so the caller must emit the acknowledgment that
    /// starts the backward wave, once per accepted write.
    pub originate_ack: bool,
}

/// Abstract value of an [`UpdateReply`].
pub struct UpdateReplyView {
    pub id: Seq<char>,
    pub originate_ack: bool,
}

impl View for UpdateReply {
    type V = UpdateReplyView;

    open spec fn view(&self) -> UpdateReplyView {
        UpdateReplyView { id: self.id@, originate_ack: self.originate_ack }
    }
}

/// Abstract state of one chain node: its store, the two tracker sets, and
/// the two peer-connection slots.
#[verifier::ext_equal]
pub struct NodeView {
    pub store: Map<Seq<u8>, Seq<u8>>,
    pub sent: Set<Seq<char>>,
    pub pending: Set<Seq<char>>,
    pub next: PeerSlotView,
    pub prev: PeerSlotView,
}

/// State and result of one protocol step.
#[verifier::ext_equal]
pub struct UpdateStep {
    pub node: NodeView,
    pub result: Result<UpdateReplyView, RpcError>,
}

/// Whether a write's arguments are acceptable: both key and value non-empty.
pub open spec fn update_args_ok(key: Seq<u8>, value: Seq<u8>) -> bool {
    key.len() > 0 && value.len() > 0
}

/// Forwarding a write downstream.  At the tail nothing is forwarded and
/// nothing changes.  Otherwise, a delivered forward marks the identifier
/// sent and pending and caches the successor connection; an unreachable
/// successor leaves the tracker unchanged, invalidates the connection, and
/// is an internal error.
pub open spec fn spec_replicate(n: NodeView, id: Seq<char>, delivered: bool) -> (NodeView, Result<
    (),
    RpcError,
>) {
    if n.next.addr is None {
        (n, Ok(()))
    } else if delivered {
        (
            NodeView {
                sent: n.sent.insert(id),
                pending: n.pending.insert(id),
                next: PeerSlotView { connected: true, ..n.next },
                ..n
            },
            Ok(()),
        )
    } else {
        (NodeView { next: PeerSlotView { connected: false, ..n.next }, ..n }, Err(
            RpcError::Internal,
        ))
    }
}

/// Propagating an acknowledgment backward.  The identifier is retired from
/// the pending set first, unconditionally and idempotently.  At the head the
/// wave terminates.  Otherwise the acknowledgment is forwarded to the
/// predecessor: delivery caches that connection; an unreachable predecessor
/// invalidates it and is an internal error, but the local retirement stands.
pub open spec fn spec_ack(n: NodeView, id: Seq<char>, delivered: bool) -> (NodeView, Result<
    (),
    RpcError,
>) {
    let retired = NodeView { pending: n.pending.remove(id), ..n };
    if n.prev.addr is None {
        (retired, Ok(()))
    } else if delivered {
        (NodeView { prev: PeerSlotView { connected: true, ..n.prev }, ..retired }, Ok(()))
    } else {
        (NodeView { prev: PeerSlotView { connected: false, ..n.prev }, ..retired }, Err(
            RpcError::Internal,
        ))
    }
}

/// The whole write protocol: reject empty arguments before any side effect;
/// stop on a storage failure; persist, then forward.  A tail node completes
/// with no forwarding and no tracker change and originates the
/// acknowledgment wave.  A forward failure keeps the local persist: the
/// write is durable here but not confirmed further, and the caller is told
/// by an internal error.
pub open spec fn spec_update(
    n: NodeView,
    id: Seq<char>,
    key: Seq<u8>,
    value: Seq<u8>,
    persisted: bool,
    delivered: bool,
) -> UpdateStep {
    if !update_args_ok(key, value) {
        UpdateStep { node: n, result: Err(RpcError::InvalidArgument) }
    } else if !persisted {
        UpdateStep { node: n, result: Err(RpcError::Internal) }
    } else {
        let stored = NodeView { store: n.store.insert(key, value), ..n };
        if n.next.addr is None {
            UpdateStep { node: stored, result: Ok(UpdateReplyView { id, originate_ack: true }) }
        } else {
            let step = spec_replicate(stored, id, delivered);
            match step.1 {
                Ok(()) => UpdateStep {
                    node: step.0,
                    result: Ok(UpdateReplyView { id, originate_ack: false }),
                },
                Err(e) => UpdateStep { node: step.0, result: Err(e) },
            }
        }
    }
}

/// The whole acknowledgment protocol: reject an empty identifier before any
/// side effect, then retire and propagate as [`spec_ack`] says.
pub open spec fn spec_handle_ack(n: NodeView, id: Seq<char>, delivered: bool) -> UpdateStep {
    if id.len() == 0 {
        UpdateStep { node: n, result: Err(RpcError::InvalidArgument) }
    } else {
        let step = spec_ack(n, id, delivered);
        match step.1 {
            Ok(()) => UpdateStep {
                node: step.0,
                result: Ok(UpdateReplyView { id, originate_ack: false }),
            },
            Err(e) => UpdateStep { node: step.0, result: Err(e) },
        }
    }
}

/// Whether the executable reply `r` denotes the abstract result `v`.
pub open spec fn reply_matches(r: Result<UpdateReply, RpcError>, v: Result<
    UpdateReplyView,
    RpcError,
>) -> bool {
    match r {
        Ok(rep) => v is Ok && rep@ == v->Ok_0,
        Err(e) => v is Err && e == v->Err_0,
    }
}

} // verus!
