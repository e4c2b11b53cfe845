use vstd::prelude::*;

verus! {

use crate::protocol::NodeView;
use crate::protocol::RpcError;
use crate::protocol::spec_ack;
use crate::protocol::spec_handle_ack;
use crate::protocol::spec_update;
use crate::protocol::update_args_ok;
use crate::query_node::QueryReplyView;
use crate::query_node::spec_query;

/// An accepted write is readable: whenever the write protocol answers
/// success, the submitted value is stored under the submitted key, and a
/// query for that key answers with exactly that value.
pub proof fn lemma_accepted_write_is_readable(
    n: NodeView,
    id: Seq<char>,
    qid: Seq<char>,
    key: Seq<u8>,
    value: Seq<u8>,
    persisted: bool,
    delivered: bool,
)
    ensures
        ({
            let step = spec_update(n, id, key, value, persisted, delivered);
            step.result is Ok ==> step.node.store.contains_key(key) && step.node.store[key]
                == value && spec_query(step.node.store, qid, key) == Ok::<
                QueryReplyView,
                RpcError,
            >(QueryReplyView { id: qid, key, value })
        }),
{
}

/// A forwarded write is tracked: when a node with a successor accepts a
/// write and the forward is delivered, the reply is success and the write's
/// identifier is in both the sent and the pending set of the forwarding
/// node.
pub proof fn lemma_forwarded_write_tracked(n: NodeView, id: Seq<char>, key: Seq<u8>, value: Seq<
    u8,
>)
    requires
        update_args_ok(key, value),
        n.next.addr is Some,
    ensures
        ({
            let step = spec_update(n, id, key, value, true, true);
            step.result is Ok && step.node.sent.contains(id) && step.node.pending.contains(id)
        }),
{
}

/// A tracked identifier stays pending until a matching acknowledgment:
/// writes with any arguments and acknowledgments for a different identifier
/// never retire it.
pub proof fn lemma_pending_until_matching_ack(
    n: NodeView,
    id: Seq<char>,
    other_id: Seq<char>,
    key: Seq<u8>,
    value: Seq<u8>,
    persisted: bool,
    delivered: bool,
)
    requires
        n.pending.contains(id),
        other_id != id,
    ensures
        spec_update(n, other_id, key, value, persisted, delivered).node.pending.contains(id),
        spec_ack(n, other_id, delivered).0.pending.contains(id),
        spec_handle_ack(n, other_id, delivered).node.pending.contains(id),
{
}

/// Acknowledgment is idempotent: retiring the same identifier a second time
/// under the same transport verdict leaves the node state exactly as after
/// the first call and reports the same outcome, so a duplicate never errors
/// merely for being a duplicate.
pub proof fn lemma_ack_idempotent(n: NodeView, id: Seq<char>, delivered: bool)
    ensures
        ({
            let once = spec_ack(n, id, delivered);
            let twice = spec_ack(once.0, id, delivered);
            twice.0 == once.0 && twice.1 == once.1
        }),
{
    assert(n.pending.remove(id).remove(id) =~= n.pending.remove(id));
    let once = spec_ack(n, id, delivered);
    let twice = spec_ack(once.0, id, delivered);
    assert(twice.0 =~= once.0);
}

/// The caller-facing acknowledgment handler is idempotent in the same way,
/// including its validation of the identifier.
pub proof fn lemma_handle_ack_idempotent(n: NodeView, id: Seq<char>, delivered: bool)
    ensures
        ({
            let once = spec_handle_ack(n, id, delivered);
            let twice = spec_handle_ack(once.node, id, delivered);
            twice.node == once.node && twice.result == once.result
        }),
{
    if id.len() > 0 {
        lemma_ack_idempotent(n, id, delivered);
    }
}

/// A single write at a node with no successor involves no network at all:
/// the outcome does not depend on any transport verdict, the tracker and
/// both connection slots are untouched, and the write either persists and
/// succeeds or fails with the storage engine's error.
pub proof fn lemma_single_node_update_is_local(
    n: NodeView,
    id: Seq<char>,
    key: Seq<u8>,
    value: Seq<u8>,
    persisted: bool,
    d1: bool,
    d2: bool,
)
    requires
        n.next.addr is None,
    ensures
        spec_update(n, id, key, value, persisted, d1) == spec_update(n, id, key, value, persisted, d2),
        ({
            let step = spec_update(n, id, key, value, persisted, d1);
            &&& (step.result is Ok <==> update_args_ok(key, value) && persisted)
            &&& (update_args_ok(key, value) && !persisted ==> step.result == Err::<
                crate::protocol::UpdateReplyView,
                RpcError,
            >(RpcError::Internal))
            &&& (!update_args_ok(key, value) ==> step.result == Err::<
                crate::protocol::UpdateReplyView,
                RpcError,
            >(RpcError::InvalidArgument))
            &&& step.node.sent == n.sent
            &&& step.node.pending == n.pending
            &&& step.node.next == n.next
            &&& step.node.prev == n.prev
        }),
{
}

/// A tail node never leaves an accepted write pending: a write at a node
/// with no successor keeps the pending set exactly as it was, so an
/// identifier not pending before is not pending after the handler either.
pub proof fn lemma_tail_leaves_nothing_pending(
    n: NodeView,
    id: Seq<char>,
    key: Seq<u8>,
    value: Seq<u8>,
    persisted: bool,
    delivered: bool,
)
    requires
        n.next.addr is None,
    ensures
        spec_update(n, id, key, value, persisted, delivered).node.pending == n.pending,
        !n.pending.contains(id) ==> !spec_update(
            n,
            id,
            key,
            value,
            persisted,
            delivered,
        ).node.pending.contains(id),
{
}

/// Every pending identifier was forwarded at some point: a node whose
/// pending set is contained in its sent set keeps that containment across
/// every write and acknowledgment step, since forwarding records an
/// identifier in both sets and acknowledgment only removes from pending.
pub proof fn lemma_pending_within_sent_preserved(
    n: NodeView,
    id: Seq<char>,
    key: Seq<u8>,
    value: Seq<u8>,
    persisted: bool,
    delivered: bool,
)
    requires
        n.pending.subset_of(n.sent),
    ensures
        ({
            let after = spec_update(n, id, key, value, persisted, delivered).node;
            after.pending.subset_of(after.sent)
        }),
        ({
            let after = spec_ack(n, id, delivered).0;
            after.pending.subset_of(after.sent)
        }),
        ({
            let after = spec_handle_ack(n, id, delivered).node;
            after.pending.subset_of(after.sent)
        }),
{
}

/// A write that persisted locally but could not reach its successor is
/// still durable at this node: the caller sees an internal error, the store
/// holds the pair, the tracker is unchanged, and the successor connection
/// is invalidated so the next attempt re-establishes.
pub proof fn lemma_failed_forward_is_durable_locally(
    n: NodeView,
    id: Seq<char>,
    key: Seq<u8>,
    value: Seq<u8>,
)
    requires
        update_args_ok(key, value),
        n.next.addr is Some,
    ensures
        ({
            let step = spec_update(n, id, key, value, true, false);
            &&& step.result == Err::<crate::protocol::UpdateReplyView, RpcError>(
                RpcError::Internal,
            )
            &&& step.node.store == n.store.insert(key, value)
            &&& step.node.sent == n.sent
            &&& step.node.pending == n.pending
            &&& !step.node.next.connected
        }),
{
}

} // verus!
