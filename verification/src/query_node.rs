use vstd::prelude::*;

verus! {

use crate::database::Database;
use crate::protocol::RpcError;

/// Reply to a successful query: the request identifier, the key asked for,
/// and the value stored for it.
#[derive(Clone, Debug, PartialEq, Eq)]
pub struct QueryReply {
    pub id: String,
    pub key: Vec<u8>,
    pub value: Vec<u8>,
}

/// Abstract value of a [`QueryReply`].
pub struct QueryReplyView {
    pub id: Seq<char>,
    pub key: Seq<u8>,
    pub value: Seq<u8>,
}

impl View for QueryReply {
    type V = QueryReplyView;

    open spec fn view(&self) -> QueryReplyView {
        QueryReplyView { id: self.id@, key: self.key@, value: self.value@ }
    }
}

/// The query protocol: an empty key is rejected, a stored key answers with
/// its value, and a key never written is a not-found condition, distinct
/// from an internal error.
pub open spec fn spec_query(store: Map<Seq<u8>, Seq<u8>>, id: Seq<char>, key: Seq<u8>) -> Result<
    QueryReplyView,
    RpcError,
> {
    if key.len() == 0 {
        Err(RpcError::InvalidArgument)
    } else if store.contains_key(key) {
        Ok(QueryReplyView { id, key, value: store[key] })
    } else {
        Err(RpcError::NotFound)
    }
}

/// Whether the executable reply `r` denotes the abstract result `v`.
pub open spec fn query_reply_matches(r: Result<QueryReply, RpcError>, v: Result<
    QueryReplyView,
    RpcError,
>) -> bool {
    match r {
        Ok(rep) => v is Ok && rep@ == v->Ok_0,
        Err(e) => v is Err && e == v->Err_0,
    }
}

/// The read-only query path over a node's local store.
pub struct QueryNode {
    pub node: Database,
}

impl QueryNode {
    /// Answer a lookup as [`spec_query`] says.
    pub fn get(&self, id: String, key: Vec<u8>) -> (r: Result<QueryReply, RpcError>)
        ensures
            query_reply_matches(r, spec_query(self.node@, id@, key@)),
    {
        if key.len() == 0 {
            return Err(RpcError::InvalidArgument);
        }
        match self.node.query(&key) {
            Some(value) => Ok(QueryReply { id, key, value }),
            None => Err(RpcError::NotFound),
        }
    }
}

} // verus!
