use vstd::prelude::*;

verus! {

use crate::node_config::NodeConfig;

/// Model of the node's local durable key-value store.
///
/// The store is kept as a log of insertions and read back last-write-wins,
/// so its view is the map from each key to the value most recently written
/// for it.  The durable engine that backs it in a running process lives
/// outside this crate; this type carries the store's point-get/point-insert
/// semantics, which is all the replication protocol relies on.
#[derive(Clone)]
pub struct Database {
    entries: Vec<(Vec<u8>, Vec<u8>)>,
}

/// The value most recently inserted for `key`, if any.
pub open spec fn stored_value(entries: Seq<(Vec<u8>, Vec<u8>)>, key: Seq<u8>) -> Option<Seq<u8>>
    decreases entries.len(),
{
    if entries.len() == 0 {
        None
    } else if entries.last().0@ == key {
        Some(entries.last().1@)
    } else {
        stored_value(entries.drop_last(), key)
    }
}

impl View for Database {
    type V = Map<Seq<u8>, Seq<u8>>;

    closed spec fn view(&self) -> Map<Seq<u8>, Seq<u8>> {
        Map::new(
            |key: Seq<u8>| stored_value(self.entries@, key) is Some,
            |key: Seq<u8>| stored_value(self.entries@, key)->0,
        )
    }
}

/// Byte-wise equality of two byte vectors.
fn bytes_eq(a: &Vec<u8>, b: &Vec<u8>) -> (r: bool)
    ensures
        r == (a@ == b@),
{
    if a.len() != b.len() {
        return false;
    }
    let mut i: usize = 0;
    while i < a.len()
        invariant
            i <= a.len(),
            a.len() == b.len(),
            forall|j: int| 0 <= j < i ==> a@[j] == b@[j],
        decreases a.len() - i,
    {
        if a[i] != b[i] {
            return false;
        }
        i = i + 1;
    }
    proof {
        assert(a@ =~= b@);
    }
    true
}

/// An owned copy of a byte vector.
fn clone_bytes(v: &Vec<u8>) -> (r: Vec<u8>)
    ensures
        r@ == v@,
{
    let mut out: Vec<u8> = Vec::new();
    let mut i: usize = 0;
    while i < v.len()
        invariant
            i <= v.len(),
            out@ == v@.take(i as int),
        decreases v.len() - i,
    {
        let byte = v[i];
        out.push(byte);
        proof {
            assert(out@ =~= v@.take(i + 1));
        }
        i = i + 1;
    }
    proof {
        assert(v@.take(v.len() as int) =~= v@);
    }
    out
}

impl Database {
    /// A fresh, empty store.  The configured path concerns only the durable
    /// engine outside this crate, so the model does not read it.
    pub fn default(_node_config: NodeConfig) -> (db: Database)
        ensures
            db@ == Map::<Seq<u8>, Seq<u8>>::empty(),
    {
        let db = Database { entries: Vec::new() };
        proof {
            assert(db@ =~= Map::<Seq<u8>, Seq<u8>>::empty());
        }
        db
    }

    /// The value stored for `key`, if any.
    pub fn query(&self, key: &Vec<u8>) -> (r: Option<Vec<u8>>)
        ensures
            r is Some <==> self@.contains_key(key@),
            r matches Some(v) ==> v@ == self@[key@],
    {
        let mut i: usize = self.entries.len();
        proof {
            assert(self.entries@.take(i as int) =~= self.entries@);
        }
        while i > 0
            invariant
                i <= self.entries.len(),
                stored_value(self.entries@, key@) == stored_value(
                    self.entries@.take(i as int),
                    key@,
                ),
            decreases i,
        {
            i = i - 1;
            proof {
                assert(self.entries@.take(i + 1).last() == self.entries@[i as int]);
                assert(self.entries@.take(i + 1).drop_last() =~= self.entries@.take(i as int));
            }
            if bytes_eq(&self.entries[i].0, key) {
                return Some(clone_bytes(&self.entries[i].1));
            }
        }
        None
    }

    /// Record `key |-> value`, replacing any earlier value for the key, and
    /// report the value it replaced.
    pub fn insert(&mut self, key: Vec<u8>, value: Vec<u8>) -> (prev: Option<Vec<u8>>)
        ensures
            final(self)@ == old(self)@.insert(key@, value@),
            prev is Some <==> old(self)@.contains_key(key@),
            prev matches Some(p) ==> p@ == old(self)@[key@],
    {
        let ghost gkey: Seq<u8> = key@;
        let ghost gvalue: Seq<u8> = value@;
        let prev = self.query(&key);
        self.entries.push((key, value));
        proof {
            let post = self.entries@;
            assert(post.last().0@ == gkey);
            assert(post.drop_last() =~= old(self).entries@);
            assert forall|k: Seq<u8>| true implies stored_value(post, k) == (if k == gkey {
                Some(gvalue)
            } else {
                stored_value(old(self).entries@, k)
            }) by {
                assert(stored_value(post, k) == (if post.last().0@ == k {
                    Some(post.last().1@)
                } else {
                    stored_value(post.drop_last(), k)
                }));
            }
            assert(self@ =~= old(self)@.insert(gkey, gvalue));
        }
        prev
    }
}

} // verus!
