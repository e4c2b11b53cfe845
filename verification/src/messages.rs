use vstd::prelude::*;

verus! {

/// The set of identifiers held in `ids`.
pub open spec fn id_set(ids: Seq<Seq<char>>) -> Set<Seq<char>> {
    Set::new(|x: Seq<char>| ids.contains(x))
}

/// Abstract state of the outstanding-write tracker: the audit set of every
/// identifier ever forwarded, and the set of identifiers forwarded but not
/// yet acknowledged back through this node.
pub struct MessagesView {
    pub sent: Set<Seq<char>>,
    pub pending: Set<Seq<char>>,
}

/// Tracker of outstanding writes.
///
/// `sent` is append-only; `pending` loses an identifier when a matching
/// acknowledgment is processed.  All three mutations are idempotent at the
/// set level: inserting a present identifier and removing an absent one are
/// no-ops, never errors.
pub struct Messages {
    sent: Vec<String>,
    pending: Vec<String>,
}

impl View for Messages {
    type V = MessagesView;

    closed spec fn view(&self) -> MessagesView {
        MessagesView {
            sent: id_set(self.sent.deep_view()),
            pending: id_set(self.pending.deep_view()),
        }
    }
}

proof fn lemma_contains_push(ids: Seq<Seq<char>>, x: Seq<char>, y: Seq<char>)
    requires
        ids.contains(y),
    ensures
        ids.push(x).contains(y),
{
    let k = choose|k: int| 0 <= k < ids.len() && ids[k] == y;
    assert(ids.push(x)[k] == y);
}

proof fn lemma_id_set_push(ids: Seq<Seq<char>>, x: Seq<char>)
    ensures
        id_set(ids.push(x)) =~= id_set(ids).insert(x),
{
    assert forall|y: Seq<char>| id_set(ids.push(x)).contains(y) implies id_set(ids).insert(
        x,
    ).contains(y) by {
        let k = choose|k: int| 0 <= k < ids.push(x).len() && ids.push(x)[k] == y;
        if k < ids.len() {
            assert(ids[k] == y);
        } else {
            assert(y == x);
        }
    }
    assert forall|y: Seq<char>| id_set(ids).insert(x).contains(y) implies id_set(
        ids.push(x),
    ).contains(y) by {
        if y == x {
            assert(ids.push(x)[ids.len() as int] == y);
        } else {
            lemma_contains_push(ids, x, y);
        }
    }
}

/// Whether `id` occurs in `ids`.
fn contains_id(ids: &Vec<String>, id: &String) -> (r: bool)
    ensures
        r == id_set(ids.deep_view()).contains(id@),
{
    let mut i: usize = 0;
    while i < ids.len()
        invariant
            i <= ids.len(),
            forall|j: int| 0 <= j < i ==> ids.deep_view()[j] != id@,
        decreases ids.len() - i,
    {
        if ids[i] == *id {
            proof {
                assert(ids.deep_view()[i as int] == id@);
            }
            return true;
        }
        i = i + 1;
    }
    false
}

/// An owned copy of `ids`.
fn clone_ids(ids: &Vec<String>) -> (r: Vec<String>)
    ensures
        r.deep_view() == ids.deep_view(),
{
    let mut out: Vec<String> = Vec::new();
    let mut i: usize = 0;
    while i < ids.len()
        invariant
            i <= ids.len(),
            out.deep_view() == ids.deep_view().take(i as int),
        decreases ids.len() - i,
    {
        let ghost before: Seq<Seq<char>> = out.deep_view();
        let entry = ids[i].clone();
        out.push(entry);
        proof {
            assert(out.deep_view() =~= before.push(ids.deep_view()[i as int]));
            assert(out.deep_view() =~= ids.deep_view().take(i + 1));
        }
        i = i + 1;
    }
    proof {
        assert(ids.deep_view().take(ids.len() as int) =~= ids.deep_view());
    }
    out
}

impl Messages {
    /// A tracker with both sets empty.
    pub fn default() -> (m: Messages)
        ensures
            m@.sent == Set::<Seq<char>>::empty(),
            m@.pending == Set::<Seq<char>>::empty(),
    {
        let m = Messages { sent: Vec::new(), pending: Vec::new() };
        proof {
            assert(m@.sent =~= Set::<Seq<char>>::empty());
            assert(m@.pending =~= Set::<Seq<char>>::empty());
        }
        m
    }

    /// Record that `id` has been forwarded downstream at least once.
    pub fn add_sent(&mut self, id: String)
        ensures
            final(self)@.sent == old(self)@.sent.insert(id@),
            final(self)@.pending == old(self)@.pending,
    {
        let ghost gid: Seq<char> = id@;
        if !contains_id(&self.sent, &id) {
            let ghost before: Seq<Seq<char>> = self.sent.deep_view();
            self.sent.push(id);
            proof {
                assert(self.sent.deep_view() =~= before.push(gid));
                lemma_id_set_push(before, gid);
            }
        } else {
            proof {
                assert(old(self)@.sent.insert(gid) =~= old(self)@.sent);
            }
        }
    }

    /// Record that `id` awaits an acknowledgment through this node.
    pub fn add_pending(&mut self, id: String)
        ensures
            final(self)@.pending == old(self)@.pending.insert(id@),
            final(self)@.sent == old(self)@.sent,
    {
        let ghost gid: Seq<char> = id@;
        if !contains_id(&self.pending, &id) {
            let ghost before: Seq<Seq<char>> = self.pending.deep_view();
            self.pending.push(id);
            proof {
                assert(self.pending.deep_view() =~= before.push(gid));
                lemma_id_set_push(before, gid);
            }
        } else {
            proof {
                assert(old(self)@.pending.insert(gid) =~= old(self)@.pending);
            }
        }
    }

    /// Retire `id` from the pending set.  Removing an absent identifier is a
    /// no-op, not an error.
    pub fn remove_pending(&mut self, id: String)
        ensures
            final(self)@.pending == old(self)@.pending.remove(id@),
            final(self)@.sent == old(self)@.sent,
    {
        let ghost gid: Seq<char> = id@;
        let mut kept: Vec<String> = Vec::new();
        let mut i: usize = 0;
        while i < self.pending.len()
            invariant
                i <= self.pending.len(),
                *self == *old(self),
                forall|j: int|
                    0 <= j < kept.deep_view().len() ==> kept.deep_view()[j] != gid
                        && self.pending.deep_view().contains(#[trigger] kept.deep_view()[j]),
                forall|j: int|
                    0 <= j < i && self.pending.deep_view()[j] != gid ==> kept.deep_view().contains(
                        #[trigger] self.pending.deep_view()[j],
                    ),
                gid == id@,
            decreases self.pending.len() - i,
        {
            if !(self.pending[i] == id) {
                let ghost kept_before: Seq<Seq<char>> = kept.deep_view();
                let entry = self.pending[i].clone();
                kept.push(entry);
                proof {
                    assert(kept.deep_view() =~= kept_before.push(
                        self.pending.deep_view()[i as int],
                    ));
                    assert forall|j: int|
                        0 <= j < i + 1 && self.pending.deep_view()[j]
                            != gid implies kept.deep_view().contains(
                        #[trigger] self.pending.deep_view()[j],
                    ) by {
                        if j < i {
                            lemma_contains_push(
                                kept_before,
                                self.pending.deep_view()[i as int],
                                self.pending.deep_view()[j],
                            );
                        } else {
                            assert(kept.deep_view()[kept_before.len() as int]
                                == self.pending.deep_view()[i as int]);
                        }
                    }
                    assert(self.pending.deep_view().contains(self.pending.deep_view()[i as int]));
                }
            }
            i = i + 1;
        }
        proof {
            let pend: Seq<Seq<char>> = self.pending.deep_view();
            let kept_dv: Seq<Seq<char>> = kept.deep_view();
            assert forall|y: Seq<char>| id_set(kept_dv).contains(y) implies id_set(pend).remove(
                gid,
            ).contains(y) by {
                let k = choose|k: int| 0 <= k < kept_dv.len() && kept_dv[k] == y;
                assert(kept_dv[k] != gid);
            }
            assert forall|y: Seq<char>| id_set(pend).remove(gid).contains(y) implies id_set(
                kept_dv,
            ).contains(y) by {
                let k = choose|k: int| 0 <= k < pend.len() && pend[k] == y;
                assert(kept_dv.contains(pend[k]));
            }
            assert(id_set(kept_dv) =~= id_set(pend).remove(gid));
        }
        self.pending = kept;
    }

    /// A read-only snapshot of the sent set, for diagnostics; mutating the
    /// copy does not touch the tracker.
    pub fn sent_snapshot(&self) -> (r: Vec<String>)
        ensures
            id_set(r.deep_view()) == self@.sent,
    {
        clone_ids(&self.sent)
    }

    /// A read-only snapshot of the pending set, for diagnostics.
    pub fn pending_snapshot(&self) -> (r: Vec<String>)
        ensures
            id_set(r.deep_view()) == self@.pending,
    {
        clone_ids(&self.pending)
    }

    /// Whether `id` was ever forwarded by this node.
    pub fn contains_sent(&self, id: &String) -> (r: bool)
        ensures
            r == self@.sent.contains(id@),
    {
        contains_id(&self.sent, id)
    }

    /// Whether `id` still awaits an acknowledgment through this node.
    pub fn contains_pending(&self, id: &String) -> (r: bool)
        ensures
            r == self@.pending.contains(id@),
    {
        contains_id(&self.pending, id)
    }
}

} // verus!
