//! The pending-request registry: a mapping from (group, member) to the
//! record of one unresolved admission challenge.  It is the sole shared
//! mutable state of the admission core; the process around the library
//! wraps one instance in a lock and passes it to every task.

use vstd::prelude::*;

verus! {

/// Identifies one pending admission: a group and the member being gated.
#[derive(Clone, Copy, PartialEq, Eq, Structural, Hash, Debug)]
pub struct RequestKey {
    pub group: i64,
    pub member: u64,
}

/// The record tracking one member's unresolved admission challenge.
///
/// `msg_id` identifies the posted challenge message; it is present while
/// that message is undeleted and cleared exactly once by whichever path
/// deletes the message first.  `is_verified` starts false and is set true
/// only by the verification callback, never reset.
#[derive(Clone, Copy, PartialEq, Eq, Debug)]
pub struct JoinRequest {
    pub msg_id: Option<i32>,
    pub is_verified: bool,
}

impl JoinRequest {
    /// A freshly created request: challenge message posted, not yet verified.
    pub fn new(msg_id: i32) -> (r: JoinRequest)
        ensures
            r == (JoinRequest { msg_id: Some(msg_id), is_verified: false }),
    {
        JoinRequest { msg_id: Some(msg_id), is_verified: false }
    }
}

/// The map a sequence of (key, record) entries stands for, later entries
/// overriding earlier ones.
pub open spec fn assoc_map(s: Seq<(RequestKey, JoinRequest)>) -> Map<RequestKey, JoinRequest>
    decreases s.len(),
{
    if s.len() == 0 {
        Map::empty()
    } else {
        assoc_map(s.drop_last()).insert(s.last().0, s.last().1)
    }
}

/// No key occurs twice among the entries.
pub open spec fn distinct_keys(s: Seq<(RequestKey, JoinRequest)>) -> bool {
    forall|i: int, j: int|
        0 <= i < j < s.len() ==> (#[trigger] s[i]).0 != (#[trigger] s[j]).0
}

proof fn lemma_assoc_map_domain(s: Seq<(RequestKey, JoinRequest)>, k: RequestKey)
    ensures
        assoc_map(s).contains_key(k) <==> exists|i: int| 0 <= i < s.len() && (#[trigger] s[i]).0 == k,
    decreases s.len(),
{
    if s.len() > 0 {
        lemma_assoc_map_domain(s.drop_last(), k);
        if s.last().0 == k {
            assert(s[s.len() - 1].0 == k);
        } else if assoc_map(s).contains_key(k) {
            let i = choose|i: int| 0 <= i < s.drop_last().len() && (#[trigger] s.drop_last()[i]).0 == k;
            assert(s[i].0 == k);
        } else {
            assert forall|i: int| 0 <= i < s.len() implies (#[trigger] s[i]).0 != k by {
                if i < s.len() - 1 {
                    assert(s.drop_last()[i] == s[i]);
                }
            }
        }
    }
}

proof fn lemma_assoc_map_at(s: Seq<(RequestKey, JoinRequest)>, i: int)
    requires
        distinct_keys(s),
        0 <= i < s.len(),
    ensures
        assoc_map(s).contains_key(s[i].0),
        assoc_map(s)[s[i].0] == s[i].1,
    decreases s.len(),
{
    lemma_assoc_map_domain(s, s[i].0);
    if i < s.len() - 1 {
        assert(s.drop_last()[i] == s[i]);
        lemma_assoc_map_at(s.drop_last(), i);
        assert(s.last().0 != s[i].0);
    }
}

proof fn lemma_assoc_map_push(s: Seq<(RequestKey, JoinRequest)>, e: (RequestKey, JoinRequest))
    ensures
        assoc_map(s.push(e)) =~= assoc_map(s).insert(e.0, e.1),
{
    assert(s.push(e).drop_last() =~= s);
    assert(s.push(e).last() == e);
}

proof fn lemma_assoc_map_update(s: Seq<(RequestKey, JoinRequest)>, i: int, e: (RequestKey, JoinRequest))
    requires
        distinct_keys(s),
        0 <= i < s.len(),
        s[i].0 == e.0,
    ensures
        assoc_map(s.update(i, e)) =~= assoc_map(s).insert(e.0, e.1),
    decreases s.len(),
{
    let t = s.update(i, e);
    if i == s.len() - 1 {
        assert(t.drop_last() =~= s.drop_last());
        assert(t.last() == e);
    } else {
        assert(t.drop_last() =~= s.drop_last().update(i, e));
        assert(t.last() == s.last());
        assert(forall|p: int, q: int|
            0 <= p < q < s.drop_last().len()
                ==> (#[trigger] s.drop_last()[p]).0 != (#[trigger] s.drop_last()[q]).0);
        lemma_assoc_map_update(s.drop_last(), i, e);
        assert(s.drop_last()[i] == s[i]);
        assert(s.last().0 != e.0);
    }
}

proof fn lemma_assoc_map_remove(s: Seq<(RequestKey, JoinRequest)>, i: int)
    requires
        distinct_keys(s),
        0 <= i < s.len(),
    ensures
        assoc_map(s.remove(i)) =~= assoc_map(s).remove(s[i].0),
    decreases s.len(),
{
    let k = s[i].0;
    if i == s.len() - 1 {
        assert(s.remove(i) =~= s.drop_last());
        lemma_assoc_map_domain(s.drop_last(), k);
        assert forall|j: int| 0 <= j < s.drop_last().len()
            implies (#[trigger] s.drop_last()[j]).0 != k by {
            assert(s.drop_last()[j] == s[j]);
        }
        assert(!assoc_map(s.drop_last()).contains_key(k));
        assert(assoc_map(s) == assoc_map(s.drop_last()).insert(k, s[i].1));
    } else {
        let t = s.remove(i);
        assert(t.drop_last() =~= s.drop_last().remove(i));
        assert(t.last() == s.last());
        assert(forall|p: int, q: int|
            0 <= p < q < s.drop_last().len()
                ==> (#[trigger] s.drop_last()[p]).0 != (#[trigger] s.drop_last()[q]).0);
        lemma_assoc_map_remove(s.drop_last(), i);
        assert(s.drop_last()[i] == s[i]);
        assert(s.last().0 != k);
        assert(assoc_map(t) == assoc_map(t.drop_last()).insert(s.last().0, s.last().1));
    }
}

/// The concurrent pending-request store, keyed by (group, member).
///
/// The process around the library shares one instance behind a lock whose
/// exclusive access spans a whole transition, so the verification path and
/// the enforcement path are serialized per key.
pub struct Registry {
    entries: Vec<(RequestKey, JoinRequest)>,
}

impl View for Registry {
    type V = Map<RequestKey, JoinRequest>;

    closed spec fn view(&self) -> Map<RequestKey, JoinRequest> {
        assoc_map(self.entries@)
    }
}

impl Registry {
    /// The registry never holds two entries for one key.
    pub closed spec fn wf(&self) -> bool {
        distinct_keys(self.entries@)
    }

    /// The entries as stored, for stating bounds on physical duplication.
    pub closed spec fn spec_entries(&self) -> Seq<(RequestKey, JoinRequest)> {
        self.entries@
    }

    /// An empty registry.
    pub fn new() -> (r: Registry)
        ensures
            r.wf(),
            r@ == Map::<RequestKey, JoinRequest>::empty(),
    {
        Registry { entries: Vec::new() }
    }

    /// The position of the entry for `key`, if one is stored.
    fn find(&self, key: RequestKey) -> (r: Option<usize>)
        requires
            self.wf(),
        ensures
            match r {
                Some(i) => i < self.spec_entries().len() && self.spec_entries()[i as int].0 == key
                    && self@.contains_key(key) && self@[key] == self.spec_entries()[i as int].1,
                None => !self@.contains_key(key),
            },
    {
        let n: usize = self.entries.len();
        for i in it: 0..n
            invariant
                n == self.spec_entries().len(),
                self.wf(),
                forall|j: int| 0 <= j < i ==> (#[trigger] self.spec_entries()[j]).0 != key,
        {
            if self.entries[i].0 == key {
                proof {
                    lemma_assoc_map_at(self.spec_entries(), i as int);
                }
                return Some(i);
            }
        }
        proof {
            lemma_assoc_map_domain(self.spec_entries(), key);
        }
        None
    }

    /// Whether a pending request is stored for `key`.
    pub fn contains(&self, key: RequestKey) -> (r: bool)
        requires
            self.wf(),
        ensures
            r == self@.contains_key(key),
    {
        self.find(key).is_some()
    }

    /// The stored record for `key`, if any.
    pub fn get(&self, key: RequestKey) -> (r: Option<JoinRequest>)
        requires
            self.wf(),
        ensures
            r == if self@.contains_key(key) {
                Some(self@[key])
            } else {
                None::<JoinRequest>
            },
    {
        match self.find(key) {
            Some(i) => Some(self.entries[i].1),
            None => None,
        }
    }

    /// Stores `record` under `key`, replacing any stored entry for that key.
    ///
    /// The admission path calls this once per join event; replacing instead
    /// of stacking keeps the registry at no more than one entry per key even
    /// under a repeated join.
    pub fn insert(&mut self, key: RequestKey, record: JoinRequest)
        requires
            old(self).wf(),
        ensures
            final(self).wf(),
            final(self)@ == old(self)@.insert(key, record),
    {
        match self.find(key) {
            Some(i) => {
                let ghost s = self.entries@;
                self.entries.set(i, (key, record));
                proof {
                    assert(distinct_keys(self.entries@)) by {
                        assert(forall|j: int| 0 <= j < s.len() && j != i
                            ==> (#[trigger] self.entries@[j]) == s[j]);
                    }
                    lemma_assoc_map_update(s, i as int, (key, record));
                }
            },
            None => {
                let ghost s = self.entries@;
                self.entries.push((key, record));
                proof {
                    lemma_assoc_map_domain(s, key);
                    assert(distinct_keys(self.entries@)) by {
                        assert(forall|j: int| 0 <= j < s.len()
                            ==> (#[trigger] self.entries@[j]) == s[j]);
                    }
                    lemma_assoc_map_push(s, (key, record));
                }
            },
        }
    }

    /// Atomically takes ownership of the entry for `key` if one is present.
    ///
    /// Idempotent: a second call for an already-removed key returns `None`
    /// and leaves the registry unchanged.  The enforcement timer is the one
    /// caller, so an entry is removed exactly once.
    pub fn remove_if_present(&mut self, key: RequestKey) -> (r: Option<JoinRequest>)
        requires
            old(self).wf(),
        ensures
            final(self).wf(),
            final(self)@ == old(self)@.remove(key),
            r == if old(self)@.contains_key(key) {
                Some(old(self)@[key])
            } else {
                None::<JoinRequest>
            },
    {
        match self.find(key) {
            Some(i) => {
                let ghost s = self.entries@;
                let e = self.entries.remove(i);
                proof {
                    assert(self.entries@ =~= s.remove(i as int));
                    assert(distinct_keys(self.entries@)) by {
                        assert(forall|j: int| 0 <= j < self.entries@.len()
                            ==> (#[trigger] self.entries@[j])
                                == (if j < i as int { s[j] } else { s[j + 1] }));
                    }
                    lemma_assoc_map_remove(s, i as int);
                }
                Some(e.1)
            },
            None => {
                proof {
                    assert(self@.remove(key) =~= self@);
                }
                None
            },
        }
    }
}

/// For every key, a well-formed registry physically holds at most one
/// entry: two stored entries with the same key stand at the same position.
/// Repeated joins or repeated callbacks can therefore never duplicate a
/// pending request.
pub proof fn lemma_at_most_one_entry_per_key(r: &Registry, key: RequestKey)
    requires
        r.wf(),
    ensures
        forall|i: int, j: int|
            0 <= i < r.spec_entries().len() && 0 <= j < r.spec_entries().len()
                && (#[trigger] r.spec_entries()[i]).0 == key
                && (#[trigger] r.spec_entries()[j]).0 == key
                ==> i == j,
{
}

} // verus!
