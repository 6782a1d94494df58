//! The telemetry store: the latest snapshot reported by each node, keyed by
//! node id. A `put` is an unconditional upsert — last write wins, no history
//! is retained — and an id need not be registered anywhere for its telemetry
//! to be accepted (orphan telemetry is legal).

use crate::city_info::CityInfo;
use vstd::prelude::*;

verus! {

/// True when some entry of `s` is keyed by `id`.
pub open spec fn store_contains(s: Seq<(Seq<char>, CityInfo)>, id: Seq<char>) -> bool {
    exists|i: int| 0 <= i < s.len() && s[i].0 == id
}

/// The snapshot stored under `id`, scanning from the most recently added end.
pub open spec fn store_get(s: Seq<(Seq<char>, CityInfo)>, id: Seq<char>) -> Option<CityInfo>
    decreases s.len(),
{
    if s.len() == 0 {
        None
    } else if s.last().0 == id {
        Some(s.last().1)
    } else {
        store_get(s.drop_last(), id)
    }
}

/// Well-formedness of the store's contents: no two entries share an id.
pub open spec fn store_wf(s: Seq<(Seq<char>, CityInfo)>) -> bool {
    forall|i: int, j: int| 0 <= i < j < s.len() ==> s[i].0 != s[j].0
}

/// Overwriting the entry at `i` (whose key is `id`) with a new snapshot
/// makes `id` map to that snapshot and changes no other id's lookup.
pub proof fn lemma_store_get_update(
    s: Seq<(Seq<char>, CityInfo)>,
    i: int,
    id: Seq<char>,
    t: CityInfo,
)
    requires
        store_wf(s),
        0 <= i < s.len(),
        s[i].0 == id,
    ensures
        store_wf(s.update(i, (id, t))),
        store_get(s.update(i, (id, t)), id) == Some(t),
        forall|n: Seq<char>| n != id ==> store_get(s.update(i, (id, t)), n) == store_get(s, n),
    decreases s.len(),
{
    let u = s.update(i, (id, t));
    assert(forall|k: int| 0 <= k < s.len() ==> u[k].0 == s[k].0);
    if i == s.len() - 1 {
        assert(u.last() == (id, t));
        assert(u.drop_last() =~= s.drop_last());
        assert(s.last().0 == id);
    } else {
        assert(u.last() == s.last());
        assert(s[i].0 != s[s.len() - 1].0);
        assert(u.drop_last() =~= s.drop_last().update(i, (id, t)));
        assert(store_wf(s.drop_last())) by {
            assert(forall|p: int, q: int|
                0 <= p < q < s.len() - 1 ==> s.drop_last()[p].0 != s.drop_last()[q].0);
        }
        lemma_store_get_update(s.drop_last(), i, id, t);
        assert forall|n: Seq<char>| n != id implies store_get(u, n) == store_get(s, n) by {
            assert(u.len() == s.len());
            assert(u.last() == s.last());
            if s.last().0 == n {
                assert(store_get(u, n) == Some(u.last().1));
                assert(store_get(s, n) == Some(s.last().1));
            } else {
                assert(store_get(u, n) == store_get(u.drop_last(), n));
                assert(store_get(s, n) == store_get(s.drop_last(), n));
                assert(store_get(s.drop_last().update(i, (id, t)), n) == store_get(
                    s.drop_last(),
                    n,
                ));
            }
        }
    }
}

/// Appending an entry with a fresh id keeps the store well-formed, makes
/// that id map to the appended snapshot, and changes no other id's lookup.
pub proof fn lemma_store_put_new(s: Seq<(Seq<char>, CityInfo)>, id: Seq<char>, t: CityInfo)
    requires
        store_wf(s),
        !store_contains(s, id),
    ensures
        store_wf(s.push((id, t))),
        store_get(s.push((id, t)), id) == Some(t),
        forall|n: Seq<char>| n != id ==> store_get(s.push((id, t)), n) == store_get(s, n),
{
    let u = s.push((id, t));
    assert(u.last() == (id, t));
    assert forall|p: int, q: int| 0 <= p < q < u.len() implies u[p].0 != u[q].0 by {
        if q < s.len() {
            assert(s[p].0 != s[q].0);
        } else {
            assert(!(exists|k: int| 0 <= k < s.len() && s[k].0 == id));
            assert(u[p] == s[p]);
        }
    }
    assert forall|n: Seq<char>| n != id implies store_get(u, n) == store_get(s, n) by {
        assert(u.drop_last() =~= s);
    }
}

/// The latest telemetry snapshot of each node, keyed by node id.
pub struct TelemetryStore {
    entries: Vec<(String, CityInfo)>,
}

impl View for TelemetryStore {
    type V = Seq<(Seq<char>, CityInfo)>;

    closed spec fn view(&self) -> Seq<(Seq<char>, CityInfo)> {
        self.entries@.map_values(|p: (String, CityInfo)| (p.0@, p.1))
    }
}

impl TelemetryStore {
    /// Well-formedness: the entries' ids are pairwise distinct.
    pub open spec fn wf(&self) -> bool {
        store_wf(self@)
    }

    /// An empty store.
    pub fn new() -> (r: TelemetryStore)
        ensures
            r.wf(),
            r@ == Seq::<(Seq<char>, CityInfo)>::empty(),
    {
        let r = TelemetryStore { entries: Vec::new() };
        proof {
            assert(r@ =~= Seq::<(Seq<char>, CityInfo)>::empty());
        }
        r
    }

    /// The index of the entry keyed by `id`, if any.
    fn index_of(&self, id: &String) -> (r: Option<usize>)
        ensures
            match r {
                Some(i) => i < self@.len() && self@[i as int].0 == id@,
                None => !store_contains(self@, id@),
            },
    {
        let n = self.entries.len();
        let mut i: usize = 0;
        while i < n
            invariant
                i <= n,
                n == self.entries.len(),
                forall|j: int| 0 <= j < i ==> self@[j].0 != id@,
            decreases n - i,
        {
            if self.entries[i].0 == *id {
                assert(self@[i as int].0 == id@);
                return Some(i);
            }
            i = i + 1;
        }
        None
    }

    /// Stores `t` as the latest snapshot for `id`: an unconditional upsert.
    /// Afterward `get` on the same id returns exactly `t` (until the next
    /// `put` to that id), and every other id's lookup is untouched.
    pub fn put(&mut self, id: String, t: CityInfo)
        requires
            old(self).wf(),
        ensures
            final(self).wf(),
            store_get(final(self)@, id@) == Some(t),
            forall|n: Seq<char>| n != id@ ==> store_get(final(self)@, n) == store_get(
                old(self)@,
                n,
            ),
    {
        let ghost s_old = self@;
        let ghost idv = id@;
        match self.index_of(&id) {
            Some(i) => {
                self.entries[i] = (id, t);
                proof {
                    assert(self@ =~= s_old.update(i as int, (idv, t)));
                    lemma_store_get_update(s_old, i as int, idv, t);
                }
            },
            None => {
                self.entries.push((id, t));
                proof {
                    assert(self@ =~= s_old.push((idv, t)));
                    lemma_store_put_new(s_old, idv, t);
                }
            },
        }
    }

    /// The snapshot stored under `id`, or `None` when the id has never
    /// received a `put`.
    pub fn get(&self, id: &String) -> (r: Option<CityInfo>)
        ensures
            r == store_get(self@, id@),
    {
        let mut i: usize = self.entries.len();
        proof {
            assert(self@.take(i as int) =~= self@);
        }
        while i > 0
            invariant
                i <= self.entries.len(),
                store_get(self@, id@) == store_get(self@.take(i as int), id@),
            decreases i,
        {
            i = i - 1;
            let ghost t = self@.take(i + 1);
            proof {
                assert(t.last() == self@[i as int]);
                assert(t.drop_last() =~= self@.take(i as int));
            }
            if self.entries[i].0 == *id {
                assert(store_get(self@, id@) == Some(self@[i as int].1));
                return Some(self.entries[i].1);
            }
        }
        proof {
            assert(self@.take(0) =~= Seq::<(Seq<char>, CityInfo)>::empty());
        }
        None
    }
}

} // verus!
