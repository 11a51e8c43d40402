use crate::types::CacheKey;
use vstd::prelude::*;

verus! {

/// The abstract form of a cache key: key string and scope.
pub type KeyView = (Seq<char>, Option<Seq<char>>);

/// What the table holds for one key.
pub enum Slot<T> {
    /// A computation for the key is in flight.
    Pending,
    /// The computation finished; its result is kept.
    Ready(T),
}

/// The table's answer to a request for a key.
#[derive(Clone, Copy, Debug, PartialEq, Eq, Structural)]
pub enum Lookup {
    /// A finished result is kept for the key.
    Ready,
    /// A computation is already in flight; the caller waits for it.
    Attached,
    /// Nothing was known: the caller now owns the one computation for the key.
    Miss,
}

pub struct Entry<T> {
    pub key: CacheKey,
    pub slot: Slot<T>,
}

/// The in-memory table of in-flight and finished computations, one per cache key.
pub struct CacheTable<T> {
    entries: Vec<Entry<T>>,
}

pub open spec fn keys_unique<T>(s: Seq<Entry<T>>) -> bool {
    forall|i: int, j: int| 0 <= i < j < s.len() ==> #[trigger] s[i].key@ != #[trigger] s[j].key@
}

pub open spec fn to_map<T>(s: Seq<Entry<T>>) -> Map<KeyView, Slot<T>>
    decreases s.len(),
{
    if s.len() == 0 {
        Map::empty()
    } else {
        to_map(s.drop_last()).insert(s.last().key@, s.last().slot)
    }
}

/// One request for key `k` against table `m`: the table after it, and the answer.
pub open spec fn begin_spec<T>(m: Map<KeyView, Slot<T>>, k: KeyView) -> (Map<KeyView, Slot<T>>, Lookup) {
    if !m.contains_key(k) {
        (m.insert(k, Slot::Pending), Lookup::Miss)
    } else {
        match m[k] {
            Slot::Pending => (m, Lookup::Attached),
            Slot::Ready(_) => (m, Lookup::Ready),
        }
    }
}

/// The end of the computation for `k`: a success is kept, a failure forgotten.
pub open spec fn complete_spec<T, E>(m: Map<KeyView, Slot<T>>, k: KeyView, outcome: Result<T, E>) -> Map<KeyView, Slot<T>> {
    match outcome {
        Ok(v) => m.insert(k, Slot::Ready(v)),
        Err(_) => m.remove(k),
    }
}

/// How many of `n` successive requests for `k` start a computation.
pub open spec fn miss_count<T>(m: Map<KeyView, Slot<T>>, k: KeyView, n: nat) -> nat
    decreases n,
{
    if n == 0 {
        0
    } else {
        let (m2, l) = begin_spec(m, k);
        (if l == Lookup::Miss { 1nat } else { 0nat }) + miss_count(m2, k, (n - 1) as nat)
    }
}

proof fn lemma_to_map_index<T>(s: Seq<Entry<T>>)
    requires
        keys_unique(s),
    ensures
        forall|i: int|
            0 <= i < s.len() ==> to_map(s).contains_key(#[trigger] s[i].key@) && to_map(s)[s[i].key@]
                == s[i].slot,
        forall|k: KeyView|
            #[trigger] to_map(s).contains_key(k) ==> exists|i: int| 0 <= i < s.len() && s[i].key@ == k,
    decreases s.len(),
{
    if s.len() > 0 {
        let p = s.drop_last();
        assert(keys_unique(p)) by {
            assert forall|i: int, j: int| 0 <= i < j < p.len() implies p[i].key@ != p[j].key@ by {
                assert(p[i] == s[i] && p[j] == s[j]);
            }
        }
        lemma_to_map_index(p);
        assert forall|k: KeyView| #[trigger] to_map(s).contains_key(k) implies exists|i: int|
            0 <= i < s.len() && s[i].key@ == k by {
            if k != s.last().key@ {
                let i = choose|i: int| 0 <= i < p.len() && p[i].key@ == k;
                assert(s[i] == p[i]);
            } else {
                assert(s[s.len() - 1].key@ == k);
            }
        }
        assert forall|i: int| 0 <= i < s.len() implies to_map(s).contains_key(#[trigger] s[i].key@)
            && to_map(s)[s[i].key@] == s[i].slot by {
            if i < s.len() - 1 {
                assert(s[i] == p[i]);
                assert(s[i].key@ != s[s.len() - 1].key@);
            }
        }
    }
}

proof fn lemma_to_map_remove<T>(s: Seq<Entry<T>>, i: int)
    requires
        keys_unique(s),
        0 <= i < s.len(),
    ensures
        keys_unique(s.remove(i)),
        to_map(s.remove(i)) == to_map(s).remove(s[i].key@),
    decreases s.len(),
{
    let r = s.remove(i);
    assert forall|a: int, b: int| 0 <= a < b < r.len() implies #[trigger] r[a].key@ != #[trigger] r[b].key@ by {
        let a2 = if a < i { a } else { a + 1 };
        let b2 = if b < i { b } else { b + 1 };
        assert(r[a] == s[a2] && r[b] == s[b2]);
    }
    let p = s.drop_last();
    assert(keys_unique(p)) by {
        assert forall|x: int, y: int| 0 <= x < y < p.len() implies p[x].key@ != p[y].key@ by {
            assert(p[x] == s[x] && p[y] == s[y]);
        }
    }
    lemma_to_map_index(p);
    if i == s.len() - 1 {
        assert(r =~= p);
        assert(!to_map(p).contains_key(s[i].key@)) by {
            if to_map(p).contains_key(s[i].key@) {
                let j = choose|j: int| 0 <= j < p.len() && p[j].key@ == s[i].key@;
                assert(p[j] == s[j]);
            }
        }
        assert(to_map(r) =~= to_map(s).remove(s[i].key@));
    } else {
        lemma_to_map_remove(p, i);
        assert(r.drop_last() =~= p.remove(i));
        assert(r.last() == s.last());
        assert(s[i].key@ != s.last().key@);
        assert(p[i] == s[i]);
        assert(to_map(r) =~= to_map(s).remove(s[i].key@));
    }
}

impl<T> CacheTable<T> {
    pub closed spec fn view(&self) -> Map<KeyView, Slot<T>> {
        to_map(self.entries@)
    }

    pub closed spec fn wf(&self) -> bool {
        keys_unique(self.entries@)
    }

    pub fn new() -> (r: CacheTable<T>)
        ensures
            r.wf(),
            r.view() == Map::<KeyView, Slot<T>>::empty(),
    {
        CacheTable { entries: Vec::new() }
    }

    fn find(&self, key: &CacheKey) -> (r: Option<usize>)
        requires
            self.wf(),
        ensures
            match r {
                Some(i) => i < self.entries@.len() && self.entries@[i as int].key@ == key@,
                None => !self.view().contains_key(key@),
            },
    {
        let mut i: usize = 0;
        while i < self.entries.len()
            invariant
                i <= self.entries@.len(),
                forall|j: int| 0 <= j < i ==> #[trigger] self.entries@[j].key@ != key@,
            decreases self.entries@.len() - i,
        {
            if self.entries[i].key.same(key) {
                return Some(i);
            }
            i = i + 1;
        }
        proof {
            lemma_to_map_index(self.entries@);
        }
        None
    }

    /// Registers a request for `key`: the first one while nothing is known starts the
    /// computation; later ones attach to it, or find its kept result.
    pub fn begin(&mut self, key: CacheKey) -> (r: Lookup)
        requires
            old(self).wf(),
        ensures
            final(self).wf(),
            final(self).view() == begin_spec(old(self).view(), key@).0,
            r == begin_spec(old(self).view(), key@).1,
    {
        proof {
            lemma_to_map_index(self.entries@);
        }
        match self.find(&key) {
            Some(i) => match self.entries[i].slot {
                Slot::Pending => Lookup::Attached,
                Slot::Ready(_) => Lookup::Ready,
            },
            None => {
                let ghost k = key@;
                self.entries.push(Entry { key, slot: Slot::Pending });
                proof {
                    let s = self.entries@;
                    assert(s.drop_last() =~= old(self).entries@);
                    assert forall|a: int, b: int| 0 <= a < b < s.len() implies #[trigger] s[a].key@
                        != #[trigger] s[b].key@ by {
                        if b == s.len() - 1 {
                            assert(s[a] == old(self).entries@[a]);
                        } else {
                            assert(s[a] == old(self).entries@[a] && s[b] == old(self).entries@[b]);
                        }
                    }
                }
                Lookup::Miss
            },
        }
    }

    /// The result kept for `key`, if its computation finished successfully.
    pub fn cached(&self, key: &CacheKey) -> (r: Option<&T>)
        requires
            self.wf(),
        ensures
            match r {
                Some(v) => self.view().contains_key(key@) && self.view()[key@] == Slot::Ready(*v),
                None => !self.view().contains_key(key@) || self.view()[key@] is Pending,
            },
    {
        proof {
            lemma_to_map_index(self.entries@);
        }
        match self.find(key) {
            Some(i) => match &self.entries[i].slot {
                Slot::Pending => None,
                Slot::Ready(v) => Some(v),
            },
            None => None,
        }
    }

    /// Ends the computation for `key`: a success is kept for later requests, a failure
    /// is handed back and forgotten, so that the next request computes again.
    pub fn complete<E>(&mut self, key: CacheKey, outcome: Result<T, E>) -> (r: Result<(), E>)
        requires
            old(self).wf(),
        ensures
            final(self).wf(),
            final(self).view() == complete_spec(old(self).view(), key@, outcome),
            match outcome {
                Ok(_) => r is Ok,
                Err(e) => r == Err::<(), E>(e),
            },
    {
        let ghost k = key@;
        proof {
            lemma_to_map_index(self.entries@);
        }
        match self.find(&key) {
            Some(i) => {
                proof {
                    lemma_to_map_remove(self.entries@, i as int);
                }
                self.entries.remove(i);
            },
            None => {
                assert(old(self).view().remove(k) =~= old(self).view());
            },
        }
        let ghost mid = self.entries@;
        assert(!to_map(mid).contains_key(k));
        match outcome {
            Ok(v) => {
                self.entries.push(Entry { key, slot: Slot::Ready(v) });
                proof {
                    let s = self.entries@;
                    assert(s.drop_last() =~= mid);
                    lemma_to_map_index(mid);
                    assert forall|a: int, b: int| 0 <= a < b < s.len() implies #[trigger] s[a].key@
                        != #[trigger] s[b].key@ by {
                        assert(s[a] == mid[a]);
                        if b < s.len() - 1 {
                            assert(s[b] == mid[b]);
                        }
                    }
                    assert(to_map(s) =~= old(self).view().insert(k, Slot::Ready(v)));
                }
                Ok(())
            },
            Err(e) => Err(e),
        }
    }
}

/// Memoization: of any number of successive requests for one key, at most one starts a
/// computation, and exactly one when nothing was known of the key before.
pub proof fn lemma_at_most_one_compute<T>(m: Map<KeyView, Slot<T>>, k: KeyView, n: nat)
    ensures
        miss_count(m, k, n) <= 1,
        m.contains_key(k) ==> miss_count(m, k, n) == 0,
        !m.contains_key(k) && n > 0 ==> miss_count(m, k, n) == 1,
    decreases n,
{
    if n > 0 {
        let (m2, l) = begin_spec(m, k);
        lemma_at_most_one_compute(m2, k, (n - 1) as nat);
    }
}

/// A successful result is kept: every later request for the key finds it, unchanged.
pub proof fn lemma_success_is_kept<T, E>(m: Map<KeyView, Slot<T>>, k: KeyView, v: T, n: nat)
    ensures
        begin_spec(complete_spec(m, k, Ok::<T, E>(v)), k).1 == Lookup::Ready,
        complete_spec(m, k, Ok::<T, E>(v))[k] == Slot::Ready(v),
        miss_count(complete_spec(m, k, Ok::<T, E>(v)), k, n) == 0,
{
    lemma_at_most_one_compute(complete_spec(m, k, Ok::<T, E>(v)), k, n);
}

/// A failure is not kept: the next request for the key starts a new computation.
pub proof fn lemma_failure_is_retried<T, E>(m: Map<KeyView, Slot<T>>, k: KeyView, e: E)
    ensures
        begin_spec(complete_spec(m, k, Err::<T, E>(e)), k).1 == Lookup::Miss,
{
}

/// Keys are independent: whether a computation is in flight for one key has no bearing
/// on the answer to a request for another.
pub proof fn lemma_keys_independent<T>(m: Map<KeyView, Slot<T>>, busy: KeyView, k: KeyView)
    requires
        busy != k,
    ensures
        begin_spec(m.insert(busy, Slot::Pending), k).1 == begin_spec(m.remove(busy), k).1,
        begin_spec(m.insert(busy, Slot::Pending), k).1 == begin_spec(m, k).1,
{
}

} // verus!
