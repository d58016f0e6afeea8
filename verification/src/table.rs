//! Handle tables: a mapping from `u32` guest handles to host-side records,
//! one table per object category. Viewed as a `Map<u32, T>`.

use vstd::prelude::*;

verus! {

/// The table's contents, later entries overriding earlier ones.
pub open spec fn entries_map<T>(s: Seq<(u32, T)>) -> Map<u32, T>
    decreases s.len(),
{
    if s.len() == 0 {
        Map::empty()
    } else {
        entries_map(s.drop_last()).insert(s.last().0, s.last().1)
    }
}

pub open spec fn keys_unique<T>(s: Seq<(u32, T)>) -> bool {
    forall|i: int, j: int| 0 <= i < j < s.len() ==> (#[trigger] s[i]).0 != (#[trigger] s[j]).0
}

proof fn lemma_entries_map_dom<T>(s: Seq<(u32, T)>, k: u32)
    ensures
        entries_map(s).dom().contains(k) <==> exists|i: int|
            0 <= i < s.len() && (#[trigger] s[i]).0 == k,
    decreases s.len(),
{
    if s.len() > 0 {
        lemma_entries_map_dom(s.drop_last(), k);
        if s.last().0 == k {
            assert((s[s.len() - 1]).0 == k);
        } else {
            if entries_map(s).dom().contains(k) {
                let i = choose|i: int| 0 <= i < s.drop_last().len() && (#[trigger] s.drop_last()[i]).0 == k;
                assert((s[i]).0 == k);
            }
            if exists|i: int| 0 <= i < s.len() && (#[trigger] s[i]).0 == k {
                let i = choose|i: int| 0 <= i < s.len() && (#[trigger] s[i]).0 == k;
                assert(i < s.len() - 1);
                assert((s.drop_last()[i]).0 == k);
            }
        }
    }
}

proof fn lemma_entries_map_get<T>(s: Seq<(u32, T)>, i: int)
    requires
        keys_unique(s),
        0 <= i < s.len(),
    ensures
        entries_map(s).dom().contains((s[i]).0),
        entries_map(s)[(s[i]).0] == (s[i]).1,
    decreases s.len(),
{
    if i < s.len() - 1 {
        assert(keys_unique(s.drop_last()));
        assert((s.drop_last()[i]) == s[i]);
        lemma_entries_map_get(s.drop_last(), i);
        assert((s[s.len() - 1]).0 != (s[i]).0);
    }
}

proof fn lemma_entries_map_update<T>(s: Seq<(u32, T)>, i: int, v: T)
    requires
        keys_unique(s),
        0 <= i < s.len(),
    ensures
        entries_map(s.update(i, ((s[i]).0, v))) == entries_map(s).insert((s[i]).0, v),
    decreases s.len(),
{
    let k = (s[i]).0;
    let ns = s.update(i, (k, v));
    if i == s.len() - 1 {
        assert(ns.drop_last() =~= s.drop_last());
        assert(entries_map(ns) =~= entries_map(s).insert(k, v));
    } else {
        assert(keys_unique(s.drop_last()));
        assert(ns.drop_last() =~= s.drop_last().update(i, (k, v)));
        assert((s.drop_last()[i]) == s[i]);
        lemma_entries_map_update(s.drop_last(), i, v);
        assert((s[s.len() - 1]).0 != k);
        assert(entries_map(ns) =~= entries_map(s).insert(k, v));
    }
}

/// A handle table. `next` numbers the handles `add` gives out.
pub struct Table<T> {
    pub entries: Vec<(u32, T)>,
    pub next: u32,
}

impl<T> View for Table<T> {
    type V = Map<u32, T>;

    open spec fn view(&self) -> Map<u32, T> {
        entries_map(self.entries@)
    }
}

impl<T> Table<T> {
    pub open spec fn wf(&self) -> bool {
        keys_unique(self.entries@)
    }

    /// An empty table whose `add` starts numbering handles at `start`.
    pub fn new(start: u32) -> (r: Table<T>)
        ensures
            r.wf(),
            r@ == Map::<u32, T>::empty(),
            r.next == start,
    {
        Table { entries: Vec::new(), next: start }
    }

    /// The record for handle `k`, if any.
    pub fn get(&self, k: u32) -> (r: Option<&T>)
        requires
            self.wf(),
        ensures
            match r {
                Some(v) => self@.dom().contains(k) && *v == self@[k],
                None => !self@.dom().contains(k),
            },
    {
        let n = self.entries.len();
        let mut i: usize = 0;
        while i < n
            invariant
                n == self.entries@.len(),
                i <= n,
                self.wf(),
                forall|j: int| 0 <= j < i ==> (#[trigger] self.entries@[j]).0 != k,
            decreases n - i,
        {
            if self.entries[i].0 == k {
                proof {
                    lemma_entries_map_get(self.entries@, i as int);
                }
                return Some(&self.entries[i].1);
            }
            i = i + 1;
        }
        proof {
            lemma_entries_map_dom(self.entries@, k);
        }
        None
    }

    /// Bind handle `k` to `v`, replacing any previous binding.
    pub fn insert(&mut self, k: u32, v: T)
        requires
            old(self).wf(),
        ensures
            final(self).wf(),
            final(self)@ == old(self)@.insert(k, v),
            final(self).next == old(self).next,
    {
        let ghost s0 = self.entries@;
        let n = self.entries.len();
        let mut i: usize = 0;
        while i < n
            invariant
                n == self.entries@.len(),
                i <= n,
                self.entries@ == s0,
                s0 == old(self).entries@,
                self.next == old(self).next,
                keys_unique(s0),
                forall|j: int| 0 <= j < i ==> (#[trigger] s0[j]).0 != k,
            decreases n - i,
        {
            if self.entries[i].0 == k {
                proof {
                    lemma_entries_map_update(s0, i as int, v);
                }
                self.entries[i] = (k, v);
                proof {
                    assert(keys_unique(self.entries@)) by {
                        assert(forall|j: int|
                            0 <= j < self.entries@.len() ==> (#[trigger] self.entries@[j]).0 == (
                            s0[j]).0);
                    }
                }
                return ;
            }
            i = i + 1;
        }
        self.entries.push((k, v));
        proof {
            assert(self.entries@.drop_last() =~= s0);
            assert(keys_unique(self.entries@)) by {
                assert(forall|j: int| 0 <= j < s0.len() ==> self.entries@[j] == s0[j]);
            }
        }
    }

    /// Store `v` under a fresh handle and hand the handle back.
    pub fn add(&mut self, v: T) -> (r: u32)
        requires
            old(self).wf(),
            old(self).next < u32::MAX,
        ensures
            final(self).wf(),
            r == old(self).next,
            final(self).next == old(self).next + 1,
            final(self)@ == old(self)@.insert(r, v),
    {
        let h = self.next;
        self.next = self.next + 1;
        self.insert(h, v);
        h
    }
}

} // verus!
