//! The in-memory registry of managed processes: logical id to the process id
//! last spawned for it. It is a cache of "what we last spawned", rebuilt empty
//! on every supervisor start, never a source of truth about what actually
//! occupies a port. A logical id maps to at most one process id at a time.

use vstd::prelude::*;

verus! {

/// What looking a key up in a registry model yields.
pub open spec fn spec_lookup(m: Map<Seq<char>, u32>, k: Seq<char>) -> Option<u32> {
    if m.contains_key(k) {
        Some(m[k])
    } else {
        None
    }
}

struct RegEntry {
    id: String,
    pid: u32,
}

/// One registry: a finite partial map from logical id to last-known pid,
/// stored as a vector of entries with pairwise distinct ids.
pub struct Registry {
    entries: Vec<RegEntry>,
}

spec fn keys_distinct(s: Seq<RegEntry>) -> bool {
    forall|i: int, j: int| 0 <= i < j < s.len() ==> s[i].id@ != s[j].id@
}

spec fn entries_map(s: Seq<RegEntry>) -> Map<Seq<char>, u32>
    decreases s.len(),
{
    if s.len() == 0 {
        Map::empty()
    } else {
        entries_map(s.drop_last()).insert(s.last().id@, s.last().pid)
    }
}

proof fn lemma_entries_map_contains(s: Seq<RegEntry>, k: Seq<char>)
    ensures
        entries_map(s).contains_key(k) <==> exists|i: int|
            0 <= i < s.len() && s[i].id@ == k,
    decreases s.len(),
{
    if s.len() == 0 {
    } else {
        lemma_entries_map_contains(s.drop_last(), k);
        if s.last().id@ == k {
            assert(s[s.len() - 1].id@ == k);
        } else {
            if exists|i: int| 0 <= i < s.drop_last().len() && s.drop_last()[i].id@ == k {
                let i = choose|i: int|
                    0 <= i < s.drop_last().len() && s.drop_last()[i].id@ == k;
                assert(s[i].id@ == k);
            }
            if exists|i: int| 0 <= i < s.len() && s[i].id@ == k {
                let i = choose|i: int| 0 <= i < s.len() && s[i].id@ == k;
                assert(s.drop_last()[i].id@ == k);
            }
        }
    }
}

proof fn lemma_entries_map_get(s: Seq<RegEntry>, i: int)
    requires
        keys_distinct(s),
        0 <= i < s.len(),
    ensures
        entries_map(s).contains_key(s[i].id@),
        entries_map(s)[s[i].id@] == s[i].pid,
    decreases s.len(),
{
    if i == s.len() - 1 {
    } else {
        assert(keys_distinct(s.drop_last()));
        assert(s.drop_last()[i] == s[i]);
        lemma_entries_map_get(s.drop_last(), i);
        assert(s[i].id@ != s.last().id@);
    }
}

proof fn lemma_entries_map_absent(s: Seq<RegEntry>, k: Seq<char>)
    requires
        forall|i: int| 0 <= i < s.len() ==> s[i].id@ != k,
    ensures
        !entries_map(s).contains_key(k),
        entries_map(s).remove(k) =~= entries_map(s),
    decreases s.len(),
{
    if s.len() == 0 {
    } else {
        assert(forall|i: int|
            0 <= i < s.drop_last().len() ==> s.drop_last()[i].id@ != k);
        lemma_entries_map_absent(s.drop_last(), k);
        assert(s.last().id@ != k);
    }
}

proof fn lemma_entries_map_remove(s: Seq<RegEntry>, i: int)
    requires
        keys_distinct(s),
        0 <= i < s.len(),
    ensures
        entries_map(s.remove(i)) =~= entries_map(s).remove(s[i].id@),
    decreases s.len(),
{
    s.remove_ensures(i);
    if i == s.len() - 1 {
        assert(s.remove(i) =~= s.drop_last());
        assert(forall|j: int| 0 <= j < s.drop_last().len() ==> s.drop_last()[j].id@ != s[i].id@);
        lemma_entries_map_absent(s.drop_last(), s[i].id@);
    } else {
        let t = s.drop_last();
        assert(keys_distinct(t));
        assert(t[i] == s[i]);
        lemma_entries_map_remove(t, i);
        assert(s.remove(i).drop_last() =~= t.remove(i));
        assert(s.remove(i).last() == s.last());
        assert(s.remove(i).len() == s.len() - 1);
        assert(entries_map(s.remove(i)) == entries_map(t.remove(i)).insert(
            s.last().id@,
            s.last().pid,
        ));
        assert(s[i].id@ != s.last().id@);
        assert(entries_map(t).remove(s[i].id@).insert(s.last().id@, s.last().pid) =~= entries_map(
            t,
        ).insert(s.last().id@, s.last().pid).remove(s[i].id@));
    }
}

impl View for Registry {
    type V = Map<Seq<char>, u32>;

    closed spec fn view(&self) -> Map<Seq<char>, u32> {
        entries_map(self.entries@)
    }
}

impl Registry {
    /// Validity: the stored entries hold pairwise distinct ids. Every
    /// constructor establishes it and every method preserves it.
    pub closed spec fn wf(&self) -> bool {
        keys_distinct(self.entries@)
    }

    /// A fresh, empty registry: no service is tracked yet.
    pub fn new() -> (r: Registry)
        ensures
            r.wf(),
            r@ == Map::<Seq<char>, u32>::empty(),
    {
        Registry { entries: Vec::new() }
    }

    /// The pid last recorded for `id`, if any.
    pub fn get(&self, id: &String) -> (r: Option<u32>)
        requires
            self.wf(),
        ensures
            r == spec_lookup(self@, id@),
    {
        let n = self.entries.len();
        let mut j: usize = 0;
        while j < n
            invariant
                0 <= j <= n,
                n == self.entries@.len(),
                keys_distinct(self.entries@),
                forall|t: int| 0 <= t < j ==> self.entries@[t].id@ != id@,
            decreases n - j,
        {
            if self.entries[j].id == *id {
                proof {
                    lemma_entries_map_get(self.entries@, j as int);
                }
                return Some(self.entries[j].pid);
            }
            j += 1;
        }
        proof {
            lemma_entries_map_absent(self.entries@, id@);
        }
        None
    }

    /// Removes the entry for `id`, handing back the pid it held.
    pub fn remove(&mut self, id: &String) -> (r: Option<u32>)
        requires
            old(self).wf(),
        ensures
            final(self).wf(),
            final(self)@ == old(self)@.remove(id@),
            r == spec_lookup(old(self)@, id@),
    {
        let ghost s0 = self.entries@;
        let n = self.entries.len();
        let mut j: usize = 0;
        while j < n
            invariant
                0 <= j <= n,
                n == self.entries@.len(),
                self.entries@ == s0,
                s0 == old(self).entries@,
                keys_distinct(s0),
                forall|t: int| 0 <= t < j ==> s0[t].id@ != id@,
            decreases n - j,
        {
            if self.entries[j].id == *id {
                proof {
                    assert(s0[j as int].id@ == id@);
                    lemma_entries_map_get(s0, j as int);
                    lemma_entries_map_remove(s0, j as int);
                    s0.remove_ensures(j as int);
                }
                let e = self.entries.remove(j);
                proof {
                    assert(self.entries@ == s0.remove(j as int));
                    assert forall|x: int, y: int|
                        0 <= x < y < s0.remove(j as int).len() implies s0.remove(j as int)[x].id@
                        != s0.remove(j as int)[y].id@ by {
                        if x < j {
                            assert(s0.remove(j as int)[x] == s0[x]);
                        } else {
                            assert(s0.remove(j as int)[x] == s0[x + 1]);
                        }
                        if y < j {
                            assert(s0.remove(j as int)[y] == s0[y]);
                        } else {
                            assert(s0.remove(j as int)[y] == s0[y + 1]);
                        }
                    }
                    assert(keys_distinct(self.entries@));
                }
                return Some(e.pid);
            }
            j += 1;
        }
        proof {
            lemma_entries_map_absent(s0, id@);
        }
        None
    }

    /// Records `pid` for `id`, overwriting whatever was tracked before.
    pub fn insert(&mut self, id: String, pid: u32)
        requires
            old(self).wf(),
        ensures
            final(self).wf(),
            final(self)@ == old(self)@.insert(id@, pid),
    {
        let _stale = self.remove(&id);
        proof {
            lemma_entries_map_contains(self.entries@, id@);
        }
        let ghost s1 = self.entries@;
        self.entries.push(RegEntry { id, pid });
        proof {
            assert(self.entries@.drop_last() =~= s1);
            assert(entries_map(self.entries@) == entries_map(s1).insert(
                self.entries@.last().id@,
                self.entries@.last().pid,
            ));
            assert(entries_map(s1).insert(self.entries@.last().id@, self.entries@.last().pid)
                =~= old(self)@.insert(self.entries@.last().id@, self.entries@.last().pid));
        }
    }

    /// How many services are tracked.
    pub fn count(&self) -> (n: usize)
        requires
            self.wf(),
        ensures
            n == self@.dom().len(),
    {
        proof {
            lemma_entries_map_card(self.entries@);
        }
        self.entries.len()
    }
}

proof fn lemma_entries_map_card(s: Seq<RegEntry>)
    requires
        keys_distinct(s),
    ensures
        entries_map(s).dom().finite(),
        entries_map(s).dom().len() == s.len(),
    decreases s.len(),
{
    if s.len() == 0 {
        assert(entries_map(s).dom() =~= Set::<Seq<char>>::empty());
    } else {
        assert(keys_distinct(s.drop_last()));
        lemma_entries_map_card(s.drop_last());
        assert(forall|i: int|
            0 <= i < s.drop_last().len() ==> s.drop_last()[i].id@ != s.last().id@);
        lemma_entries_map_absent(s.drop_last(), s.last().id@);
        assert(entries_map(s).dom() =~= entries_map(s.drop_last()).dom().insert(s.last().id@));
    }
}

} // verus!
