use vstd::prelude::*;

use crate::error::MonitorError;
use crate::stats::{StatSnapshot, ThreadStats};

verus! {

/// The statistics held for `name` in `m`, or fresh ones if there are none.
pub open spec fn entry_of(m: Map<Seq<char>, ThreadStats>, name: Seq<char>) -> ThreadStats {
    if m.contains_key(name) {
        m[name]
    } else {
        ThreadStats::empty()
    }
}

/// The mapping after one observation of `stat` under `name`.
pub open spec fn observed(
    m: Map<Seq<char>, ThreadStats>,
    name: Seq<char>,
    stat: StatSnapshot,
) -> Map<Seq<char>, ThreadStats> {
    m.insert(name, entry_of(m, name).updated(stat))
}

/// Statistics keyed by thread name: threads that share a name share an entry.
pub struct ThreadRegistry {
    names: Vec<String>,
    stats: Vec<ThreadStats>,
    contents: Ghost<Map<Seq<char>, ThreadStats>>,
}

impl View for ThreadRegistry {
    type V = Map<Seq<char>, ThreadStats>;

    closed spec fn view(&self) -> Map<Seq<char>, ThreadStats> {
        self.contents@
    }
}

impl ThreadRegistry {
    /// The names are unique, and the two vectors hold exactly the mapping.
    pub closed spec fn wf(&self) -> bool {
        &&& self.names.len() == self.stats.len()
        &&& forall|i: int, j: int|
            0 <= i < j < self.names.len() ==> #[trigger] self.names[i]@ != #[trigger] self.names[j]@
        &&& forall|i: int|
            0 <= i < self.names.len() ==> self.contents@.contains_key(#[trigger] self.names[i]@)
                && self.contents@[self.names[i]@] == self.stats[i]
        &&& forall|k: Seq<char>|
            #[trigger] self.contents@.contains_key(k) ==> exists|i: int|
                0 <= i < self.names.len() && self.names[i]@ == k
    }

    /// The number of distinct names, in the order in which they appeared.
    pub closed spec fn spec_len(&self) -> nat {
        self.names@.len()
    }

    /// The name at position `i`.
    pub closed spec fn spec_name(&self, i: int) -> Seq<char> {
        self.names[i]@
    }

    /// Whether observing `stat` under `name` keeps every counter within `u64`.
    pub open spec fn admits(&self, name: Seq<char>, stat: StatSnapshot) -> bool {
        entry_of(self@, name).admits(stat)
    }

    pub fn new() -> (r: ThreadRegistry)
        ensures
            r.wf(),
            r@ == Map::<Seq<char>, ThreadStats>::empty(),
            r.spec_len() == 0,
    {
        ThreadRegistry { names: Vec::new(), stats: Vec::new(), contents: Ghost(Map::empty()) }
    }

    /// The number of distinct names seen.
    pub fn len(&self) -> (r: usize)
        requires
            self.wf(),
        ensures
            r == self.spec_len(),
            r == self@.len(),
    {
        proof {
            self.lemma_len();
        }
        self.names.len()
    }

    proof fn lemma_len(&self)
        requires
            self.wf(),
        ensures
            self@.dom() == Set::new(|k: Seq<char>| exists|i: int| 0 <= i < self.names.len() && self.names[i]@ == k),
            self@.len() == self.names.len(),
    {
        let names = Seq::new(self.names.len() as nat, |i: int| self.names[i]@);
        assert forall|i: int, j: int| 0 <= i < j < names.len() implies names[i] != names[j] by {
            assert(self.names[i]@ != self.names[j]@);
        }
        names.unique_seq_to_set();
        assert(self@.dom() =~= names.to_set()) by {
            assert forall|k: Seq<char>| self@.dom().contains(k) implies names.to_set().contains(k) by {
                let i = choose|i: int| 0 <= i < self.names.len() && self.names[i]@ == k;
                assert(names[i] == k);
            }
            assert forall|k: Seq<char>| names.to_set().contains(k) implies self@.dom().contains(k) by {
                let i = choose|i: int| 0 <= i < names.len() && names[i] == k;
                assert(self.names[i]@ == k);
            }
        }
        assert(self@.dom() =~= Set::new(|k: Seq<char>| exists|i: int| 0 <= i < self.names.len() && self.names[i]@ == k)) by {
            assert forall|k: Seq<char>| names.to_set().contains(k) implies exists|i: int| 0 <= i < self.names.len() && self.names[i]@ == k by {
                let i = choose|i: int| 0 <= i < names.len() && names[i] == k;
                assert(self.names[i]@ == k);
            }
        }
    }

    /// The position of `name`, if it has been seen.
    fn find(&self, name: &String) -> (r: Option<usize>)
        requires
            self.wf(),
        ensures
            match r {
                Some(i) => i < self.names.len() && self.names[i as int]@ == name@,
                None => !self@.contains_key(name@),
            },
    {
        let mut i: usize = 0;
        while i < self.names.len()
            invariant
                self.wf(),
                i <= self.names.len(),
                forall|j: int| 0 <= j < i ==> self.names[j]@ != name@,
            decreases self.names.len() - i,
        {
            if self.names[i] == *name {
                return Some(i);
            }
            i = i + 1;
        }
        None
    }

    /// Whether `observe` may be called with `name` and `stat`.
    pub fn can_observe(&self, name: &String, stat: &StatSnapshot) -> (r: bool)
        requires
            self.wf(),
        ensures
            r == self.admits(name@, *stat),
    {
        match self.find(name) {
            Some(i) => self.stats[i].can_update(stat),
            None => ThreadStats::new().can_update(stat),
        }
    }

    /// The statistics held for `name`, if it has been seen.
    pub fn get(&self, name: &String) -> (r: Option<ThreadStats>)
        requires
            self.wf(),
        ensures
            r == (if self@.contains_key(name@) {
                Some(self@[name@])
            } else {
                None
            }),
    {
        match self.find(name) {
            Some(i) => Some(self.stats[i]),
            None => None,
        }
    }

    /// The name at position `i`, in order of first appearance.
    pub fn name_at(&self, i: usize) -> (r: &String)
        requires
            self.wf(),
            i < self.spec_len(),
        ensures
            r@ == self.spec_name(i as int),
            self@.contains_key(r@),
    {
        &self.names[i]
    }

    /// The statistics of the name at position `i`.
    pub fn stats_at(&self, i: usize) -> (r: ThreadStats)
        requires
            self.wf(),
            i < self.spec_len(),
        ensures
            r == self@[self.spec_name(i as int)],
    {
        self.stats[i]
    }

    /// Feeds `stat` into the entry for `name`, creating a fresh entry on the
    /// first sight of the name. An error of the update is passed on; the entry
    /// keeps whatever the update had already counted.
    pub fn observe(&mut self, name: String, stat: StatSnapshot) -> (r: Result<(), MonitorError>)
        requires
            old(self).wf(),
            old(self).admits(name@, stat),
        ensures
            final(self).wf(),
            final(self)@ == observed(old(self)@, name@, stat),
            r == ThreadStats::update_outcome(stat),
    {
        match self.find(&name) {
            Some(i) => {
                let mut entry = self.stats[i];
                let r = entry.update_from_stat(stat);
                self.stats.set(i, entry);
                proof {
                    self.contents@ = self.contents@.insert(name@, entry);
                    assert forall|k: Seq<char>| #[trigger] self.contents@.contains_key(k) implies exists|j: int|
                        0 <= j < self.names.len() && self.names[j]@ == k by {
                        if k != name@ {
                            assert(old(self).contents@.contains_key(k));
                            let j = choose|j: int| 0 <= j < old(self).names.len() && old(self).names[j]@ == k;
                            assert(self.names[j]@ == k);
                        } else {
                            assert(self.names[i as int]@ == k);
                        }
                    }
                }
                r
            },
            None => {
                let mut entry = ThreadStats::new();
                let r = entry.update_from_stat(stat);
                let ghost key = name@;
                self.names.push(name);
                self.stats.push(entry);
                proof {
                    self.contents@ = self.contents@.insert(key, entry);
                    let n = self.names.len() - 1;
                    assert(self.names[n]@ == key);
                    assert forall|i: int| 0 <= i < n implies self.names[i]@ != key by {
                        assert(old(self).contents@.contains_key(old(self).names[i]@));
                    }
                    assert forall|k: Seq<char>| #[trigger] self.contents@.contains_key(k) implies exists|j: int|
                        0 <= j < self.names.len() && self.names[j]@ == k by {
                        if k != key {
                            assert(old(self).contents@.contains_key(k));
                            let j = choose|j: int| 0 <= j < old(self).names.len() && old(self).names[j]@ == k;
                            assert(self.names[j]@ == k);
                        }
                    }
                }
                r
            },
        }
    }
}

/// Two observations under the same name, starting from an empty registry,
/// merge into a single entry whose time counters have two samples each (and so
/// do all five counters when both snapshots carry IO-wait data).
pub proof fn lemma_same_name_merges(name: Seq<char>, s1: StatSnapshot, s2: StatSnapshot)
    ensures
        ({
            let m = observed(observed(Map::empty(), name, s1), name, s2);
            &&& m.dom() == set![name]
            &&& m[name].user_time.samples == 2
            &&& m[name].sys_time.samples == 2
            &&& (s1.delayacct_blkio_ticks is Some && s2.delayacct_blkio_ticks is Some) ==> {
                &&& m[name].io_time.samples == 2
                &&& m[name].major_page_faults.samples == 2
                &&& m[name].minor_page_faults.samples == 2
            }
        }),
{
    let m = observed(observed(Map::empty(), name, s1), name, s2);
    assert(m.dom() =~= set![name]);
}

/// Two observations under different names, starting from an empty registry,
/// give two independent entries, each fed by its own snapshot alone.
pub proof fn lemma_distinct_names_apart(
    a: Seq<char>,
    b: Seq<char>,
    s1: StatSnapshot,
    s2: StatSnapshot,
)
    requires
        a != b,
    ensures
        ({
            let m = observed(observed(Map::empty(), a, s1), b, s2);
            &&& m.dom() == set![a, b]
            &&& m[a] == ThreadStats::empty().updated(s1)
            &&& m[b] == ThreadStats::empty().updated(s2)
            &&& m[a].user_time.samples == 1
            &&& m[b].user_time.samples == 1
        }),
{
    let m = observed(observed(Map::empty(), a, s1), b, s2);
    assert(m.dom() =~= set![a, b]);
}

} // verus!
