use vstd::prelude::*;

use crate::outcome::SimError;
use crate::primitives::{Address, Word};

verus! {

/// What a state read asks for: an account, one storage slot of an account,
/// or an account's code.
#[derive(Clone, Copy, Debug, PartialEq, Eq, Structural)]
pub enum StateKey {
    Account(Address),
    Storage(Address, Word),
    Code(Address),
}

/// The basic record of an account.
#[derive(Clone, Copy, Debug, PartialEq, Eq, Structural)]
pub struct AccountInfo {
    pub balance: Word,
    pub nonce: u64,
    pub code_hash: Word,
}

/// What a state read returns.
#[derive(Clone, Debug, PartialEq, Eq)]
pub enum StateValue {
    Account(AccountInfo),
    Slot(Word),
    Code(Vec<u8>),
}

/// A finite map from state keys to values, held as a list of entries with
/// pairwise distinct keys.
pub struct StateCache {
    entries: Vec<(StateKey, StateValue)>,
    contents: Ghost<Map<StateKey, StateValue>>,
}

impl View for StateCache {
    type V = Map<StateKey, StateValue>;

    closed spec fn view(&self) -> Map<StateKey, StateValue> {
        self.contents@
    }
}

impl StateCache {
    /// The entries have distinct keys and are exactly the map's contents.
    pub closed spec fn wf(&self) -> bool {
        &&& forall|i: int, j: int|
            0 <= i < j < self.entries@.len() ==> self.entries@[i].0 != self.entries@[j].0
        &&& forall|i: int|
            0 <= i < self.entries@.len() ==> #[trigger] self.contents@.contains_key(
                self.entries@[i].0,
            ) && self.contents@[self.entries@[i].0] == self.entries@[i].1
        &&& forall|k: StateKey|
            #[trigger] self.contents@.contains_key(k) ==> exists|i: int|
                0 <= i < self.entries@.len() && self.entries@[i].0 == k
    }

    /// An empty cache.
    pub fn new() -> (r: StateCache)
        ensures
            r.wf(),
            r@ == Map::<StateKey, StateValue>::empty(),
    {
        StateCache { entries: Vec::new(), contents: Ghost(Map::empty()) }
    }

    fn find(&self, key: &StateKey) -> (r: Option<usize>)
        requires
            self.wf(),
        ensures
            match r {
                Some(i) => i < self.entries@.len() && self.entries@[i as int].0 == *key,
                None => !self@.contains_key(*key),
            },
    {
        let mut i: usize = 0;
        while i < self.entries.len()
            invariant
                self.wf(),
                i <= self.entries@.len(),
                forall|j: int| 0 <= j < i ==> self.entries@[j].0 != *key,
            decreases self.entries@.len() - i,
        {
            if self.entries[i].0 == *key {
                return Some(i);
            }
            i = i + 1;
        }
        None
    }

    /// The value held for `key`, if any.
    pub fn get(&self, key: &StateKey) -> (r: Option<&StateValue>)
        requires
            self.wf(),
        ensures
            match r {
                Some(v) => self@.contains_key(*key) && *v == self@[*key],
                None => !self@.contains_key(*key),
            },
    {
        match self.find(key) {
            Some(i) => {
                proof {
                    assert(self.contents@.contains_key(self.entries@[i as int].0));
                }
                Some(&self.entries[i].1)
            },
            None => None,
        }
    }

    /// Whether a value is held for `key`.
    pub fn contains(&self, key: &StateKey) -> (r: bool)
        requires
            self.wf(),
        ensures
            r == self@.contains_key(*key),
    {
        self.find(key).is_some()
    }

    /// The number of entries held for `key`: one if it is cached, else none.
    pub fn count_entries(&self, key: &StateKey) -> (r: usize)
        requires
            self.wf(),
        ensures
            r == (if self@.contains_key(*key) { 1usize } else { 0usize }),
    {
        let mut n: usize = 0;
        let mut i: usize = 0;
        let ghost mut first: int = -1;
        while i < self.entries.len()
            invariant
                self.wf(),
                i <= self.entries@.len(),
                n <= 1,
                n == 0 ==> forall|j: int| 0 <= j < i ==> self.entries@[j].0 != *key,
                n == 1 ==> 0 <= first < i && self.entries@[first].0 == *key,
            decreases self.entries@.len() - i,
        {
            if self.entries[i].0 == *key {
                assert(n == 0);
                n = 1;
                proof {
                    first = i as int;
                }
            }
            i = i + 1;
        }
        n
    }

    /// Stores `value` under `key` unless a value is held there already: what
    /// was cached is never replaced.
    pub fn insert_if_absent(&mut self, key: StateKey, value: StateValue)
        requires
            old(self).wf(),
        ensures
            final(self).wf(),
            final(self)@ == if old(self)@.contains_key(key) {
                old(self)@
            } else {
                old(self)@.insert(key, value)
            },
    {
        if self.find(&key).is_none() {
            self.push_new(key, value);
        }
    }

    /// Stores `value` under `key`, replacing what was held there.
    pub fn put(&mut self, key: StateKey, value: StateValue)
        requires
            old(self).wf(),
        ensures
            final(self).wf(),
            final(self)@ == old(self)@.insert(key, value),
    {
        match self.find(&key) {
            Some(i) => {
                let ghost before = self.entries@;
                self.entries.remove(i);
                proof {
                    self.contents@ = self.contents@.remove(key);
                    assert forall|a: int, b: int|
                        0 <= a < b < self.entries@.len() implies self.entries@[a].0
                        != self.entries@[b].0 by {
                        let a0 = if a < i { a } else { a + 1 };
                        let b0 = if b < i { b } else { b + 1 };
                        assert(self.entries@[a] == before[a0]);
                        assert(self.entries@[b] == before[b0]);
                    }
                    assert forall|a: int| 0 <= a < self.entries@.len() implies #[trigger]
                        self.contents@.contains_key(self.entries@[a].0)
                        && self.contents@[self.entries@[a].0] == self.entries@[a].1 by {
                        let a0 = if a < i { a } else { a + 1 };
                        assert(self.entries@[a] == before[a0]);
                        assert(old(self)@.contains_key(before[a0].0));
                        assert(before[a0].0 != key);
                    }
                    assert forall|k: StateKey| #[trigger]
                        self.contents@.contains_key(k) implies exists|a: int|
                        0 <= a < self.entries@.len() && self.entries@[a].0 == k by {
                        let a0 = choose|a0: int| 0 <= a0 < before.len() && before[a0].0 == k;
                        let a = if a0 < i { a0 } else { a0 - 1 };
                        assert(self.entries@[a] == before[a0]);
                    }
                }
                self.push_new(key, value);
                proof {
                    assert(self@ =~= old(self)@.insert(key, value));
                }
            },
            None => {
                self.push_new(key, value);
            },
        }
    }

    fn push_new(&mut self, key: StateKey, value: StateValue)
        requires
            old(self).wf(),
            !old(self)@.contains_key(key),
        ensures
            final(self).wf(),
            final(self)@ == old(self)@.insert(key, value),
    {
        let ghost before = self.entries@;
        self.entries.push((key, value));
        proof {
            self.contents@ = self.contents@.insert(key, value);
            assert forall|k: StateKey| #[trigger]
                self.contents@.contains_key(k) implies exists|a: int|
                0 <= a < self.entries@.len() && self.entries@[a].0 == k by {
                if k == key {
                    assert(self.entries@[before.len() as int].0 == k);
                } else {
                    let a = choose|a: int| 0 <= a < before.len() && before[a].0 == k;
                    assert(self.entries@[a] == before[a]);
                }
            }
            assert forall|a: int| 0 <= a < self.entries@.len() implies #[trigger]
                self.contents@.contains_key(self.entries@[a].0)
                && self.contents@[self.entries@[a].0] == self.entries@[a].1 by {
                if a < before.len() {
                    assert(self.entries@[a] == before[a]);
                    assert(old(self)@.contains_key(before[a].0));
                }
            }
            assert forall|a: int, b: int|
                0 <= a < b < self.entries@.len() implies self.entries@[a].0
                != self.entries@[b].0 by {
                if b == before.len() {
                    assert(old(self)@.contains_key(before[a].0));
                }
            }
        }
    }
}


/// The map after writing each change in turn; a later change of a key wins.
pub open spec fn apply_changes(
    m: Map<StateKey, StateValue>,
    changes: Seq<(StateKey, StateValue)>,
) -> Map<StateKey, StateValue>
    decreases changes.len(),
{
    if changes.len() == 0 {
        m
    } else {
        let last = changes[changes.len() - 1];
        apply_changes(m, changes.subrange(0, changes.len() - 1)).insert(last.0, last.1)
    }
}

/// What a read of `key` sees: the committed overlay first, then what was
/// fetched from the pinned block.
pub open spec fn visible(
    overlay: Map<StateKey, StateValue>,
    fetched: Map<StateKey, StateValue>,
    key: StateKey,
) -> Option<StateValue> {
    if overlay.contains_key(key) {
        Some(overlay[key])
    } else if fetched.contains_key(key) {
        Some(fetched[key])
    } else {
        None
    }
}

/// The forked state: the state of one pinned historical block, read lazily
/// from the remote provider and cached, under an overlay of the changes that
/// committed executions made.
pub struct ForkedState {
    pinned_block: u64,
    fetched: StateCache,
    overlay: StateCache,
}

impl ForkedState {
    pub closed spec fn wf(&self) -> bool {
        self.fetched.wf() && self.overlay.wf()
    }

    /// The block whose state is read; it never changes.
    pub closed spec fn pinned(&self) -> u64 {
        self.pinned_block
    }

    /// What has been fetched from the pinned block.
    pub closed spec fn fetched_view(&self) -> Map<StateKey, StateValue> {
        self.fetched@
    }

    /// What committed executions have written.
    pub closed spec fn overlay_view(&self) -> Map<StateKey, StateValue> {
        self.overlay@
    }

    /// A forked state of `pinned_block` with nothing fetched or written yet.
    pub fn new(pinned_block: u64) -> (r: ForkedState)
        ensures
            r.wf(),
            r.pinned() == pinned_block,
            r.fetched_view() == Map::<StateKey, StateValue>::empty(),
            r.overlay_view() == Map::<StateKey, StateValue>::empty(),
    {
        ForkedState { pinned_block, fetched: StateCache::new(), overlay: StateCache::new() }
    }

    /// The block whose state is read.
    pub fn pinned_block(&self) -> (r: u64)
        ensures
            r == self.pinned(),
    {
        self.pinned_block
    }

    /// Serves a read from what is held; `None` means that the value must be
    /// fetched from the provider and handed to `record_fetch`.
    pub fn read(&self, key: &StateKey) -> (r: Option<&StateValue>)
        requires
            self.wf(),
        ensures
            match r {
                Some(v) => visible(self.overlay_view(), self.fetched_view(), *key) == Some(*v),
                None => visible(self.overlay_view(), self.fetched_view(), *key) is None,
            },
    {
        match self.overlay.get(key) {
            Some(v) => Some(v),
            None => self.fetched.get(key),
        }
    }

    /// The number of fetched entries held for `key`: one once it has been
    /// fetched, else none.
    pub fn fetched_entries(&self, key: &StateKey) -> (r: usize)
        requires
            self.wf(),
        ensures
            r == (if self.fetched_view().contains_key(*key) { 1usize } else { 0usize }),
    {
        self.fetched.count_entries(key)
    }

    /// Takes what the provider answered for `key`. A value is cached (a value
    /// cached before is kept, as the pinned block never changes); a failure
    /// leaves the state as it was and becomes a state-fetch error.
    pub fn record_fetch(&mut self, key: StateKey, answer: Result<StateValue, String>) -> (r:
        Result<(), SimError>)
        requires
            old(self).wf(),
        ensures
            final(self).wf(),
            final(self).pinned() == old(self).pinned(),
            final(self).overlay_view() == old(self).overlay_view(),
            match answer {
                Ok(v) => r is Ok && final(self).fetched_view() == if old(
                    self,
                ).fetched_view().contains_key(key) {
                    old(self).fetched_view()
                } else {
                    old(self).fetched_view().insert(key, v)
                },
                Err(m) => r == Err::<(), SimError>(SimError::StateFetchFailure(m))
                    && final(self).fetched_view() == old(self).fetched_view(),
            },
    {
        match answer {
            Ok(v) => {
                self.fetched.insert_if_absent(key, v);
                Ok(())
            },
            Err(m) => Err(SimError::StateFetchFailure(m)),
        }
    }

    /// Writes the changes of a committed execution into the overlay, in order.
    pub fn commit(&mut self, changes: Vec<(StateKey, StateValue)>)
        requires
            old(self).wf(),
        ensures
            final(self).wf(),
            final(self).pinned() == old(self).pinned(),
            final(self).fetched_view() == old(self).fetched_view(),
            final(self).overlay_view() == apply_changes(old(self).overlay_view(), changes@),
    {
        let ghost all = changes@;
        let ghost n = changes@.len();
        let mut changes = changes;
        while changes.len() > 0
            invariant
                self.wf(),
                self.pinned() == old(self).pinned(),
                self.fetched_view() == old(self).fetched_view(),
                changes@.len() <= n,
                n == all.len(),
                changes@ == all.subrange(n - changes@.len(), n as int),
                self.overlay_view() == apply_changes(
                    old(self).overlay_view(),
                    all.subrange(0, n - changes@.len()),
                ),
            decreases changes@.len(),
        {
            let ghost done = n - changes@.len();
            let (k, v) = changes.remove(0);
            self.overlay.put(k, v);
            proof {
                let s = all.subrange(0, done + 1);
                assert(s.subrange(0, s.len() - 1) =~= all.subrange(0, done));
                assert(s[s.len() - 1] == all[done]);
                assert(changes@ =~= all.subrange(n - changes@.len(), n as int));
            }
        }
        proof {
            assert(all.subrange(0, n as int) =~= all);
        }
    }
}

} // verus!
