//! The statements that the cache keeps alive, the least recently used first.

use std::collections::VecDeque;
use vstd::prelude::*;

verus! {

/// How many statements the cache keeps alive.
pub const LRU_CAPACITY: usize = 1000;

/// Bounded LRU list that holds strong handles of statements. A statement is known by
/// its number.
#[derive(Debug)]
pub struct Lru<S> {
    held: VecDeque<(u64, S)>,
}

impl<S> View for Lru<S> {
    type V = Seq<(u64, S)>;

    closed spec fn view(&self) -> Seq<(u64, S)> {
        self.held@
    }
}

/// Whether an entry is that of a statement other than `id`.
pub open spec fn of_another<S>(id: u64) -> spec_fn((u64, S)) -> bool {
    |e: (u64, S)| e.0 != id
}

/// The list without the statement `id`.
pub open spec fn without<S>(lru: Seq<(u64, S)>, id: u64) -> Seq<(u64, S)> {
    lru.filter(of_another(id))
}

/// The list after a handle was added as the most recently used: where there are too
/// many, the least recently used one is given up.
pub open spec fn appended<S>(lru: Seq<(u64, S)>, id: u64, handle: S) -> Seq<(u64, S)> {
    let longer = lru.push((id, handle));
    if longer.len() > LRU_CAPACITY {
        longer.drop_first()
    } else {
        longer
    }
}

/// The handle that is given up when one is added.
pub open spec fn given_up<S>(lru: Seq<(u64, S)>, id: u64, handle: S) -> Option<S> {
    let longer = lru.push((id, handle));
    if longer.len() > LRU_CAPACITY {
        Some(longer[0].1)
    } else {
        None
    }
}

impl<S> Lru<S> {
    /// The list is within its bound.
    pub open spec fn wf(self) -> bool {
        self@.len() <= LRU_CAPACITY
    }

    /// An empty list.
    pub fn new() -> (lru: Self)
        ensures
            lru.wf(),
            lru@ == Seq::<(u64, S)>::empty(),
    {
        Lru { held: VecDeque::new() }
    }

    /// How many handles are held.
    pub fn len(&self) -> (n: usize)
        ensures
            n == self@.len(),
    {
        self.held.len()
    }

    /// Gives up all handles. They are for the caller to drop when it holds no lock.
    #[must_use]
    pub fn clear(&mut self) -> (held: VecDeque<(u64, S)>)
        ensures
            final(self).wf(),
            final(self)@ == Seq::<(u64, S)>::empty(),
            held@ == old(self)@,
    {
        let mut held: VecDeque<(u64, S)> = VecDeque::new();
        std::mem::swap(&mut held, &mut self.held);
        held
    }

    /// Adds a handle as the most recently used and returns the one that had to go.
    pub fn append(&mut self, id: u64, handle: S) -> (evicted: Option<S>)
        requires
            old(self).wf(),
        ensures
            final(self).wf(),
            final(self)@ == appended(old(self)@, id, handle),
            evicted == given_up(old(self)@, id, handle),
    {
        self.held.push_back((id, handle));
        if self.held.len() > LRU_CAPACITY {
            let ghost longer = self.held@;
            let evicted = self.held.pop_front();
            assert(self.held@ =~= longer.drop_first());
            match evicted {
                Some(entry) => Some(entry.1),
                None => None,
            }
        } else {
            None
        }
    }

    /// Removes every handle of a statement.
    fn retain_others(&mut self, id: u64)
        requires
            old(self).wf(),
        ensures
            final(self).wf(),
            final(self)@ == without(old(self)@, id),
    {
        let ghost all = self.held@;
        let ghost keep = of_another::<S>(id);
        let ghost mut seen: int = 0;
        let mut i: usize = 0;
        assert(all.take(0).filter(keep) =~= Seq::<(u64, S)>::empty()) by {
            reveal(Seq::filter);
        }
        assert(self.held@.take(0) =~= Seq::<(u64, S)>::empty());
        assert(self.held@.skip(0) =~= all.skip(0));
        while i < self.held.len()
            invariant
                0 <= seen <= all.len(),
                all.len() <= LRU_CAPACITY,
                i <= self.held@.len(),
                self.held@.len() - i == all.len() - seen,
                keep == of_another::<S>(id),
                self.held@.len() <= all.len(),
                self.held@.take(i as int) == all.take(seen).filter(keep),
                self.held@.skip(i as int) == all.skip(seen),
            decreases self.held@.len() - i,
        {
            let ghost before = self.held@;
            proof {
                assert(before[i as int] == before.skip(i as int)[0]);
                assert(all[seen] == all.skip(seen)[0]);
                reveal(Seq::filter);
                assert(all.take(seen + 1).drop_last() =~= all.take(seen));
                assert(all.take(seen + 1).last() == all[seen]);
            }
            if self.held[i].0 == id {
                let _gone = self.held.remove(i);
                assert(self.held@.take(i as int) =~= before.take(i as int));
                assert(self.held@.skip(i as int) =~= before.skip(i as int).skip(1));
            } else {
                i += 1;
                assert(self.held@.take(i as int) =~= before.take(i - 1).push(before[i - 1]));
                assert(self.held@.skip(i as int) =~= before.skip(i - 1).skip(1));
            }
            proof {
                assert(all.skip(seen).skip(1) =~= all.skip(seen + 1));
                seen = seen + 1;
            }
        }
        assert(self.held@.take(i as int) =~= self.held@);
        assert(all.take(seen) =~= all);
    }

    /// Makes a statement the most recently used one and returns the handle that had
    /// to go.
    pub fn promote(&mut self, id: u64, handle: S) -> (evicted: Option<S>)
        requires
            old(self).wf(),
        ensures
            final(self).wf(),
            final(self)@ == appended(without(old(self)@, id), id, handle),
            evicted == given_up(without(old(self)@, id), id, handle),
    {
        self.retain_others(id);
        self.append(id, handle)
    }
}

} // verus!
