//! Bounded pool of plosive transients.
//!
//! When an articulatory closure reopens, the tract injects a decaying impulse
//! at the cell that was obstructed.  The impulses live in a fixed slab of
//! `MAX_TRANSIENTS` slots with a stack of free slot ids: claiming a slot pops
//! the stack, releasing one pushes it back.  Appending to a full pool is
//! silently dropped.
//!
//! The host evaluates the impulse amplitude; this module owns which slots are
//! live, where each impulse sits, and how old it is.  Ages are counted in
//! waveguide half-steps (the tract runs two half-steps per output sample), so
//! an age of `k` half-steps stands for `k / (2 * samplerate)` seconds.

use vstd::prelude::*;
use vstd::seq_lib::*;
use vstd::set_lib::*;

verus! {

/// Capacity of the pool: at most this many transients are ever live at once.
pub const MAX_TRANSIENTS: usize = 32;

/// One impulse source, injected into both traveling waves at `position`.
#[derive(Clone, Copy, PartialEq, Eq, Structural, Debug)]
pub struct Transient {
    /// Oral tract cell the impulse feeds.
    pub position: usize,
    /// Half-steps lived so far.
    pub age: u64,
    /// Whether this slot is unclaimed.
    pub is_free: bool,
    /// Slot index in the pool.
    pub id: usize,
}

impl Transient {
    /// A fresh, unclaimed slot carrying the given id.
    pub fn new(id: usize) -> (t: Transient)
        ensures
            t == (Transient { position: 0, age: 0, is_free: true, id }),
    {
        Transient { position: 0, age: 0, is_free: true, id }
    }
}

/// The live entries of a slot sequence, in slot order.
pub open spec fn live_slots(s: Seq<Transient>) -> Seq<Transient> {
    s.filter(|t: Transient| !t.is_free)
}

/// How many slots of `s` are free.
pub open spec fn free_count(s: Seq<Transient>) -> int
    decreases s.len(),
{
    if s.len() == 0 {
        0
    } else {
        free_count(s.drop_last()) + (if s.last().is_free {
            1int
        } else {
            0int
        })
    }
}

/// The indices of the free slots of `s`.
pub open spec fn free_index_set(s: Seq<Transient>) -> Set<int> {
    Set::new(|i: int| 0 <= i < s.len() && s[i].is_free)
}

/// Every slot is live or free, so dropping the free slots leaves exactly
/// `len - free_count` entries.
proof fn lemma_live_slots_len(s: Seq<Transient>)
    ensures
        live_slots(s).len() == s.len() - free_count(s),
        0 <= free_count(s) <= s.len(),
    decreases s.len(),
{
    reveal(Seq::filter);
    if s.len() > 0 {
        lemma_live_slots_len(s.drop_last());
    }
}

/// The free-slot count of a sequence is the size of its free-index set.
proof fn lemma_free_index_set_count(s: Seq<Transient>)
    ensures
        free_index_set(s).finite(),
        free_index_set(s).len() == free_count(s),
    decreases s.len(),
{
    broadcast use vstd::set::group_set_axioms;

    if s.len() == 0 {
        assert(free_index_set(s) =~= Set::empty());
    } else {
        let rest = s.drop_last();
        lemma_free_index_set_count(rest);
        if s.last().is_free {
            assert(free_index_set(s) =~= free_index_set(rest).insert(s.len() - 1));
        } else {
            assert(free_index_set(s) =~= free_index_set(rest));
        }
    }
}

/// A sequence with no live entries has only free slots.
proof fn lemma_no_live_slots(s: Seq<Transient>)
    requires
        live_slots(s).len() == 0,
    ensures
        forall|i: int| 0 <= i < s.len() ==> (#[trigger] s[i]).is_free,
    decreases s.len(),
{
    reveal(Seq::filter);
    if s.len() > 0 {
        if !s.last().is_free {
            assert(live_slots(s) == live_slots(s.drop_last()).push(s.last()));
            assert(false);
        }
        lemma_no_live_slots(s.drop_last());
        assert forall|i: int| 0 <= i < s.len() implies (#[trigger] s[i]).is_free by {
            if i < s.len() - 1 {
                assert(s.drop_last()[i] == s[i]);
            }
        }
    }
}

/// A sequence whose only live entry sits at `j` filters down to that entry.
proof fn lemma_single_live_slot(s: Seq<Transient>, j: int)
    requires
        0 <= j < s.len(),
        !s[j].is_free,
        forall|i: int| 0 <= i < s.len() && i != j ==> (#[trigger] s[i]).is_free,
    ensures
        live_slots(s) =~= seq![s[j]],
    decreases s.len(),
{
    reveal(Seq::filter);
    if j == s.len() - 1 {
        lemma_all_free_slots(s.drop_last());
    } else {
        lemma_single_live_slot(s.drop_last(), j);
    }
}

/// A sequence of free slots alone has no live entries.
proof fn lemma_all_free_slots(s: Seq<Transient>)
    requires
        forall|i: int| 0 <= i < s.len() ==> (#[trigger] s[i]).is_free,
    ensures
        live_slots(s).len() == 0,
    decreases s.len(),
{
    reveal(Seq::filter);
    if s.len() > 0 {
        lemma_all_free_slots(s.drop_last());
    }
}

/// Fixed slab of transient slots plus a stack of free slot ids.
pub struct TransientPool {
    pub pool: Vec<Transient>,
    pub free_ids: Vec<usize>,
}

impl TransientPool {
    /// Well-formedness: the slab has exactly `MAX_TRANSIENTS` slots, slot `i`
    /// carries id `i`, and the free stack lists exactly the free slots, each
    /// once.
    pub open spec fn wf(self) -> bool {
        &&& self.pool@.len() == MAX_TRANSIENTS
        &&& forall|i: int| 0 <= i < MAX_TRANSIENTS ==> (#[trigger] self.pool@[i]).id == i
        &&& forall|j: int|
            0 <= j < self.free_ids@.len() ==> (#[trigger] self.free_ids@[j]) < MAX_TRANSIENTS
        &&& forall|j: int|
            0 <= j < self.free_ids@.len()
                ==> self.pool@[#[trigger] self.free_ids@[j] as int].is_free
        &&& forall|i: int|
            0 <= i < MAX_TRANSIENTS && (#[trigger] self.pool@[i]).is_free
                ==> self.free_ids@.contains(i as usize)
        &&& self.free_ids@.no_duplicates()
    }

    /// Two pools hold the same state when their slabs and free stacks agree.
    pub open spec fn same_state(self, other: TransientPool) -> bool {
        self.pool@ == other.pool@ && self.free_ids@ == other.free_ids@
    }

    /// Number of live transients: slab capacity less the free slots.
    pub open spec fn spec_size(self) -> int {
        MAX_TRANSIENTS - self.free_ids@.len()
    }

    /// How `append(position)` relates a pool to its successor: with a slot
    /// free, the top of the free stack is claimed for a fresh transient at
    /// `position`; with none, nothing changes.
    pub open spec fn append_rel(self, post: TransientPool, position: usize) -> bool {
        if self.spec_size() < MAX_TRANSIENTS {
            let id = self.free_ids@.last();
            &&& post.free_ids@ == self.free_ids@.drop_last()
            &&& post.pool@ == self.pool@.update(
                id as int,
                (Transient { position, age: 0, is_free: false, id }),
            )
        } else {
            post.same_state(self)
        }
    }

    /// The live transients, in slot order.
    pub open spec fn spec_valid(self) -> Seq<Transient> {
        live_slots(self.pool@)
    }

    /// The pool never holds more than `MAX_TRANSIENTS` live transients: the
    /// free stack lists distinct slots of a `MAX_TRANSIENTS`-slot slab, so its
    /// length never passes the capacity.
    pub proof fn lemma_size_bounded(self)
        requires
            self.wf(),
        ensures
            self.free_ids@.len() <= MAX_TRANSIENTS,
            0 <= self.spec_size() <= MAX_TRANSIENTS,
    {
        let f = |x: usize| x as int;
        let ids = self.free_ids@.map_values(f);
        assert(vstd::relations::injective(f));
        self.free_ids@.lemma_no_duplicates_injective(f);
        ids.unique_seq_to_set();
        let range = set_int_range(0, MAX_TRANSIENTS as int);
        lemma_int_range(0, MAX_TRANSIENTS as int);
        assert forall|x: int| ids.to_set().contains(x) implies range.contains(x) by {
            let j = choose|j: int| 0 <= j < ids.len() && ids[j] == x;
            assert(self.free_ids@[j] < MAX_TRANSIENTS);
        }
        lemma_len_subset(ids.to_set(), range);
    }

    /// `size` truly counts the live transients: in a well-formed pool the
    /// free stack and the slab agree, so the capacity less the stack's length
    /// equals the number of live slots.
    pub proof fn lemma_size_counts_live(self)
        requires
            self.wf(),
        ensures
            self.spec_valid().len() == self.spec_size(),
    {
        broadcast use vstd::set::group_set_axioms;

        let f = |x: usize| x as int;
        let ids = self.free_ids@.map_values(f);
        assert(vstd::relations::injective(f));
        self.free_ids@.lemma_no_duplicates_injective(f);
        ids.unique_seq_to_set();
        lemma_live_slots_len(self.pool@);
        lemma_free_index_set_count(self.pool@);
        assert forall|x: int| free_index_set(self.pool@).contains(x) implies ids.to_set().contains(
            x,
        ) by {
            assert(self.pool@[x].is_free);
            assert(self.free_ids@.contains(x as usize));
            let j = choose|j: int|
                0 <= j < self.free_ids@.len() && self.free_ids@[j] == x as usize;
            assert(ids[j] == x);
            assert(ids.contains(x));
        }
        assert forall|x: int| ids.to_set().contains(x) implies free_index_set(
            self.pool@,
        ).contains(x) by {
            let j = choose|j: int| 0 <= j < ids.len() && ids[j] == x;
            assert(self.free_ids@[j] < MAX_TRANSIENTS);
            assert(self.pool@[self.free_ids@[j] as int].is_free);
        }
        assert(free_index_set(self.pool@) =~= ids.to_set());
    }

    /// A transient appended to an empty pool is the only live one, and sits
    /// at the given cell: the block after a plosive release starts with
    /// exactly one burst source, at the cell that reopened.
    pub proof fn lemma_append_into_empty(self, post: TransientPool, position: usize)
        requires
            self.wf(),
            self.spec_size() == 0,
            self.append_rel(post, position),
        ensures
            post.spec_valid().len() == 1,
            post.spec_valid()[0].position == position,
    {
        self.lemma_size_counts_live();
        lemma_no_live_slots(self.pool@);
        let id = self.free_ids@.last();
        lemma_single_live_slot(post.pool@, id as int);
    }

    /// An empty pool: all slots free, the free stack holding ids in
    /// descending order so that slot 0 is claimed first.
    pub fn new() -> (p: TransientPool)
        ensures
            p.wf(),
            p.spec_size() == 0,
            forall|i: int|
                0 <= i < MAX_TRANSIENTS ==> (#[trigger] p.pool@[i]) == (Transient {
                    position: 0,
                    age: 0,
                    is_free: true,
                    id: i as usize,
                }),
            p.free_ids@.len() == MAX_TRANSIENTS,
            forall|j: int|
                0 <= j < MAX_TRANSIENTS ==> (#[trigger] p.free_ids@[j]) == (MAX_TRANSIENTS - 1
                    - j) as usize,
    {
        let mut pool: Vec<Transient> = Vec::with_capacity(MAX_TRANSIENTS);
        let mut free_ids: Vec<usize> = Vec::with_capacity(MAX_TRANSIENTS);
        let mut i: usize = 0;
        while i < MAX_TRANSIENTS
            invariant
                i <= MAX_TRANSIENTS,
                pool@.len() == i,
                free_ids@.len() == i,
                forall|k: int|
                    0 <= k < i ==> (#[trigger] pool@[k]) == (Transient {
                        position: 0,
                        age: 0,
                        is_free: true,
                        id: k as usize,
                    }),
                forall|k: int|
                    0 <= k < i ==> (#[trigger] free_ids@[k]) == (MAX_TRANSIENTS - 1 - k) as usize,
            decreases MAX_TRANSIENTS - i,
        {
            pool.push(Transient::new(i));
            free_ids.push(MAX_TRANSIENTS - 1 - i);
            i = i + 1;
        }
        let p = TransientPool { pool, free_ids };
        proof {
            assert forall|i: int|
                0 <= i < MAX_TRANSIENTS && (#[trigger] p.pool@[i]).is_free implies p
                .free_ids@.contains(i as usize) by {
                assert(p.free_ids@[MAX_TRANSIENTS - 1 - i] == i as usize);
            }
        }
        p
    }

    /// Claim a free slot for an impulse at `position`; with no slot free, the
    /// request is silently dropped.  A claimed slot starts at age 0.
    pub fn append(&mut self, position: usize)
        requires
            old(self).wf(),
        ensures
            final(self).wf(),
            old(self).append_rel(*final(self), position),
            old(self).spec_size() < MAX_TRANSIENTS ==> final(self).spec_size() == old(
                self,
            ).spec_size() + 1,
            old(self).spec_size() == MAX_TRANSIENTS ==> final(self).same_state(*old(self)),
    {
        proof {
            self.lemma_size_bounded();
        }
        let popped = self.free_ids.pop();
        if let Some(free_id) = popped {
            let t = Transient { position, age: 0, is_free: false, id: free_id };
            self.pool.set(free_id, t);
            proof {
                let pre = *old(self);
                assert(final(self).free_ids@ =~= pre.free_ids@.drop_last());
                assert forall|i: int|
                    0 <= i < MAX_TRANSIENTS && (#[trigger] self.pool@[i]).is_free implies self
                    .free_ids@.contains(i as usize) by {
                    assert(pre.free_ids@.contains(i as usize));
                    let j = choose|j: int|
                        0 <= j < pre.free_ids@.len() && pre.free_ids@[j] == i as usize;
                    assert(j < pre.free_ids@.len() - 1);
                    assert(self.free_ids@[j] == i as usize);
                }
            }
        }
    }

    /// Release slot `id` back to the free stack; releasing a slot that is
    /// already free is a no-op.
    pub fn remove(&mut self, id: usize)
        requires
            old(self).wf(),
            id < MAX_TRANSIENTS,
        ensures
            final(self).wf(),
            old(self).pool@[id as int].is_free ==> final(self).same_state(*old(self)),
            !old(self).pool@[id as int].is_free ==> {
                &&& final(self).pool@ == old(self).pool@.update(
                    id as int,
                    (Transient { is_free: true, ..old(self).pool@[id as int] }),
                )
                &&& final(self).free_ids@ == old(self).free_ids@.push(id)
                &&& final(self).spec_size() == old(self).spec_size() - 1
            },
    {
        if !self.pool[id].is_free {
            let t = Transient { is_free: true, ..self.pool[id] };
            self.pool.set(id, t);
            self.free_ids.push(id);
            proof {
                let pre = *old(self);
                assert forall|i: int|
                    0 <= i < MAX_TRANSIENTS && (#[trigger] self.pool@[i]).is_free implies self
                    .free_ids@.contains(i as usize) by {
                    if i == id {
                        assert(self.free_ids@.last() == id);
                    } else {
                        assert(pre.free_ids@.contains(i as usize));
                        let j = choose|j: int|
                            0 <= j < pre.free_ids@.len() && pre.free_ids@[j] == i as usize;
                        assert(self.free_ids@[j] == i as usize);
                    }
                }
                assert forall|j: int|
                    0 <= j < self.free_ids@.len() implies self.pool@[#[trigger] self
                    .free_ids@[j] as int].is_free by {
                    if j < pre.free_ids@.len() {
                        assert(pre.pool@[pre.free_ids@[j] as int].is_free);
                        assert(pre.free_ids@[j] != id);
                    }
                }
            }
        }
    }

    /// Number of live transients.
    pub fn size(&self) -> (s: usize)
        requires
            self.wf(),
        ensures
            s == self.spec_size(),
            s == self.spec_valid().len(),
    {
        proof {
            self.lemma_size_bounded();
            self.lemma_size_counts_live();
        }
        MAX_TRANSIENTS - self.free_ids.len()
    }

    /// Snapshot of the live transients, in slot order.
    pub fn get_valid_transients(&self) -> (v: Vec<Transient>)
        ensures
            v@ == self.spec_valid(),
    {
        let pred = |t: Transient| !t.is_free;
        let mut v: Vec<Transient> = Vec::new();
        let mut i: usize = 0;
        while i < self.pool.len()
            invariant
                i <= self.pool@.len(),
                v@ == live_slots(self.pool@.subrange(0, i as int)),
            decreases self.pool@.len() - i,
        {
            let t = self.pool[i];
            if !t.is_free {
                v.push(t);
            }
            proof {
                reveal(Seq::filter);
                let prefix = self.pool@.subrange(0, i + 1);
                assert(prefix.drop_last() =~= self.pool@.subrange(0, i as int));
                assert(prefix.last() == self.pool@[i as int]);
            }
            i = i + 1;
        }
        proof {
            assert(self.pool@.subrange(0, self.pool@.len() as int) =~= self.pool@);
        }
        v
    }

    /// Advance the transient in slot `id` by one half-step; when its age
    /// passes `lifetime` half-steps the slot is released.  Reports whether the
    /// slot was released.  Aging a free slot is a no-op.
    pub fn age_transient(&mut self, id: usize, lifetime: u64) -> (expired: bool)
        requires
            old(self).wf(),
            id < MAX_TRANSIENTS,
        ensures
            final(self).wf(),
            old(self).pool@[id as int].is_free ==> final(self).same_state(*old(self)) && !expired,
            !old(self).pool@[id as int].is_free && old(self).pool@[id as int].age >= lifetime ==> {
                &&& expired
                &&& final(self).pool@ == old(self).pool@.update(
                    id as int,
                    (Transient { is_free: true, ..old(self).pool@[id as int] }),
                )
                &&& final(self).free_ids@ == old(self).free_ids@.push(id)
            },
            !old(self).pool@[id as int].is_free && old(self).pool@[id as int].age < lifetime ==> {
                &&& !expired
                &&& final(self).pool@ == old(self).pool@.update(
                    id as int,
                    (Transient {
                        age: (old(self).pool@[id as int].age + 1) as u64,
                        ..old(self).pool@[id as int]
                    }),
                )
                &&& final(self).free_ids@ == old(self).free_ids@
            },
    {
        if self.pool[id].is_free {
            false
        } else if self.pool[id].age >= lifetime {
            self.remove(id);
            true
        } else {
            let t = Transient { age: self.pool[id].age + 1, ..self.pool[id] };
            self.pool.set(id, t);
            proof {
                let pre = *old(self);
                assert forall|i: int|
                    0 <= i < MAX_TRANSIENTS && (#[trigger] self.pool@[i]).is_free implies self
                    .free_ids@.contains(i as usize) by {
                    assert(pre.pool@[i].is_free);
                }
            }
            false
        }
    }
}

} // verus!
