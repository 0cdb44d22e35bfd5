//! A container that associates incrementing IDs to the stored items.

use vstd::prelude::*;
use core::marker::PhantomData;

verus! {

/// An index for accessing a `T` stored in an `IdxSet`.
///
/// `Idx` is tagged with the type is refers to via its type parameter `T`, but doesn't contain a `T`
/// by itself (it's just a small index). This helps against accidental use of an `Idx` created by an
/// unrelated `IdxSet`.
pub struct Idx<T> {
    val: u32,
    phantom: PhantomData<T>,
}

impl<T> View for Idx<T> {
    type V = u32;

    closed spec fn view(&self) -> u32 {
        self.val
    }
}

impl<T> Idx<T> {
    /// Get the raw `u32` inside this `Idx`.
    pub fn value(&self) -> (val: u32)
        ensures
            val == self@,
    {
        self.val
    }

    /// The index with the given raw value.
    pub fn from_raw(val: u32) -> (idx: Idx<T>)
        ensures
            idx@ == val,
            idx == spec_idx::<T>(val),
    {
        Idx { val, phantom: PhantomData }
    }
}

impl<T> Clone for Idx<T> {
    fn clone(&self) -> (r: Self)
        ensures
            r@ == self@,
    {
        Idx { val: self.val, phantom: PhantomData }
    }
}

impl<T> Copy for Idx<T> {

}

/// The index with the given raw value.
pub closed spec fn spec_idx<T>(val: u32) -> Idx<T> {
    Idx { val, phantom: PhantomData }
}

/// The items of an `IdxSet` with their indices, in the order in which they were allocated.
pub type IdxEntries<T> = Seq<(u32, T)>;

/// Whether the indices increase strictly, so that none occurs twice, and all lie below `next`,
/// the index that is allocated next.
pub open spec fn valid_entries<T>(s: IdxEntries<T>, next: u32) -> bool {
    &&& forall|i: int, j: int| #![trigger s[i], s[j]] 0 <= i < j < s.len() ==> s[i].0 < s[j].0
    &&& forall|i: int| #![trigger s[i]] 0 <= i < s.len() ==> s[i].0 < next
}

/// The place of the item with index `id`, if there is one.
pub open spec fn spec_place<T>(s: IdxEntries<T>, id: u32) -> Option<int> {
    if exists|i: int| 0 <= i < s.len() && (#[trigger] s[i]).0 == id {
        Some(choose|i: int| 0 <= i < s.len() && (#[trigger] s[i]).0 == id)
    } else {
        None
    }
}

/// Among valid entries the place of an index is the only place where it stands.
pub proof fn lemma_place_unique<T>(s: IdxEntries<T>, next: u32, id: u32, i: int)
    requires
        valid_entries(s, next),
        0 <= i < s.len(),
        s[i].0 == id,
    ensures
        spec_place(s, id) == Some(i),
{
    let j = choose|j: int| 0 <= j < s.len() && (#[trigger] s[j]).0 == id;
    if j < i {
        assert(s[j].0 < s[i].0);
    } else if i < j {
        assert(s[i].0 < s[j].0);
    }
}

/// Valid entries stay valid when the item at a place is replaced and its index is kept.
pub proof fn lemma_update_valid<T>(s: IdxEntries<T>, next: u32, i: int, value: T)
    requires
        valid_entries(s, next),
        0 <= i < s.len(),
    ensures
        valid_entries(s.update(i, (s[i].0, value)), next),
        spec_place(s.update(i, (s[i].0, value)), s[i].0) == Some(i),
{
    let t = s.update(i, (s[i].0, value));
    assert forall|a: int, b: int| #![trigger t[a], t[b]] 0 <= a < b < t.len() implies t[a].0
        < t[b].0 by {
        assert(t[a].0 == s[a].0 && t[b].0 == s[b].0);
    }
    assert forall|a: int| #![trigger t[a]] 0 <= a < t.len() implies t[a].0 < next by {
        assert(t[a].0 == s[a].0);
    }
    lemma_place_unique(t, next, s[i].0, i);
}

/// A container of `T`s, where each `T` is associated with an ID.
///
/// IDs (`Idx`) are local to the `IdxSet` that created them. An `IdxSet` will never associate
/// multiple items with the same `Idx`, even when items are removed (indices are monotonically
/// increasing).
pub struct IdxSet<T> {
    /// The indices of the items, which increase strictly.
    ids: Vec<u32>,
    /// The items, each at the place of its index.
    values: Vec<T>,
    next_idx: u32,
}

impl<T> View for IdxSet<T> {
    type V = IdxEntries<T>;

    closed spec fn view(&self) -> IdxEntries<T> {
        Seq::new(self.ids@.len(), |i: int| (self.ids@[i], self.values@[i]))
    }
}

/// A key-value entry (or index-value entry) in an `IdxSet`.
pub struct Entry<'a, T> {
    idx: Idx<T>,
    t: &'a T,
}

impl<'a, T> Entry<'a, T> {
    /// The raw index of the entry.
    pub closed spec fn spec_idx(&self) -> u32 {
        self.idx@
    }

    /// The value of the entry.
    pub closed spec fn spec_value(&self) -> T {
        *self.t
    }

    /// Get the index associated with the value.
    pub fn idx(&self) -> (idx: Idx<T>)
        ensures
            idx@ == self.spec_idx(),
    {
        self.idx
    }

    /// Get a reference to the value in the `IdxSet`.
    pub fn value(&self) -> (value: &'a T)
        ensures
            *value == self.spec_value(),
    {
        self.t
    }
}

impl<T> IdxSet<T> {
    #[verifier::type_invariant]
    spec fn well_formed(&self) -> bool {
        &&& self.ids@.len() == self.values@.len()
        &&& forall|i: int, j: int| 0 <= i < j < self.ids@.len() ==> self.ids@[i] < self.ids@[j]
        &&& forall|i: int| 0 <= i < self.ids@.len() ==> self.ids@[i] < self.next_idx
    }

    /// The entries of a well-formed set are valid.
    proof fn lemma_valid(&self)
        requires
            self.well_formed(),
        ensures
            valid_entries(self@, self.next_idx),
            self@.len() == self.ids@.len(),
    {
    }

    /// The raw index that is allocated next. It is above every index that was allocated before.
    pub closed spec fn spec_next_idx(&self) -> u32 {
        self.next_idx
    }

    /// Creates a new, empty `IdxSet`.
    pub fn new() -> (set: IdxSet<T>)
        ensures
            set@ == IdxEntries::<T>::empty(),
            set.spec_next_idx() == 0,
    {
        let set = IdxSet { ids: Vec::new(), values: Vec::new(), next_idx: 0 };
        assert(set@ =~= IdxEntries::<T>::empty());
        set
    }

    /// Tells whether all indices were allocated, so that no item can be added.
    pub fn is_exhausted(&self) -> (r: bool)
        ensures
            r == (self.spec_next_idx() == u32::MAX),
            valid_entries(self@, self.spec_next_idx()),
    {
        proof {
            use_type_invariant(self);
            self.lemma_valid();
        }
        self.next_idx == u32::MAX
    }

    /// Finds the place of the item with the given raw index.
    #[verifier::loop_isolation(false)]
    #[verifier::rlimit(40)]
    fn find(&self, id: u32) -> (r: Option<usize>)
        ensures
            match r {
                Some(i) => i < self@.len() && self@[i as int].0 == id && spec_place(self@, id)
                    == Some(i as int),
                None => spec_place(self@, id) is None,
            },
            valid_entries(self@, self.spec_next_idx()),
            self@.len() == self.ids@.len(),
            self.ids@.len() == self.values@.len(),
    {
        proof {
            use_type_invariant(self);
            self.lemma_valid();
        }
        let mut lo: usize = 0;
        let mut hi: usize = self.ids.len();
        while lo < hi
            invariant
                0 <= lo <= hi <= self.ids@.len(),
                self@.len() == self.ids@.len(),
                valid_entries(self@, self.next_idx),
                forall|j: int| #![trigger self@[j]] 0 <= j < lo ==> self@[j].0 < id,
                forall|j: int| #![trigger self@[j]] hi <= j < self@.len() ==> self@[j].0 > id,
            decreases hi - lo,
        {
            let mid = lo + (hi - lo) / 2;
            let found = self.ids[mid];
            proof {
                assert(self@[mid as int].0 == found);
            }
            if found == id {
                proof {
                    lemma_place_unique(self@, self.next_idx, id, mid as int);
                }
                return Some(mid);
            } else if found < id {
                proof {
                    assert forall|j: int| #![trigger self@[j]] 0 <= j < mid + 1 implies self@[j].0
                        < id by {
                        if j < mid {
                            assert(self@[j].0 < self@[mid as int].0);
                        }
                    }
                }
                lo = mid + 1;
            } else {
                proof {
                    assert forall|j: int| #![trigger self@[j]] mid <= j < self@.len() implies self@[j].0
                        > id by {
                        if j > mid {
                            assert(self@[mid as int].0 < self@[j].0);
                        }
                    }
                }
                hi = mid;
            }
        }
        proof {
            if spec_place(self@, id) is Some {
                let i = spec_place(self@, id)->Some_0;
                assert(self@[i].0 == id);
            }
        }
        None
    }

    /// The index that the next item gets. It is above every index that this `IdxSet` allocated
    /// before.
    pub fn next_idx(&self) -> (idx: Idx<T>)
        ensures
            idx@ == self.spec_next_idx(),
            idx == spec_idx::<T>(idx@),
            spec_place(self@, idx@) is None,
    {
        proof {
            use_type_invariant(self);
            self.lemma_valid();
            if spec_place(self@, self.next_idx) is Some {
                let i = spec_place(self@, self.next_idx)->Some_0;
                assert(self@[i].0 < self.next_idx);
            }
        }
        Idx { val: self.next_idx, phantom: PhantomData }
    }

    /// Adds an item, which gets the next index. The set must not be exhausted.
    #[verifier::rlimit(40)]
    pub fn insert_next(&mut self, value: T) -> (idx: Idx<T>)
        requires
            old(self).spec_next_idx() < u32::MAX,
        ensures
            idx@ == old(self).spec_next_idx(),
            final(self).spec_next_idx() == old(self).spec_next_idx() + 1,
            final(self)@ == old(self)@.push((idx@, value)),
            spec_place(old(self)@, idx@) is None,
            spec_place(final(self)@, idx@) == Some(old(self)@.len() as int),
            valid_entries(final(self)@, final(self).spec_next_idx()),
    {
        proof {
            use_type_invariant(&*self);
            self.lemma_valid();
        }
        let ghost before = self@;
        let mut taken: IdxSet<T> = IdxSet::new();
        core::mem::swap(self, &mut taken);
        let IdxSet { ids, values, next_idx } = taken;
        let mut ids = ids;
        let mut values = values;
        let ghost ids_before = ids@;
        ids.push(next_idx);
        values.push(value);
        let ghost after = Seq::new(ids@.len(), |i: int| (ids@[i], values@[i]));
        proof {
            assert(after =~= before.push((next_idx, value)));
            assert forall|i: int, j: int| 0 <= i < j < ids@.len() implies ids@[i] < ids@[j] by {
                assert(ids@[i] == ids_before[i]);
                if j < ids_before.len() {
                    assert(ids@[j] == ids_before[j]);
                }
            }
            assert forall|i: int| 0 <= i < ids@.len() implies ids@[i] < next_idx + 1 by {
                if i < ids_before.len() {
                    assert(ids@[i] == ids_before[i]);
                }
            }
            if spec_place(before, next_idx) is Some {
                let i = spec_place(before, next_idx)->Some_0;
                assert(before[i].0 < next_idx);
            }
        }
        *self = IdxSet { ids, values, next_idx: next_idx + 1 };
        proof {
            self.lemma_valid();
            lemma_place_unique(self@, self.next_idx, next_idx, before.len() as int);
        }
        Idx { val: next_idx, phantom: PhantomData }
    }

    /// Allocate an object in the `IdxSet` by calling a closure with a newly allocated `Idx`.
    ///
    /// The index is above every index that this `IdxSet` allocated before. The set must not be
    /// exhausted.
    pub fn allocate<F: FnOnce(Idx<T>) -> T>(&mut self, f: F) -> (entry: Entry<'_, T>)
        requires
            old(self).spec_next_idx() < u32::MAX,
            forall|idx: Idx<T>| idx@ == old(self).spec_next_idx() ==> #[trigger] f.requires((idx,)),
        ensures
            entry.spec_idx() == old(self).spec_next_idx(),
            final(self).spec_next_idx() == old(self).spec_next_idx() + 1,
            final(self)@ == old(self)@.push((entry.spec_idx(), entry.spec_value())),
            f.ensures((spec_idx(entry.spec_idx()),), entry.spec_value()),
            spec_place(old(self)@, entry.spec_idx()) is None,
            valid_entries(final(self)@, final(self).spec_next_idx()),
    {
        let idx = self.next_idx();
        let value = f(idx);
        let allocated = self.insert_next(value);
        proof {
            use_type_invariant(&*self);
            self.lemma_valid();
            assert(self@.last() == (self.ids@.last(), self.values@.last()));
        }
        let place = self.values.len() - 1;
        Entry { idx: allocated, t: &self.values[place] }
    }

    /// Looks up the value associated with `idx` and returns a reference to it.
    ///
    /// If the value has been removed from the `IdxSet`, returns `None`. If no value was ever
    /// associated with `idx`, also returns `None`.
    pub fn get(&self, idx: Idx<T>) -> (r: Option<&T>)
        ensures
            match r {
                Some(value) => spec_place(self@, idx@) matches Some(i) && self@[i] == (idx@, *value),
                None => spec_place(self@, idx@) is None,
            },
    {
        match self.find(idx.val) {
            Some(i) => Some(&self.values[i]),
            None => None,
        }
    }

    /// Looks up the value associated with `idx` and returns a mutable reference to it.
    pub fn get_mut(&mut self, idx: Idx<T>) -> (r: Option<&mut T>)
        ensures
            final(self).spec_next_idx() == old(self).spec_next_idx(),
            match r {
                Some(value) => spec_place(old(self)@, idx@) matches Some(i) && old(self)@[i] == (
                    idx@,
                    *value,
                ) && final(self)@ == old(self)@.update(i, (idx@, *final(value))),
                None => spec_place(old(self)@, idx@) is None && final(self)@ == old(self)@,
            },
            valid_entries(old(self)@, old(self).spec_next_idx()),
    {
        proof {
            use_type_invariant(&*self);
        }
        match self.find(idx.val) {
            Some(i) => Some(&mut self.values[i]),
            None => None,
        }
    }

    /// Removes the value associated with `idx`.
    #[verifier::rlimit(40)]
    pub fn remove(&mut self, idx: Idx<T>) -> (r: Option<T>)
        ensures
            final(self).spec_next_idx() == old(self).spec_next_idx(),
            match r {
                Some(value) => spec_place(old(self)@, idx@) matches Some(i) && old(self)@[i] == (
                    idx@,
                    value,
                ) && final(self)@ == old(self)@.remove(i),
                None => spec_place(old(self)@, idx@) is None && final(self)@ == old(self)@,
            },
            spec_place(final(self)@, idx@) is None,
            valid_entries(final(self)@, final(self).spec_next_idx()),
    {
        proof {
            use_type_invariant(&*self);
        }
        let found = self.find(idx.val);
        match found {
            None => None,
            Some(i) => {
                let ghost before = self@;
                let mut taken: IdxSet<T> = IdxSet::new();
                core::mem::swap(self, &mut taken);
                let IdxSet { ids, values, next_idx } = taken;
                let mut ids = ids;
                let mut values = values;
                let ghost ids_before = ids@;
                let removed_id = ids.remove(i);
                let removed = values.remove(i);
                proof {
                    assert forall|a: int, b: int| 0 <= a < b < ids@.len() implies ids@[a]
                        < ids@[b] by {
                        let a0 = if a < i {
                            a
                        } else {
                            a + 1
                        };
                        let b0 = if b < i {
                            b
                        } else {
                            b + 1
                        };
                        assert(ids@[a] == ids_before[a0] && ids@[b] == ids_before[b0]);
                    }
                    assert forall|a: int| 0 <= a < ids@.len() implies ids@[a] < next_idx by {
                        let a0 = if a < i {
                            a
                        } else {
                            a + 1
                        };
                        assert(ids@[a] == ids_before[a0]);
                    }
                }
                let ghost after = Seq::new(ids@.len(), |k: int| (ids@[k], values@[k]));
                proof {
                    assert(after =~= before.remove(i as int));
                    assert forall|a: int, b: int| #![trigger after[a], after[b]] 0 <= a < b < after.len() implies after[a].0
                        < after[b].0 by {
                        let a0 = if a < i {
                            a
                        } else {
                            a + 1
                        };
                        let b0 = if b < i {
                            b
                        } else {
                            b + 1
                        };
                        assert(after[a] == before[a0] && after[b] == before[b0]);
                        assert(before[a0].0 < before[b0].0);
                    }
                    assert forall|a: int| #![trigger after[a]] 0 <= a < after.len() implies after[a].0
                        < next_idx by {
                        let a0 = if a < i {
                            a
                        } else {
                            a + 1
                        };
                        assert(after[a] == before[a0]);
                        assert(before[a0].0 < next_idx);
                    }
                    assert forall|a: int| 0 <= a < after.len() implies (#[trigger] after[a]).0
                        != idx.val by {
                        let a0 = if a < i {
                            a
                        } else {
                            a + 1
                        };
                        assert(after[a] == before[a0]);
                        if a0 < i {
                            assert(before[a0].0 < before[i as int].0);
                        } else {
                            assert(before[i as int].0 < before[a0].0);
                        }
                    }
                }
                *self = IdxSet { ids, values, next_idx };
                Some(removed)
            },
        }
    }

    /// Returns the number of values that are currently stored inside the `IdxSet`.
    pub fn len(&self) -> (n: usize)
        ensures
            n == self@.len(),
    {
        self.ids.len()
    }

    /// The values that are stored, in the order of their indices.
    #[verifier::loop_isolation(false)]
    pub fn iter(&self) -> (values: Vec<&T>)
        ensures
            values@.len() == self@.len(),
            forall|i: int| 0 <= i < values@.len() ==> *values@[i] == self@[i].1,
            valid_entries(self@, self.spec_next_idx()),
    {
        proof {
            use_type_invariant(self);
            self.lemma_valid();
        }
        let mut values: Vec<&T> = Vec::new();
        let mut i: usize = 0;
        while i < self.values.len()
            invariant
                0 <= i <= self.values@.len(),
                values@.len() == i,
                forall|j: int| 0 <= j < i ==> *values@[j] == self.values@[j],
            decreases self.values@.len() - i,
        {
            values.push(&self.values[i]);
            i = i + 1;
        }
        values
    }

    /// The index of the value at the given place, counted in the order of the indices.
    pub fn idx_at(&self, place: usize) -> (idx: Idx<T>)
        requires
            place < self@.len(),
        ensures
            idx@ == self@[place as int].0,
    {
        proof {
            use_type_invariant(self);
        }
        Idx { val: self.ids[place], phantom: PhantomData }
    }
}

/// What is done to an `IdxSet`, as far as it matters to the indices.
pub enum IdxOp {
    /// An item is allocated.
    Allocate,
    /// The item with the given raw index is asked for or removed.
    Other(u32),
}

/// The raw indices that are allocated, in their order, when operations are done one after the
/// other on a set whose next raw index is `next`.
pub open spec fn spec_allocated(next: nat, ops: Seq<IdxOp>) -> Seq<nat>
    decreases ops.len(),
{
    if ops.len() == 0 {
        Seq::empty()
    } else {
        match ops[0] {
            IdxOp::Allocate => seq![next] + spec_allocated(next + 1, ops.skip(1)),
            IdxOp::Other(_) => spec_allocated(next, ops.skip(1)),
        }
    }
}

/// Whatever is allocated and removed in whatever order, the indices that are allocated increase
/// strictly: none is allocated twice, also where its item was removed in between.
pub proof fn lemma_allocated_increase(next: nat, ops: Seq<IdxOp>)
    ensures
        forall|i: int|
            0 <= i < spec_allocated(next, ops).len() ==> #[trigger] spec_allocated(next, ops)[i]
                >= next,
        forall|i: int, j: int|
            #![trigger spec_allocated(next, ops)[i], spec_allocated(next, ops)[j]]
            0 <= i < j < spec_allocated(next, ops).len() ==> spec_allocated(next, ops)[i]
                < spec_allocated(next, ops)[j],
    decreases ops.len(),
{
    let all = spec_allocated(next, ops);
    if ops.len() == 0 {
        assert(all.len() == 0);
    } else {
        match ops[0] {
            IdxOp::Allocate => {
                let rest = spec_allocated(next + 1, ops.skip(1));
                lemma_allocated_increase(next + 1, ops.skip(1));
                assert(all == seq![next] + rest);
                assert forall|i: int| 0 <= i < all.len() implies #[trigger] all[i] >= next by {
                    if i > 0 {
                        assert(all[i] == rest[i - 1]);
                    }
                }
                assert forall|i: int, j: int| #![trigger all[i], all[j]] 0 <= i < j < all.len() implies all[i]
                    < all[j] by {
                    assert(all[j] == rest[j - 1]);
                    assert(rest[j - 1] >= next + 1);
                    if i > 0 {
                        assert(all[i] == rest[i - 1]);
                    }
                }
            },
            IdxOp::Other(_) => {
                lemma_allocated_increase(next, ops.skip(1));
                assert(all == spec_allocated(next, ops.skip(1)));
            },
        }
    }
}

} // verus!
