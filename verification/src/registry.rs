//! A generic, slot-reusing registry from small integer handles to owned
//! resource state. `acquire` hands out the lowest free slot (reusing freed
//! slots before growing), numbered from a configurable base; `release`
//! clears a slot and reports whether anything was removed. A handle is
//! valid iff its slot is occupied.

use vstd::prelude::*;

verus! {

pub struct Registry<T> {
    pub base: i32,
    pub slots: Vec<Option<T>>,
}

#[verifier::ext_equal]
pub ghost struct RegistryV<T> {
    pub base: int,
    pub slots: Seq<Option<T>>,
}

impl<T> View for Registry<T> {
    type V = RegistryV<T>;

    open spec fn view(&self) -> RegistryV<T> {
        RegistryV { base: self.base as int, slots: self.slots@ }
    }
}

/// The index of the first free slot, or the length when all are occupied.
pub open spec fn lowest_free<T>(slots: Seq<Option<T>>) -> int
    decreases slots.len(),
{
    if slots.len() == 0 {
        0
    } else if slots.first() is None {
        0
    } else {
        1 + lowest_free(slots.drop_first())
    }
}

proof fn lemma_lowest_free_at<T>(slots: Seq<Option<T>>, i: int)
    requires
        0 <= i <= slots.len(),
        forall|j: int| 0 <= j < i ==> (#[trigger] slots[j]) is Some,
        i < slots.len() ==> slots[i] is None,
    ensures
        lowest_free(slots) == i,
    decreases slots.len(),
{
    if i > 0 {
        lemma_lowest_free_at(slots.drop_first(), i - 1);
    }
}

/// The first free slot never sits past a freed index: a released slot is
/// reused before the registry grows.
pub proof fn lemma_lowest_free_bounded<T>(slots: Seq<Option<T>>, idx: int)
    requires
        0 <= idx < slots.len(),
        slots[idx] is None,
    ensures
        0 <= lowest_free(slots) <= idx,
    decreases slots.len(),
{
    if slots.first() is Some {
        lemma_lowest_free_bounded(slots.drop_first(), idx - 1);
    }
}

impl<T> RegistryV<T> {
    /// Handles stay positive and slot indices fit the handle type.
    pub open spec fn wf(self) -> bool {
        1 <= self.base && self.base + self.slots.len() <= i32::MAX
    }

    /// A handle is valid iff it names an occupied slot.
    pub open spec fn valid_handle(self, h: int) -> bool {
        self.base <= h < self.base + self.slots.len() && self.slots[h - self.base] is Some
    }

    /// What a handle currently maps to.
    pub open spec fn contents(self, h: int) -> Option<T>
        recommends
            self.base <= h < self.base + self.slots.len(),
    {
        self.slots[h - self.base]
    }
}

impl<T> Registry<T> {
    /// An empty registry whose handles start at `base`.
    pub fn new(base: i32) -> (r: Registry<T>)
        requires
            1 <= base,
        ensures
            r@.wf(),
            r@.base == base,
            r@.slots == Seq::<Option<T>>::empty(),
    {
        Registry { base, slots: Vec::new() }
    }

    /// Stores `value` in the lowest free slot (reusing a freed slot before
    /// growing) and returns its handle. The slot holds exactly `value`:
    /// nothing of a prior occupant remains observable.
    pub fn acquire(&mut self, value: T) -> (h: i32)
        requires
            old(self)@.wf(),
            old(self)@.base + old(self)@.slots.len() < i32::MAX,
        ensures
            final(self)@.wf(),
            final(self)@.base == old(self)@.base,
            h == old(self)@.base + lowest_free(old(self)@.slots),
            final(self)@.slots == if lowest_free(old(self)@.slots) < old(self)@.slots.len() {
                old(self)@.slots.update(lowest_free(old(self)@.slots), Some(value))
            } else {
                old(self)@.slots.push(Some(value))
            },
            final(self)@.valid_handle(h as int),
            final(self)@.contents(h as int) == Some(value),
    {
        let ghost slots0 = self@.slots;
        let mut i: usize = 0;
        loop
            invariant
                0 <= i <= self@.slots.len(),
                self@.slots == slots0,
                self@.wf(),
                forall|j: int| 0 <= j < i ==> (#[trigger] slots0[j]) is Some,
            ensures
                0 <= i <= slots0.len(),
                self@.slots == slots0,
                forall|j: int| 0 <= j < i ==> (#[trigger] slots0[j]) is Some,
                i < slots0.len() ==> slots0[i as int] is None,
            decreases self@.slots.len() - i,
        {
            if i >= self.slots.len() {
                break;
            }
            if self.slots[i].is_none() {
                break;
            }
            i = i + 1;
        }
        proof {
            lemma_lowest_free_at(slots0, i as int);
        }
        if i < self.slots.len() {
            self.slots.remove(i);
            self.slots.insert(i, Some(value));
            proof {
                assert(self@.slots =~= slots0.update(i as int, Some(value)));
            }
        } else {
            self.slots.push(Some(value));
        }
        self.base + (i as i32)
    }

    /// Clears the slot of `h` if it is a valid handle and reports whether
    /// anything was removed; every other slot is untouched.
    pub fn release(&mut self, h: i32) -> (removed: bool)
        requires
            old(self)@.wf(),
        ensures
            final(self)@.wf(),
            final(self)@.base == old(self)@.base,
            removed == old(self)@.valid_handle(h as int),
            removed ==> final(self)@.slots == old(self)@.slots.update(
                h - old(self)@.base,
                None::<T>,
            ),
            !removed ==> final(self)@ == old(self)@,
    {
        match self.take(h) {
            Some(_) => true,
            None => false,
        }
    }

    /// Removes and returns the resource behind `h`, if the handle is valid.
    pub fn take(&mut self, h: i32) -> (r: Option<T>)
        requires
            old(self)@.wf(),
        ensures
            final(self)@.wf(),
            final(self)@.base == old(self)@.base,
            r is Some <==> old(self)@.valid_handle(h as int),
            r is Some ==> old(self)@.contents(h as int) == r,
            r is Some ==> final(self)@.slots == old(self)@.slots.update(
                h - old(self)@.base,
                None::<T>,
            ),
            r is None ==> final(self)@ == old(self)@,
    {
        if h < self.base {
            return None;
        }
        let idx = (h - self.base) as usize;
        if idx >= self.slots.len() {
            return None;
        }
        let cur = self.slots.remove(idx);
        match cur {
            Some(v) => {
                self.slots.insert(idx, None);
                proof {
                    assert(self@.slots =~= old(self)@.slots.update(h - old(self)@.base, None::<T>));
                }
                Some(v)
            },
            None => {
                self.slots.insert(idx, None);
                proof {
                    assert(self@.slots =~= old(self)@.slots);
                    assert(self@ =~= old(self)@);
                }
                None
            },
        }
    }

    /// Puts `value` into the (empty) slot of a previously taken handle.
    pub fn restore(&mut self, h: i32, value: T)
        requires
            old(self)@.wf(),
            old(self)@.base <= h < old(self)@.base + old(self)@.slots.len(),
            old(self)@.contents(h as int) is None,
        ensures
            final(self)@.wf(),
            final(self)@.base == old(self)@.base,
            final(self)@.slots == old(self)@.slots.update(h - old(self)@.base, Some(value)),
            final(self)@.valid_handle(h as int),
            final(self)@.contents(h as int) == Some(value),
    {
        let idx = (h - self.base) as usize;
        self.slots.remove(idx);
        self.slots.insert(idx, Some(value));
        proof {
            assert(self@.slots =~= old(self)@.slots.update(h - old(self)@.base, Some(value)));
        }
    }

    /// Borrows the resource behind `h`, if the handle is valid.
    pub fn get(&self, h: i32) -> (r: Option<&T>)
        requires
            self@.wf(),
        ensures
            r is Some <==> self@.valid_handle(h as int),
            r is Some ==> self@.contents(h as int) == Some(*r->0),
    {
        if h < self.base {
            return None;
        }
        let idx = (h - self.base) as usize;
        if idx >= self.slots.len() {
            return None;
        }
        self.slots[idx].as_ref()
    }
}

/// Slot reuse is clean: release a handle, acquire a new resource, and the
/// slot the new handle names (the freed one, when it is the lowest free)
/// holds exactly the new resource — nothing of the prior occupant can be
/// observed through any handle.
pub proof fn lemma_slot_reuse_clean<T>(slots: Seq<Option<T>>, idx: int, v: T)
    requires
        0 <= idx < slots.len(),
    ensures
        ({
            let freed = slots.update(idx, None);
            let j = lowest_free(freed);
            &&& 0 <= j <= idx
            &&& (if j < freed.len() {
                freed.update(j, Some(v))
            } else {
                freed.push(Some(v))
            })[j] == Some(v)
            &&& forall|k: int|
                0 <= k < freed.len() && k != j ==> (if j < freed.len() {
                    freed.update(j, Some(v))
                } else {
                    freed.push(Some(v))
                })[k] == freed[k]
        }),
{
    let freed = slots.update(idx, None);
    lemma_lowest_free_bounded(freed, idx);
}

} // verus!
