use vstd::prelude::*;

verus! {

/// A reference to an object held in a `HandleTable`: the slot it occupies and
/// the generation of that slot when the object was placed there.
#[derive(Clone, Copy, Debug, PartialEq, Eq, Structural)]
pub struct Handle {
    pub index: usize,
    pub generation: u64,
}

struct Slot<T> {
    generation: u64,
    value: Option<T>,
}

/// Single-owner storage for objects handed out across the boundary.
///
/// Each slot carries a generation that grows when its object is freed, so a
/// handle that was freed never refers to a live object again: using it, or
/// freeing it twice, is reported instead of touching another object.
pub struct HandleTable<T> {
    slots: Vec<Slot<T>>,
}

impl<T> HandleTable<T> {
    /// Number of slots ever allocated.
    pub closed spec fn slot_count(&self) -> nat {
        self.slots@.len()
    }

    /// Current generation of slot `i`.
    pub closed spec fn generation_of(&self, i: int) -> u64 {
        self.slots@[i].generation
    }

    /// `h` refers to an object that is still held.
    pub closed spec fn live(&self, h: Handle) -> bool {
        &&& h.index < self.slots@.len()
        &&& self.slots@[h.index as int].generation == h.generation
        &&& self.slots@[h.index as int].value is Some
    }

    /// `h` was issued for slot `h.index` and its object has since been freed:
    /// the slot's generation has moved past it.
    pub open spec fn retired(&self, h: Handle) -> bool {
        &&& h.index < self.slot_count()
        &&& h.generation < self.generation_of(h.index as int)
    }

    pub closed spec fn wf(&self) -> bool {
        forall|i: int|
            0 <= i < self.slots@.len() && (#[trigger] self.slots@[i]).value is Some
                ==> self.slots@[i].generation < u64::MAX
    }

    /// Generations of existing slots never go back, and slots are never dropped.
    pub open spec fn grows_into(&self, later: &HandleTable<T>) -> bool {
        &&& self.slot_count() <= later.slot_count()
        &&& forall|i: int|
            0 <= i < self.slot_count() ==> self.generation_of(i) <= #[trigger] later.generation_of(
                i,
            )
    }

    /// An empty table.
    pub fn new() -> (r: HandleTable<T>)
        ensures
            r.wf(),
            r@ == Map::<Handle, T>::empty(),
            r.slot_count() == 0,
    {
        HandleTable { slots: Vec::new() }
    }

    /// Places `value` in the table and returns a fresh handle to it.
    pub fn insert(&mut self, value: T) -> (h: Handle)
        requires
            old(self).wf(),
        ensures
            final(self).wf(),
            !old(self)@.contains_key(h),
            !old(self).retired(h),
            final(self)@ == old(self)@.insert(h, value),
            old(self).grows_into(&*final(self)),
    {
        let n = self.slots.len();
        let mut i: usize = 0;
        while i < n
            invariant
                *self == *old(self),
                self.wf(),
                n == self.slots@.len(),
                0 <= i <= n,
                forall|j: int|
                    0 <= j < i ==> (#[trigger] self.slots@[j]).value is Some
                        || self.slots@[j].generation == u64::MAX,
            decreases n - i,
        {
            if self.slots[i].value.is_none() && self.slots[i].generation < u64::MAX {
                let g = self.slots[i].generation;
                let ghost before = *self;
                self.slots.set(i, Slot { generation: g, value: Some(value) });
                let h = Handle { index: i, generation: g };
                assert(!before.live(h));
                assert(self@ =~= before@.insert(h, value));
                return h;
            }
            i = i + 1;
        }
        let ghost before = *self;
        self.slots.push(Slot { generation: 0, value: Some(value) });
        let h = Handle { index: n, generation: 0 };
        assert(!before.live(h));
        assert(self@ =~= before@.insert(h, value));
        h
    }

    /// The object that `h` refers to, if it is still held.
    pub fn get(&self, h: Handle) -> (r: Option<&T>)
        ensures
            match r {
                Some(v) => self@.contains_key(h) && *v == self@[h],
                None => !self@.contains_key(h),
            },
    {
        if h.index < self.slots.len() && self.slots[h.index].generation == h.generation {
            match &self.slots[h.index].value {
                Some(v) => Some(v),
                None => None,
            }
        } else {
            None
        }
    }

    /// Frees the object that `h` refers to and hands it back; `None` (a null
    /// handle) and a handle that is not live leave the table as it is.
    pub fn remove(&mut self, h: Option<Handle>) -> (r: Option<T>)
        requires
            old(self).wf(),
        ensures
            final(self).wf(),
            old(self).grows_into(&*final(self)),
            h is Some && old(self)@.contains_key(h->Some_0) ==> {
                &&& r == Some(old(self)@[h->Some_0])
                &&& final(self)@ == old(self)@.remove(h->Some_0)
                &&& final(self).retired(h->Some_0)
            },
            !(h is Some && old(self)@.contains_key(h->Some_0)) ==> {
                &&& r is None
                &&& final(self)@ == old(self)@
                &&& final(self).slot_count() == old(self).slot_count()
                &&& forall|i: int|
                    0 <= i < old(self).slot_count() ==> #[trigger] final(self).generation_of(i)
                        == old(self).generation_of(i)
            },
    {
        let h = match h {
            Some(h) => h,
            None => return None,
        };
        if h.index < self.slots.len() && self.slots[h.index].generation == h.generation
            && self.slots[h.index].value.is_some() {
            let ghost before = *self;
            let g = self.slots[h.index].generation;
            let mut old_slot = Slot { generation: g + 1, value: None };
            self.slots.set_and_swap(h.index, &mut old_slot);
            assert(self@ =~= before@.remove(h));
            old_slot.value
        } else {
            None
        }
    }
}

/// A freed handle stays unusable: in every later state of the table it is
/// still retired and refers to no object, whatever was placed in its slot since.
pub proof fn law_retired_stays_dead<T>(earlier: &HandleTable<T>, later: &HandleTable<T>, h: Handle)
    requires
        earlier.retired(h),
        earlier.grows_into(later),
    ensures
        later.retired(h),
        !later@.contains_key(h),
{
    assert(earlier.generation_of(h.index as int) <= later.generation_of(h.index as int));
}

impl<T> View for HandleTable<T> {
    type V = Map<Handle, T>;

    /// The live handles, each with the object it refers to.
    closed spec fn view(&self) -> Map<Handle, T> {
        Map::new(|h: Handle| self.live(h), |h: Handle| self.slots@[h.index as int].value->Some_0)
    }
}

} // verus!
