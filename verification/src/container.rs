use crate::array::StackVecArray;
use crate::errors::StackVecError;
use vstd::prelude::*;

verus! {

/// A vector-like container over one fixed-capacity backing storage
/// instance, tracking how many leading slots are logically occupied.
///
/// Stack use (`push`/`pop`) keeps the slots a dense occupied prefix:
/// slots `[0, len)` hold values and slots `[len, capacity)` are empty.
/// The indexed `set` and `remove` operations deliberately bypass that
/// discipline (see their contracts), so the container's model is the full
/// run of slots together with the occupied count, not the prefix alone.
pub struct StackVec<A> {
    len: usize,
    data: A,
}

impl<A: StackVecArray> StackVec<A> {
    /// The slots of the backing storage.
    pub closed spec fn slots(&self) -> Seq<Option<A::Elem>> {
        self.data.contents()
    }

    /// The number of slots counted as occupied.
    pub closed spec fn logical_len(&self) -> usize {
        self.len
    }

    /// The storage has its full run of slots and the occupied count does
    /// not exceed the capacity. Established by `new` and preserved by
    /// every operation.
    pub open spec fn wf(&self) -> bool {
        &&& self.slots().len() == A::capacity()
        &&& self.logical_len() <= A::capacity()
    }

    /// The intended dense-stack shape: slots below the occupied count hold
    /// values and slots at or above it are empty. `push` and `pop` keep
    /// this shape; `set` and `remove` can break it.
    pub open spec fn occupied_prefix(&self) -> bool {
        &&& forall|i: int| 0 <= i < self.logical_len() ==> self.slots()[i] is Some
        &&& forall|i: int|
            self.logical_len() <= i < self.slots().len() ==> self.slots()[i] is None
    }

    /// The stored values in slot order, meaningful when the slots form an
    /// occupied prefix.
    pub open spec fn elems(&self) -> Seq<A::Elem> {
        Seq::new(self.logical_len() as nat, |i: int| self.slots()[i]->0)
    }

    /// Create an empty container: occupied count zero, every slot empty.
    pub fn new() -> (r: StackVec<A>)
        ensures
            r.wf(),
            r.occupied_prefix(),
            r.logical_len() == 0,
            r.slots() == Seq::new(A::capacity() as nat, |i: int| None::<A::Elem>),
            r.elems() == Seq::<A::Elem>::empty(),
    {
        let r = StackVec { len: 0usize, data: A::new() };
        proof {
            assert(r.elems() =~= Seq::<A::Elem>::empty());
        }
        r
    }

    /// Store `elem` in the first slot beyond the occupied prefix and count
    /// it as occupied. Succeeds exactly when the occupied count is below
    /// the capacity; a push into a full container is refused with
    /// `CapacityExceeded` and changes nothing.
    pub fn push(&mut self, elem: A::Elem) -> (r: Result<(), StackVecError>)
        requires
            old(self).wf(),
        ensures
            final(self).wf(),
            old(self).logical_len() < A::capacity() ==> {
                &&& r == Ok::<(), StackVecError>(())
                &&& final(self).logical_len() == old(self).logical_len() + 1
                &&& final(self).slots() == old(self).slots().update(
                    old(self).logical_len() as int,
                    Some(elem),
                )
            },
            old(self).logical_len() == A::capacity() ==> {
                &&& r == Err::<(), StackVecError>(StackVecError::CapacityExceeded)
                &&& *final(self) == *old(self)
            },
    {
        if self.len < self.data.size() {
            let idx = self.len;
            self.len = self.len + 1;
            self.data.set(idx, elem);
            Ok(())
        } else {
            Err(StackVecError::CapacityExceeded)
        }
    }

    /// Remove the value in the last occupied slot, mark that slot empty
    /// and shrink the occupied count by one. An empty container is
    /// refused with `Empty`; a container whose last counted slot holds no
    /// value (possible after `remove`) is refused with `SlotUnoccupied`.
    /// A refused pop changes nothing.
    pub fn pop(&mut self) -> (r: Result<A::Elem, StackVecError>)
        requires
            old(self).wf(),
        ensures
            final(self).wf(),
            old(self).logical_len() == 0 ==> {
                &&& r == Err::<A::Elem, StackVecError>(StackVecError::Empty)
                &&& *final(self) == *old(self)
            },
            old(self).logical_len() > 0 && old(self).slots()[old(self).logical_len() - 1]
                is None ==> {
                &&& r == Err::<A::Elem, StackVecError>(StackVecError::SlotUnoccupied)
                &&& *final(self) == *old(self)
            },
            old(self).logical_len() > 0 && old(self).slots()[old(self).logical_len() - 1]
                is Some ==> {
                &&& r == Ok::<A::Elem, StackVecError>(
                    old(self).slots()[old(self).logical_len() - 1]->0,
                )
                &&& final(self).logical_len() == old(self).logical_len() - 1
                &&& final(self).slots() == old(self).slots().update(
                    old(self).logical_len() - 1,
                    None::<A::Elem>,
                )
            },
    {
        if self.len == 0 {
            Err(StackVecError::Empty)
        } else {
            let idx = self.len - 1;
            if self.data.is_occupied(idx) {
                self.len = idx;
                Ok(self.data.remove(idx))
            } else {
                Err(StackVecError::SlotUnoccupied)
            }
        }
    }

    /// The number of slots currently counted as occupied.
    pub fn len(&self) -> (r: usize)
        ensures
            r == self.logical_len(),
    {
        self.len
    }

    /// A read-only reference to the value in slot `idx`. An index at or
    /// beyond the capacity is refused with `IndexOutOfRange`; an empty
    /// slot is refused with `SlotUnoccupied`. Occupancy, not the occupied
    /// count, decides: a slot written ahead of the count via `set` can be
    /// read back.
    pub fn get(&self, idx: usize) -> (r: Result<&A::Elem, StackVecError>)
        requires
            self.wf(),
        ensures
            idx >= A::capacity() ==> r == Err::<&A::Elem, StackVecError>(
                StackVecError::IndexOutOfRange,
            ),
            idx < A::capacity() && self.slots()[idx as int] is None ==> r == Err::<
                &A::Elem,
                StackVecError,
            >(StackVecError::SlotUnoccupied),
            idx < A::capacity() && self.slots()[idx as int] is Some ==> {
                &&& r matches Ok(v)
                &&& self.slots()[idx as int] == Some(*v)
            },
    {
        if idx >= self.data.size() {
            Err(StackVecError::IndexOutOfRange)
        } else if self.data.is_occupied(idx) {
            Ok(self.data.get(idx))
        } else {
            Err(StackVecError::SlotUnoccupied)
        }
    }

    /// A mutable reference to the value in the occupied slot `idx`; the
    /// slot afterwards holds whatever the caller leaves behind the
    /// reference, and the occupied count is unchanged. Callers must
    /// address an occupied slot within the capacity.
    pub fn get_mut(&mut self, idx: usize) -> (r: &mut A::Elem)
        requires
            old(self).wf(),
            idx < A::capacity(),
            old(self).slots()[idx as int] is Some,
        ensures
            final(self).wf(),
            old(self).slots()[idx as int] == Some(*r),
            final(self).logical_len() == old(self).logical_len(),
            final(self).slots() == old(self).slots().update(idx as int, Some(*final(r))),
    {
        self.data.get_mut(idx)
    }

    /// Store `elem` in slot `idx`, overwriting whatever was there and
    /// leaving the occupied count alone. An index at or beyond the
    /// capacity is refused with `IndexOutOfRange` and changes nothing.
    /// Writing at or beyond the occupied count leaves a value that `len`
    /// does not report: an escape hatch for callers that manage slots
    /// directly, not part of the stack discipline.
    pub fn set(&mut self, idx: usize, elem: A::Elem) -> (r: Result<(), StackVecError>)
        requires
            old(self).wf(),
        ensures
            final(self).wf(),
            final(self).logical_len() == old(self).logical_len(),
            idx >= A::capacity() ==> {
                &&& r == Err::<(), StackVecError>(StackVecError::IndexOutOfRange)
                &&& *final(self) == *old(self)
            },
            idx < A::capacity() ==> {
                &&& r == Ok::<(), StackVecError>(())
                &&& final(self).slots() == old(self).slots().update(idx as int, Some(elem))
            },
    {
        if idx >= self.data.size() {
            Err(StackVecError::IndexOutOfRange)
        } else {
            self.data.set(idx, elem);
            Ok(())
        }
    }

    /// Take the value out of slot `idx`, leaving that slot empty and the
    /// occupied count unchanged. An index at or beyond the capacity is
    /// refused with `IndexOutOfRange`; an empty slot with
    /// `SlotUnoccupied`; a refused removal changes nothing.
    ///
    /// Because the occupied count is not adjusted, a removal below the
    /// occupied prefix leaves a hole that `len` still counts: the dense
    /// shape is deliberately not restored. The contract states this
    /// exactly; callers that need the dense shape must confine themselves
    /// to `push` and `pop`.
    pub fn remove(&mut self, idx: usize) -> (r: Result<A::Elem, StackVecError>)
        requires
            old(self).wf(),
        ensures
            final(self).wf(),
            final(self).logical_len() == old(self).logical_len(),
            idx >= A::capacity() ==> {
                &&& r == Err::<A::Elem, StackVecError>(StackVecError::IndexOutOfRange)
                &&& *final(self) == *old(self)
            },
            idx < A::capacity() && old(self).slots()[idx as int] is None ==> {
                &&& r == Err::<A::Elem, StackVecError>(StackVecError::SlotUnoccupied)
                &&& *final(self) == *old(self)
            },
            idx < A::capacity() && old(self).slots()[idx as int] is Some ==> {
                &&& r == Ok::<A::Elem, StackVecError>(old(self).slots()[idx as int]->0)
                &&& final(self).slots() == old(self).slots().update(
                    idx as int,
                    None::<A::Elem>,
                )
            },
    {
        if idx >= self.data.size() {
            Err(StackVecError::IndexOutOfRange)
        } else if self.data.is_occupied(idx) {
            Ok(self.data.remove(idx))
        } else {
            Err(StackVecError::SlotUnoccupied)
        }
    }

    /// The fixed capacity: a property of the storage type alone, so the
    /// same value for every call over the container's whole lifetime.
    pub fn size(&self) -> (r: usize)
        ensures
            r == A::capacity(),
    {
        self.data.size()
    }

    /// A read-only forward iterator over the slots counted as occupied at
    /// this moment: the occupied count is captured now, so later pushes
    /// and pops do not move its end.
    pub fn iter<'a>(&'a self) -> (it: Items<'a, A>)
        requires
            self.wf(),
        ensures
            it.wf(),
            it.slots() == self.slots(),
            it.snapshot_len() == self.logical_len(),
            it.cursor() == 0,
    {
        Items { data: &self.data, len: self.len, count: 0usize }
    }
}

/// A read-only forward iterator over a container's occupied prefix: a
/// reference to the backing storage, the occupied count captured when the
/// iterator was created, and a cursor that starts at zero.
pub struct Items<'a, A: StackVecArray> {
    data: &'a A,
    len: usize,
    count: usize,
}

impl<'a, A: StackVecArray> Items<'a, A> {
    /// The slots of the storage the iterator reads from.
    pub closed spec fn slots(&self) -> Seq<Option<A::Elem>> {
        self.data.contents()
    }

    /// The occupied count captured at creation time.
    pub closed spec fn snapshot_len(&self) -> usize {
        self.len
    }

    /// How many slots have been yielded so far.
    pub closed spec fn cursor(&self) -> usize {
        self.count
    }

    /// The captured count does not exceed the run of slots and the cursor
    /// does not pass the captured count.
    pub open spec fn wf(&self) -> bool {
        &&& self.snapshot_len() <= self.slots().len()
        &&& self.cursor() <= self.snapshot_len()
    }

    /// Yield a reference to the value in the next slot, in index order
    /// `0, 1, ...` up to the captured count, then signal the end with
    /// `None`. A counted slot that holds no value (possible after
    /// `remove`) also ends the iteration: the cursor stays put and every
    /// later call returns `None` as well.
    pub fn next(&mut self) -> (r: Option<&'a A::Elem>)
        requires
            old(self).wf(),
        ensures
            final(self).wf(),
            final(self).slots() == old(self).slots(),
            final(self).snapshot_len() == old(self).snapshot_len(),
            old(self).cursor() < old(self).snapshot_len() && old(self).slots()[old(
                self,
            ).cursor() as int] is Some ==> {
                &&& r matches Some(v)
                &&& old(self).slots()[old(self).cursor() as int] == Some(*v)
                &&& final(self).cursor() == old(self).cursor() + 1
            },
            old(self).cursor() < old(self).snapshot_len() && old(self).slots()[old(
                self,
            ).cursor() as int] is None ==> {
                &&& r is None
                &&& final(self).cursor() == old(self).cursor()
            },
            old(self).cursor() >= old(self).snapshot_len() ==> {
                &&& r is None
                &&& final(self).cursor() == old(self).cursor()
            },
    {
        if self.count < self.len {
            if self.data.is_occupied(self.count) {
                let count = self.count;
                self.count = count + 1;
                Some(self.data.get(count))
            } else {
                None
            }
        } else {
            None
        }
    }
}

} // verus!
