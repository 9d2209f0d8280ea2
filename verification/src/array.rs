use vstd::pervasive::unreached;
use vstd::prelude::*;

verus! {

/// Interface for fixed-capacity backing storage: an ordered run of slots,
/// each either empty or holding one value, whose number of slots is
/// determined by the type alone and never changes.
///
/// The container is written once against this trait and works over any
/// capacity for which the trait is implemented.
pub trait StackVecArray: Sized {
    /// The element type held in the slots.
    type Elem;

    /// The slots as a sequence, each entry `None` when empty and `Some`
    /// when occupied.
    spec fn contents(&self) -> Seq<Option<Self::Elem>>;

    /// The fixed number of slots, a property of the type alone.
    spec fn capacity() -> usize;

    /// Construct storage with every slot empty.
    fn new() -> (r: Self)
        ensures
            r.contents() == Seq::new(Self::capacity() as nat, |i: int| None::<Self::Elem>),
    ;

    /// Whether slot `idx` currently holds a value.
    fn is_occupied(&self, idx: usize) -> (r: bool)
        requires
            idx < self.contents().len(),
        ensures
            r == (self.contents()[idx as int] is Some),
    ;

    /// A read-only reference to the value in the occupied slot `idx`.
    fn get(&self, idx: usize) -> (r: &Self::Elem)
        requires
            idx < self.contents().len(),
            self.contents()[idx as int] is Some,
        ensures
            self.contents()[idx as int] == Some(*r),
    ;

    /// A mutable reference to the value in the occupied slot `idx`; the
    /// slot afterwards holds whatever the caller leaves behind the
    /// reference.
    fn get_mut(&mut self, idx: usize) -> (r: &mut Self::Elem)
        requires
            idx < old(self).contents().len(),
            old(self).contents()[idx as int] is Some,
        ensures
            old(self).contents()[idx as int] == Some(*r),
            final(self).contents() == old(self).contents().update(
                idx as int,
                Some(*final(r)),
            ),
    ;

    /// Store `elem` into slot `idx`, overwriting whatever was there.
    fn set(&mut self, idx: usize, elem: Self::Elem)
        requires
            idx < old(self).contents().len(),
        ensures
            final(self).contents() == old(self).contents().update(idx as int, Some(elem)),
    ;

    /// Mark the occupied slot `idx` empty and return the value that was
    /// there.
    fn remove(&mut self, idx: usize) -> (r: Self::Elem)
        requires
            idx < old(self).contents().len(),
            old(self).contents()[idx as int] is Some,
        ensures
            old(self).contents()[idx as int] == Some(r),
            final(self).contents() == old(self).contents().update(
                idx as int,
                None::<Self::Elem>,
            ),
    ;

    /// The fixed capacity.
    fn size(&self) -> (r: usize)
        ensures
            r == Self::capacity(),
    ;
}

/// Backing storage of exactly `N` slots, held in a buffer that is created
/// with length `N` and never grows or shrinks afterwards.
pub struct FixedArray<T, const N: usize> {
    slots: Vec<Option<T>>,
}

impl<T, const N: usize> StackVecArray for FixedArray<T, N> {
    type Elem = T;

    closed spec fn contents(&self) -> Seq<Option<T>> {
        self.slots@
    }

    open spec fn capacity() -> usize {
        N
    }

    fn new() -> (r: Self) {
        let mut slots: Vec<Option<T>> = Vec::new();
        let mut i: usize = 0;
        while i < N
            invariant
                i <= N,
                slots@.len() == i,
                forall|j: int| 0 <= j < i ==> slots@[j] is None,
            decreases N - i,
        {
            slots.push(None);
            i = i + 1;
        }
        proof {
            assert(slots@ =~= Seq::new(N as nat, |i: int| None::<T>));
        }
        FixedArray { slots }
    }

    fn is_occupied(&self, idx: usize) -> (r: bool) {
        self.slots[idx].is_some()
    }

    fn get(&self, idx: usize) -> (r: &T) {
        match &self.slots[idx] {
            Some(v) => v,
            None => unreached(),
        }
    }

    fn get_mut(&mut self, idx: usize) -> (r: &mut T) {
        match &mut self.slots[idx] {
            Some(v) => v,
            None => unreached(),
        }
    }

    fn set(&mut self, idx: usize, elem: T) {
        self.slots[idx] = Some(elem);
    }

    fn remove(&mut self, idx: usize) -> (r: T) {
        match self.slots[idx].take() {
            Some(v) => v,
            None => unreached(),
        }
    }

    fn size(&self) -> (r: usize) {
        N
    }
}

/// Storage with two slots.
pub type N2<T> = FixedArray<T, 2>;

/// Storage with four slots.
pub type N4<T> = FixedArray<T, 4>;

/// Storage with eight slots.
pub type N8<T> = FixedArray<T, 8>;

/// Storage with sixteen slots.
pub type N16<T> = FixedArray<T, 16>;

/// Storage with thirty-two slots.
pub type N32<T> = FixedArray<T, 32>;

/// Storage with sixty-four slots.
pub type N64<T> = FixedArray<T, 64>;

/// Storage with one hundred twenty-eight slots.
pub type N128<T> = FixedArray<T, 128>;

/// Storage with two hundred fifty-six slots.
pub type N256<T> = FixedArray<T, 256>;

/// Storage with five hundred twelve slots.
pub type N512<T> = FixedArray<T, 512>;

/// Storage with one thousand twenty-four slots.
pub type N1024<T> = FixedArray<T, 1024>;

} // verus!
