use crate::array::StackVecArray;
use crate::container::StackVec;
use vstd::prelude::*;

verus! {

/// Pushing onto a well-formed container whose slots form a dense occupied
/// prefix keeps the prefix dense, grows the occupied count by one, and
/// appends exactly the pushed element to the sequence of stored values.
/// Applied once per push, this is why after any run of successful pushes
/// the occupied count equals the number of pushes and the stored values
/// are the pushed values in push order.
///
/// `v0` is the container before the push; `v1` is related to `v0` exactly
/// as `push`'s contract states for a successful push of `e`.
pub proof fn lemma_push_appends<A: StackVecArray>(v0: StackVec<A>, v1: StackVec<A>, e: A::Elem)
    requires
        v0.wf(),
        v0.occupied_prefix(),
        v0.logical_len() < A::capacity(),
        v1.logical_len() == v0.logical_len() + 1,
        v1.slots() == v0.slots().update(v0.logical_len() as int, Some(e)),
    ensures
        v1.wf(),
        v1.occupied_prefix(),
        v1.elems() == v0.elems().push(e),
{
    assert(v1.elems() =~= v0.elems().push(e));
}

/// A push followed immediately by a pop is an identity: the popped value
/// is the pushed one, and the occupied count, the slots and the stored
/// values all return to what they were before the push.
///
/// `v0` is the container before the push; `v1` is related to `v0` as
/// `push`'s contract states for a successful push of `e`; `v2` and
/// `popped` are related to `v1` as `pop`'s contract states for a
/// successful pop.
pub proof fn lemma_push_pop_identity<A: StackVecArray>(
    v0: StackVec<A>,
    v1: StackVec<A>,
    v2: StackVec<A>,
    e: A::Elem,
    popped: A::Elem,
)
    requires
        v0.wf(),
        v0.occupied_prefix(),
        v0.logical_len() < A::capacity(),
        v1.logical_len() == v0.logical_len() + 1,
        v1.slots() == v0.slots().update(v0.logical_len() as int, Some(e)),
        popped == v1.slots()[v1.logical_len() - 1]->0,
        v2.logical_len() == v1.logical_len() - 1,
        v2.slots() == v1.slots().update(v1.logical_len() - 1, None::<A::Elem>),
    ensures
        popped == e,
        v2.logical_len() == v0.logical_len(),
        v2.slots() == v0.slots(),
        v2.elems() == v0.elems(),
        v2.occupied_prefix(),
{
    assert(v0.slots()[v0.logical_len() as int] is None);
    assert(v2.slots() =~= v0.slots());
    assert(v2.elems() =~= v0.elems());
}

/// In a well-formed container whose slots form a dense occupied prefix,
/// every slot below the occupied count holds exactly the stored value of
/// its index. Together with the iterator's contract, which yields the
/// value of slot `0, 1, ...` in turn up to the captured count, this is
/// why iteration yields the stored values in order.
pub proof fn lemma_dense_slot_is_elem<A: StackVecArray>(v: StackVec<A>, i: int)
    requires
        v.wf(),
        v.occupied_prefix(),
        0 <= i < v.logical_len(),
    ensures
        v.slots()[i] == Some(v.elems()[i]),
{
}

/// Storing a value with `set` and reading the same index back with `get`
/// yields that value: after the update that `set`'s contract states, the
/// slot holds `Some(e)`, which is exactly what `get`'s contract then
/// promises to return.
///
/// `v0` is the container before the write; `v1` is related to `v0` as
/// `set`'s contract states for an accepted index.
pub proof fn lemma_get_after_set<A: StackVecArray>(
    v0: StackVec<A>,
    v1: StackVec<A>,
    idx: usize,
    e: A::Elem,
)
    requires
        v0.wf(),
        idx < A::capacity(),
        v1.slots() == v0.slots().update(idx as int, Some(e)),
    ensures
        v1.slots()[idx as int] == Some(e),
{
}

} // verus!
