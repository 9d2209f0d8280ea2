use vstd::prelude::*;

verus! {

/// Why a container operation was refused.
///
/// Every boundary violation that the container can detect at run time is
/// reported through one of these variants instead of corrupting state or
/// aborting the process.
#[derive(Clone, Copy, Debug, PartialEq, Eq, Structural)]
pub enum StackVecError {
    /// A push was attempted while every slot up to the capacity was counted
    /// as occupied.
    CapacityExceeded,
    /// A pop was attempted while the occupied count was zero.
    Empty,
    /// The addressed slot lies within the capacity but holds no value.
    SlotUnoccupied,
    /// The index lies at or beyond the fixed capacity.
    IndexOutOfRange,
}

} // verus!
