use vstd::prelude::*;

use crate::ext::PointExt;
use crate::kinds::ConstPoint;

verus! {

/// The element distance from address `start` to address `end`, for
/// elements of `size` bytes.
///
/// With elements of no size there is no unit to count in: the distance is
/// then the byte difference, taken modulo the size of the address space.
pub open spec fn distance_of(start: int, end: int, size: nat) -> int {
    if size == 0 {
        if start <= end {
            end - start
        } else {
            end - start + usize::MAX + 1
        }
    } else {
        (end - start) / (size as int)
    }
}

/// The number of elements of type `T` from `start` up to `end`.
///
/// For a sized `T`, `end` must not lie before `start`.
pub fn pointdist<T>(start: ConstPoint<T>, end: ConstPoint<T>) -> (r: usize)
    requires
        ConstPoint::<T>::unit() == 0 || start@ <= end@,
    ensures
        r == distance_of(start@ as int, end@ as int, ConstPoint::<T>::unit()),
{
    let size = core::mem::size_of::<T>();
    if size == 0 {
        end.addr().wrapping_sub(start.addr())
    } else {
        (end.addr() - start.addr()) / size
    }
}

} // verus!
