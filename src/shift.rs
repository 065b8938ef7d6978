use vstd::prelude::*;

verus! {

/// Moves `addr` by `i` elements of `size` bytes each.
pub(crate) fn shift_addr(addr: usize, i: isize, size: usize) -> (r: usize)
    requires
        0 <= addr + i * size <= usize::MAX,
    ensures
        r == addr + i * size,
{
    if i >= 0 {
        let n = i as usize;
        assert(n * size <= usize::MAX - addr) by (nonlinear_arith)
            requires
                n == i,
                0 <= addr + i * size <= usize::MAX,
        ;
        addr + n * size
    } else {
        let n = (-(i + 1)) as usize + 1;
        assert(n * size <= addr && n * size == -(i * size)) by (nonlinear_arith)
            requires
                n == -i,
                0 <= addr + i * size,
        ;
        addr - n * size
    }
}

/// The two's-complement negation of count `i`, read as a signed count.
///
/// Every count up to `isize::MAX + 1` negates exactly; a larger one wraps
/// round to the positive count `usize::MAX + 1 - i`.
pub open spec fn wrapped_neg(i: usize) -> int {
    if i <= isize::MAX + 1 {
        -i
    } else {
        usize::MAX + 1 - i
    }
}

/// `wrapped_neg(i)` as a machine value; it never fails.
pub(crate) fn negate_count(i: usize) -> (r: isize)
    ensures
        r == wrapped_neg(i),
{
    if i <= isize::MAX as usize {
        -(i as isize)
    } else if i == isize::MAX as usize + 1 {
        isize::MIN
    } else {
        (usize::MAX - i + 1) as isize
    }
}

} // verus!
