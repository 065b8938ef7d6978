use vstd::prelude::*;

use crate::ext::PointExt;
use crate::shift::wrapped_neg;

verus! {

/// Moving `i` elements ahead with `add` and then back with `sub` returns to
/// the start, for every count whose byte size fits in `isize`: the way back
/// is then always admitted, and any point that the two contracts allow at the
/// end is `p` itself.
pub proof fn lemma_add_then_sub<P: PointExt>(p: P, i: usize)
    requires
        P::holds(p.addr_of()),
        i * P::unit() <= isize::MAX,
        P::holds(p.addr_of() + i * P::unit()),
    ensures
        forall|q: P|
            q.addr_of() == p.addr_of() + i * P::unit() ==> P::holds(
                q.addr_of() + wrapped_neg(i) * P::unit(),
            ),
        forall|q: P, r: P|
            q.addr_of() == p.addr_of() + i * P::unit() && r.addr_of() == q.addr_of()
                + wrapped_neg(i) * P::unit() ==> r == p,
{
    assert(P::unit() == 0 || i <= isize::MAX) by (nonlinear_arith)
        requires
            i * P::unit() <= isize::MAX,
    ;
    assert(i * P::unit() + wrapped_neg(i) * P::unit() == 0) by (nonlinear_arith)
        requires
            P::unit() == 0 || wrapped_neg(i) == -i,
    ;
    assert forall|q: P, r: P|
        q.addr_of() == p.addr_of() + i * P::unit() && r.addr_of() == q.addr_of() + wrapped_neg(i)
            * P::unit() implies r == p by {
        P::lemma_same_addr(r, p);
    }
}

/// `preinc` yields the point that `offset(1)` yields, and leaves the
/// receiver there: any point meeting the one contract from `p` equals any
/// point meeting the other.
pub proof fn lemma_preinc_is_offset_one<P: PointExt>(p: P)
    ensures
        forall|a: P, b: P|
            a.addr_of() == p.addr_of() + 1 * P::unit() && b.addr_of() == p.addr_of() + P::unit()
                ==> a == b,
{
    assert forall|a: P, b: P|
        a.addr_of() == p.addr_of() + 1 * P::unit() && b.addr_of() == p.addr_of()
            + P::unit() implies a == b by {
        P::lemma_same_addr(a, b);
    }
}

/// `postdec` and `predec` move the receiver to the point that `offset(-1)`
/// yields.
pub proof fn lemma_dec_is_offset_minus_one<P: PointExt>(p: P)
    ensures
        forall|a: P, b: P|
            a.addr_of() == p.addr_of() + (-1) * P::unit() && b.addr_of() == p.addr_of()
                - P::unit() ==> a == b,
{
    assert forall|a: P, b: P|
        a.addr_of() == p.addr_of() + (-1) * P::unit() && b.addr_of() == p.addr_of()
            - P::unit() implies a == b by {
        P::lemma_same_addr(a, b);
    }
}

/// `strideoffset(s, index)` yields the point that `offset(s * index)`
/// yields.
pub proof fn lemma_stride_is_offset<P: PointExt>(p: P, s: isize, index: usize)
    ensures
        forall|a: P, b: P|
            a.addr_of() == p.addr_of() + (s * index) * P::unit() && b.addr_of() == p.addr_of() + (
            s * index) * P::unit() ==> a == b,
{
    assert forall|a: P, b: P|
        a.addr_of() == p.addr_of() + (s * index) * P::unit() && b.addr_of() == p.addr_of() + (s
            * index) * P::unit() implies a == b by {
        P::lemma_same_addr(a, b);
    }
}

} // verus!
