use vstd::prelude::*;

use crate::shift::{negate_count, wrapped_neg};

verus! {

/// Arithmetic on an address to elements of one type, in element counts.
///
/// No operation checks that the address it yields lies in the memory the
/// caller means: the caller keeps every result inside the addresses that
/// `holds` admits, and within the object it walks.
pub trait PointExt: Copy + Sized {
    /// The address held.
    spec fn addr_of(&self) -> int;

    /// The byte size of one element.
    spec fn unit() -> nat;

    /// Whether a point of this kind can hold address `a`.
    spec fn holds(a: int) -> bool;

    /// Two points with the same address are the same point.
    proof fn lemma_same_addr(a: Self, b: Self)
        requires
            a.addr_of() == b.addr_of(),
        ensures
            a == b,
    ;

    /// The point `i` elements away, `i` of either sign.
    fn offset(self, i: isize) -> (r: Self)
        requires
            Self::holds(self.addr_of() + i * Self::unit()),
        ensures
            r.addr_of() == self.addr_of() + i * Self::unit(),
    ;

    /// The point `i` elements ahead.
    fn add(self, i: usize) -> (r: Self)
        requires
            i * Self::unit() <= isize::MAX,
            Self::holds(self.addr_of() + i * Self::unit()),
        ensures
            r.addr_of() == self.addr_of() + i * Self::unit(),
    {
        assert(Self::unit() == 0 || i <= isize::MAX) by (nonlinear_arith)
            requires
                i * Self::unit() <= isize::MAX,
        ;
        self.offset(i as isize)
    }

    /// The point `i` elements back: an offset by the two's-complement
    /// negation of `i`, which never fails, even for `usize::MAX`.
    fn sub(self, i: usize) -> (r: Self)
        requires
            Self::holds(self.addr_of() + wrapped_neg(i) * Self::unit()),
        ensures
            r.addr_of() == self.addr_of() + wrapped_neg(i) * Self::unit(),
    {
        self.offset(negate_count(i))
    }

    /// Moves one element ahead and returns the new point.
    fn preinc(&mut self) -> (r: Self)
        requires
            Self::holds(old(self).addr_of() + Self::unit()),
        ensures
            r.addr_of() == old(self).addr_of() + Self::unit(),
            *final(self) == r,
    {
        *self = self.offset(1);
        *self
    }

    /// Moves one element ahead and returns the point as it was.
    fn postinc(&mut self) -> (r: Self)
        requires
            Self::holds(old(self).addr_of() + Self::unit()),
        ensures
            r == *old(self),
            final(self).addr_of() == old(self).addr_of() + Self::unit(),
    {
        let curr = *self;
        *self = self.offset(1);
        curr
    }

    /// Moves one element back and returns the new point.
    fn predec(&mut self) -> (r: Self)
        requires
            Self::holds(old(self).addr_of() - Self::unit()),
        ensures
            r.addr_of() == old(self).addr_of() - Self::unit(),
            *final(self) == r,
    {
        *self = self.offset(-1);
        *self
    }

    /// Moves one element back and returns the point as it was.
    fn postdec(&mut self) -> (r: Self)
        requires
            Self::holds(old(self).addr_of() - Self::unit()),
        ensures
            r == *old(self),
            final(self).addr_of() == old(self).addr_of() - Self::unit(),
    {
        let curr = *self;
        *self = self.offset(-1);
        curr
    }

    /// Moves one element ahead.
    fn inc(&mut self)
        requires
            Self::holds(old(self).addr_of() + Self::unit()),
        ensures
            final(self).addr_of() == old(self).addr_of() + Self::unit(),
    {
        *self = self.offset(1);
    }

    /// Moves one element back.
    fn dec(&mut self)
        requires
            Self::holds(old(self).addr_of() - Self::unit()),
        ensures
            final(self).addr_of() == old(self).addr_of() - Self::unit(),
    {
        *self = self.offset(-1);
    }

    /// The point `s * index` elements away: entry `index` of a sequence
    /// laid out every `s` elements.
    fn strideoffset(self, s: isize, index: usize) -> (r: Self)
        requires
            index <= isize::MAX || s == 0,
            isize::MIN <= s * index <= isize::MAX,
            Self::holds(self.addr_of() + (s * index) * Self::unit()),
        ensures
            r.addr_of() == self.addr_of() + (s * index) * Self::unit(),
    {
        self.offset(s * index as isize)
    }
}

} // verus!
