use core::marker::PhantomData;
use vstd::prelude::*;

use crate::ext::PointExt;
use crate::shift::shift_addr;

verus! {

/// A read-only address to elements of type `T`.
pub struct ConstPoint<T> {
    addr: usize,
    marker: PhantomData<T>,
}

impl<T> Clone for ConstPoint<T> {
    fn clone(&self) -> (r: Self)
        ensures
            r == *self,
    {
        *self
    }
}

impl<T> Copy for ConstPoint<T> {

}

impl<T> PartialEq for ConstPoint<T> {
    fn eq(&self, other: &Self) -> (r: bool) {
        self.addr() == other.addr()
    }
}

impl<T> vstd::std_specs::cmp::PartialEqSpecImpl for ConstPoint<T> {
    open spec fn obeys_eq_spec() -> bool {
        true
    }

    open spec fn eq_spec(&self, other: &Self) -> bool {
        self@ == other@
    }
}

impl<T> Eq for ConstPoint<T> {

}

impl<T> ConstPoint<T> {
    /// The address this point holds, as a number.
    pub closed spec fn view(&self) -> usize {
        self.addr
    }

    /// The point at address `addr`.
    pub fn new(addr: usize) -> (r: Self)
        ensures
            r@ == addr,
    {
        ConstPoint { addr, marker: PhantomData }
    }

    /// The address held.
    pub fn addr(&self) -> (r: usize)
        ensures
            r == self@,
    {
        self.addr
    }

    /// Whether this is the address zero, which points nowhere.
    pub fn is_null(&self) -> (r: bool)
        ensures
            r == (self@ == 0),
    {
        self.addr == 0
    }
}

impl<T> PointExt for ConstPoint<T> {
    open spec fn addr_of(&self) -> int {
        self@ as int
    }

    open spec fn unit() -> nat {
        vstd::layout::size_of::<T>()
    }

    open spec fn holds(a: int) -> bool {
        0 <= a <= usize::MAX
    }

    proof fn lemma_same_addr(a: Self, b: Self) {
    }

    fn offset(self, i: isize) -> (r: Self) {
        ConstPoint { addr: shift_addr(self.addr, i, core::mem::size_of::<T>()), marker: PhantomData }
    }
}

/// A read/write address to elements of type `T`.
pub struct MutPoint<T> {
    addr: usize,
    marker: PhantomData<T>,
}

impl<T> Clone for MutPoint<T> {
    fn clone(&self) -> (r: Self)
        ensures
            r == *self,
    {
        *self
    }
}

impl<T> Copy for MutPoint<T> {

}

impl<T> PartialEq for MutPoint<T> {
    fn eq(&self, other: &Self) -> (r: bool) {
        self.addr() == other.addr()
    }
}

impl<T> vstd::std_specs::cmp::PartialEqSpecImpl for MutPoint<T> {
    open spec fn obeys_eq_spec() -> bool {
        true
    }

    open spec fn eq_spec(&self, other: &Self) -> bool {
        self@ == other@
    }
}

impl<T> Eq for MutPoint<T> {

}

impl<T> MutPoint<T> {
    /// The address this point holds, as a number.
    pub closed spec fn view(&self) -> usize {
        self.addr
    }

    /// The point at address `addr`.
    pub fn new(addr: usize) -> (r: Self)
        ensures
            r@ == addr,
    {
        MutPoint { addr, marker: PhantomData }
    }

    /// The address held.
    pub fn addr(&self) -> (r: usize)
        ensures
            r == self@,
    {
        self.addr
    }

    /// Whether this is the address zero, which points nowhere.
    pub fn is_null(&self) -> (r: bool)
        ensures
            r == (self@ == 0),
    {
        self.addr == 0
    }
}

impl<T> PointExt for MutPoint<T> {
    open spec fn addr_of(&self) -> int {
        self@ as int
    }

    open spec fn unit() -> nat {
        vstd::layout::size_of::<T>()
    }

    open spec fn holds(a: int) -> bool {
        0 <= a <= usize::MAX
    }

    proof fn lemma_same_addr(a: Self, b: Self) {
    }

    fn offset(self, i: isize) -> (r: Self) {
        MutPoint { addr: shift_addr(self.addr, i, core::mem::size_of::<T>()), marker: PhantomData }
    }
}


/// A read/write address to elements of type `T` that is never zero.
pub struct NonNullPoint<T> {
    inner: MutPoint<T>,
}

impl<T> Clone for NonNullPoint<T> {
    fn clone(&self) -> (r: Self)
        ensures
            r == *self,
    {
        *self
    }
}

impl<T> Copy for NonNullPoint<T> {

}

impl<T> PartialEq for NonNullPoint<T> {
    fn eq(&self, other: &Self) -> (r: bool) {
        self.addr() == other.addr()
    }
}

impl<T> vstd::std_specs::cmp::PartialEqSpecImpl for NonNullPoint<T> {
    open spec fn obeys_eq_spec() -> bool {
        true
    }

    open spec fn eq_spec(&self, other: &Self) -> bool {
        self@ == other@
    }
}

impl<T> Eq for NonNullPoint<T> {

}

impl<T> NonNullPoint<T> {
    #[verifier::type_invariant]
    closed spec fn non_null(self) -> bool {
        self.inner@ != 0
    }

    /// The address this point holds, as a number.
    pub closed spec fn view(&self) -> usize {
        self.inner@
    }

    /// The point at `addr`, or `None` where `addr` is zero.
    pub fn new(addr: usize) -> (r: Option<Self>)
        ensures
            addr == 0 <==> r is None,
            r matches Some(p) ==> p@ == addr,
    {
        if addr == 0 {
            None
        } else {
            Some(NonNullPoint { inner: MutPoint::new(addr) })
        }
    }

    /// The point at `addr`, which the caller knows is not zero.
    pub fn new_unchecked(addr: usize) -> (r: Self)
        requires
            addr != 0,
        ensures
            r@ == addr,
    {
        NonNullPoint { inner: MutPoint::new(addr) }
    }

    /// The address held; it is never zero.
    pub fn addr(&self) -> (r: usize)
        ensures
            r == self@,
            r != 0,
    {
        proof {
            use_type_invariant(self);
        }
        self.inner.addr()
    }

    /// Whether this is the address zero: never.
    pub fn is_null(&self) -> (r: bool)
        ensures
            r == (self@ == 0),
            !r,
    {
        proof {
            use_type_invariant(self);
        }
        self.inner.is_null()
    }

    /// The same address as a plain read/write point.
    pub fn as_mut_point(&self) -> (r: MutPoint<T>)
        ensures
            r@ == self@,
    {
        self.inner
    }
}

impl<T> PointExt for NonNullPoint<T> {
    open spec fn addr_of(&self) -> int {
        self@ as int
    }

    open spec fn unit() -> nat {
        vstd::layout::size_of::<T>()
    }

    open spec fn holds(a: int) -> bool {
        0 < a <= usize::MAX
    }

    proof fn lemma_same_addr(a: Self, b: Self) {
        MutPoint::<T>::lemma_same_addr(a.inner, b.inner);
    }

    /// Moves the underlying read/write point; the result is not zero because
    /// the caller keeps it inside `holds`.
    fn offset(self, i: isize) -> (r: Self) {
        NonNullPoint::new_unchecked(self.inner.offset(i).addr())
    }
}

} // verus!
