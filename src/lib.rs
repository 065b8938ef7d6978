//! Element-size-aware arithmetic on address-like values.
//!
//! A point is an address into a sequence of elements of some type `T`. It is
//! never dereferenced here: the library only computes new points, and the
//! element distance between two points. Every count is an element count; the
//! byte size of `T` scales it.
mod dist;
mod ext;
mod kinds;
mod laws;
mod shift;

pub use dist::{distance_of, pointdist};
pub use ext::PointExt;
pub use shift::wrapped_neg;
pub use kinds::{ConstPoint, MutPoint, NonNullPoint};
pub use laws::{
    lemma_add_then_sub, lemma_dec_is_offset_minus_one, lemma_preinc_is_offset_one,
    lemma_stride_is_offset,
};
