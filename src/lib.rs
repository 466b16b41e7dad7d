use vstd::prelude::*;

pub mod decimal;
pub mod domain;
pub mod constraint;
pub mod filter;
pub mod select;
pub mod text_list;
pub mod lemmas;

pub use constraint::{Constrain, ConstrainRange};
pub use decimal::to_decimal;
pub use domain::{NumericDomain, Rational};
pub use filter::{CapabilityFilter, MediaKind, MediaTrackConstraintSet};
pub use select::select_first;
pub use text_list::ConstrainString;

verus! {

/// Converts a 64-bit count to a 32-bit signed one, saturating at `i32::MAX`.
pub fn into_i32(x: u64) -> (r: i32)
    ensures
        r as int == if x <= i32::MAX as u64 { x as int } else { i32::MAX as int },
{
    if x > i32::MAX as u64 {
        i32::MAX
    } else {
        x as i32
    }
}

} // verus!
