//! Small shared helpers.
pub use crate::fixed::are_almost_equal;
