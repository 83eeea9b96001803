//! Typed scalar expressions, the functions they call, and the
//! map-filter-project operator that is assembled from them.

pub mod eval;
pub mod func;
pub mod linear;
pub mod scalar;
