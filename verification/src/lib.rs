//! Translation of portable relational expression trees into typed scalar
//! expressions, and the assembly of map-filter-project plan operators.
//!
//! - [`proto`] models the portable tree, [`repr`] the schema it is
//!   translated over.
//! - [`expr`] holds the scalar expressions, the function registry, the
//!   evaluation of constants and the map-filter-project operator.
//! - [`transform`] translates: literals and type descriptors, expression
//!   nodes, with or without a bound on their nesting, and the laws that
//!   hold of every translation.
//! - [`plan`] puts translated expressions on top of a plan.
//! - [`session`] and [`cache_invalidator`] hold the query context and the
//!   keys of cached table metadata, [`fuzz`] the input of a fuzz run.

pub mod cache_invalidator;
pub mod datatypes;
pub mod error;
pub mod expr;
pub mod fuzz;
pub mod plan;
pub mod proto;
pub mod repr;
pub mod session;
pub mod text;
pub mod transform;
