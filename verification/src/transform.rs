//! Translation of the portable expression tree into typed scalar
//! expressions.

pub mod conjunction;
pub mod depth;
pub mod expr;
pub mod laws;
pub mod literal;
