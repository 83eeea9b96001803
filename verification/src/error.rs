//! The kinds of failure that translation and plan building report.

use vstd::prelude::*;

verus! {

/// Why a translation or a plan-building step failed.
#[derive(Clone, Copy, Debug, PartialEq, Eq, Structural)]
pub enum Error {
    /// A numeric function reference that the extension mapping does not hold.
    FunctionReferenceNotFound,
    /// A construct that is recognised but not implemented.
    UnsupportedFeature,
    /// A structurally malformed input tree.
    InvalidInput,
    /// A cast that cannot be performed.
    TypeError,
    /// Constant folding of a resolved function over literal operands failed.
    EvalError,
    /// A map-filter-project stage that is inconsistent with its input.
    InvalidPlan,
}

impl Error {
    /// A short, stable name for the kind, for display to a user.
    pub fn name(&self) -> (r: &'static str)
        ensures
            r@ == Self::spec_name(*self),
    {
        match self {
            Error::FunctionReferenceNotFound => "function reference not found",
            Error::UnsupportedFeature => "unsupported feature",
            Error::InvalidInput => "invalid input",
            Error::TypeError => "type error",
            Error::EvalError => "evaluation error",
            Error::InvalidPlan => "invalid plan",
        }
    }

    pub open spec fn spec_name(e: Error) -> Seq<char> {
        match e {
            Error::FunctionReferenceNotFound => "function reference not found"@,
            Error::UnsupportedFeature => "unsupported feature"@,
            Error::InvalidInput => "invalid input"@,
            Error::TypeError => "type error"@,
            Error::EvalError => "evaluation error"@,
            Error::InvalidPlan => "invalid plan"@,
        }
    }
}

/// A result with its success value replaced by that value's view.
pub open spec fn view_result<T: View>(r: Result<T, Error>) -> Result<T::V, Error> {
    match r {
        Ok(t) => Ok(t@),
        Err(e) => Err(e),
    }
}

} // verus!
