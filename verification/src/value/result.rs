//! What a call of a host function gives back.

use vstd::prelude::*;

use crate::value::Kind;
use crate::value::Value;
use crate::value::ValueView;

verus! {

/// Why a call of a host function was refused.
#[derive(Debug)]
pub enum CError {
    /// The number of arguments is not the arity: the count expected, then
    /// the count given.
    ArgsNotMatching(usize, usize),
    /// An argument is of the wrong variant: the variant expected, then the
    /// offending argument.
    TypeError(Kind, Value),
}

/// The result of a call: a value, or the reason for the refusal.
pub type CResult = Result<Value, CError>;

/// What a `CError` is to the contracts.
pub enum CErrorView {
    ArgsNotMatching(usize, usize),
    TypeError(Kind, ValueView),
}

impl View for CError {
    type V = CErrorView;

    open spec fn view(&self) -> CErrorView {
        match self {
            CError::ArgsNotMatching(expected, actual) => CErrorView::ArgsNotMatching(
                *expected,
                *actual,
            ),
            CError::TypeError(expected, value) => CErrorView::TypeError(*expected, value@),
        }
    }
}

/// The view of the result of a call.
pub open spec fn result_view(r: CResult) -> Result<ValueView, CErrorView> {
    match r {
        Ok(value) => Ok(value@),
        Err(error) => Err(error@),
    }
}

} // verus!
