//! Host functions on booleans: `not`, `raw-and` and `raw-or`.
//!
//! Each of them validates before it computes: first the number of
//! arguments, then the variant of each argument in turn. `raw-and` and
//! `raw-or` take both arguments already evaluated; neither skips one.

use sexpr_ir::gast::symbol::Location;
use vstd::prelude::*;

use crate::value::callable::validation;
use crate::value::callable::wrap;
use crate::value::callable::native_value;
use crate::value::callable::NativeBody;
use crate::value::callable::NativeBodyView;
use crate::value::result::CError;
use crate::value::result::CErrorView;
use crate::value::result::CResult;
use crate::value::result::result_view;
use crate::value::views;
use crate::value::Kind;
use crate::value::Value;
use crate::value::ValueView;

verus! {

/// What `not` gives for the arguments `args`: the refusal, if they are
/// refused, and otherwise the negation of the one boolean.
pub open spec fn bool_not_result(args: Seq<ValueView>) -> Result<ValueView, CErrorView> {
    match validation(seq![Kind::Bool], args) {
        Some(e) => Err(e),
        None => Ok(ValueView::Bool(!args[0]->Bool_0)),
    }
}

/// What `raw-and` gives for the arguments `args`: the refusal, if they are
/// refused, and otherwise the conjunction of the two booleans.
pub open spec fn bool_and_result(args: Seq<ValueView>) -> Result<ValueView, CErrorView> {
    match validation(seq![Kind::Bool, Kind::Bool], args) {
        Some(e) => Err(e),
        None => Ok(ValueView::Bool(args[0]->Bool_0 && args[1]->Bool_0)),
    }
}

/// What `raw-or` gives for the arguments `args`: the refusal, if they are
/// refused, and otherwise the disjunction of the two booleans.
pub open spec fn bool_or_result(args: Seq<ValueView>) -> Result<ValueView, CErrorView> {
    match validation(seq![Kind::Bool, Kind::Bool], args) {
        Some(e) => Err(e),
        None => Ok(ValueView::Bool(args[0]->Bool_0 || args[1]->Bool_0)),
    }
}

/// The host function `not`.
pub fn native_bool_not(args: Vec<Value>) -> (r: CResult)
    ensures
        result_view(r) == bool_not_result(views(args@)),
{
    proof {
        reveal_with_fuel(crate::value::callable::first_mismatch, 3);
    }
    if args.len() != 1 {
        return Err(CError::ArgsNotMatching(1, args.len()));
    }
    let v = &args[0];
    if let Value::Bool(b) = v {
        Ok(Value::Bool(!*b))
    } else {
        Err(CError::TypeError(Kind::Bool, v.clone()))
    }
}

/// The host function `raw-and`.
pub fn native_bool_and(args: Vec<Value>) -> (r: CResult)
    ensures
        result_view(r) == bool_and_result(views(args@)),
{
    proof {
        reveal_with_fuel(crate::value::callable::first_mismatch, 3);
    }
    if args.len() != 2 {
        return Err(CError::ArgsNotMatching(2, args.len()));
    }
    let a = &args[0];
    let b = &args[1];
    let a = if let Value::Bool(a) = a {
        *a
    } else {
        return Err(CError::TypeError(Kind::Bool, a.clone()));
    };
    if let Value::Bool(b) = b {
        Ok(Value::Bool(a && *b))
    } else {
        Err(CError::TypeError(Kind::Bool, b.clone()))
    }
}

/// The host function `raw-or`.
pub fn native_bool_or(args: Vec<Value>) -> (r: CResult)
    ensures
        result_view(r) == bool_or_result(views(args@)),
{
    proof {
        reveal_with_fuel(crate::value::callable::first_mismatch, 3);
    }
    if args.len() != 2 {
        return Err(CError::ArgsNotMatching(2, args.len()));
    }
    let a = &args[0];
    let b = &args[1];
    let a = if let Value::Bool(a) = a {
        *a
    } else {
        return Err(CError::TypeError(Kind::Bool, a.clone()));
    };
    if let Value::Bool(b) = b {
        Ok(Value::Bool(a || *b))
    } else {
        Err(CError::TypeError(Kind::Bool, b.clone()))
    }
}

/// `not` as a callable value, tagged with `location`.
pub fn bool_not_wrap(location: &Location) -> (r: Value)
    ensures
        r@ == native_value("not"@, *location, NativeBodyView::BoolNot),
{
    wrap("not", location, NativeBody::BoolNot)
}

/// `raw-and` as a callable value, tagged with `location`.
pub fn bool_and_wrap(location: &Location) -> (r: Value)
    ensures
        r@ == native_value("raw-and"@, *location, NativeBodyView::BoolAnd),
{
    wrap("raw-and", location, NativeBody::BoolAnd)
}

/// `raw-or` as a callable value, tagged with `location`.
pub fn bool_or_wrap(location: &Location) -> (r: Value)
    ensures
        r@ == native_value("raw-or"@, *location, NativeBodyView::BoolOr),
{
    wrap("raw-or", location, NativeBody::BoolOr)
}

} // verus!
