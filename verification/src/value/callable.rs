//! Callable values: interpreted closures and host functions.

use sexpr_ir::gast::symbol::Location;
use sexpr_ir::gast::symbol::Symbol;
use sexpr_ir::gast::Handle;
use vstd::prelude::*;

use crate::prelude::native_bool_operator::bool_and_result;
use crate::prelude::native_bool_operator::bool_not_result;
use crate::prelude::native_bool_operator::bool_or_result;
use crate::prelude::native_bool_operator::native_bool_and;
use crate::prelude::native_bool_operator::native_bool_not;
use crate::prelude::native_bool_operator::native_bool_or;
use crate::text::share;
use crate::value::result::result_view;
use crate::value::result::CResult;
use crate::value::result::CError;
use crate::value::result::CErrorView;
use crate::value::symbol_view;
use crate::value::views;
use crate::value::Kind;
use crate::value::SymbolView;
use crate::value::Value;
use crate::value::ValueView;

verus! {

/// What runs once the arguments of a host function have been accepted.
#[derive(Debug)]
pub enum NativeBody {
    /// Logical negation of one boolean.
    BoolNot,
    /// Conjunction of two booleans, both of them evaluated.
    BoolAnd,
    /// Disjunction of two booleans, both of them evaluated.
    BoolOr,
    /// A function that the embedding program keeps under the number `id`
    /// and runs itself; `params` is the variant it expects of each
    /// argument, in order.
    Host { id: u64, params: Vec<Kind> },
}

/// A host function as it was registered: its public name, which carries
/// the source-location tag, and its body.
#[derive(Debug)]
pub struct NativeFunction {
    pub name: Handle<Symbol>,
    pub body: NativeBody,
}

/// Something that can be called with a sequence of arguments. What it is
/// is fixed when it is made.
#[derive(Debug)]
pub enum Callable {
    /// An interpreted closure, known here by the number under which the
    /// evaluator keeps it.
    Closure(u64),
    /// A host function.
    Native(Handle<NativeFunction>),
}

/// What a `NativeBody` is to the contracts.
pub enum NativeBodyView {
    BoolNot,
    BoolAnd,
    BoolOr,
    Host { id: u64, params: Seq<Kind> },
}

/// What a `NativeFunction` is to the contracts.
pub struct NativeFunctionView {
    pub name: SymbolView,
    pub body: NativeBodyView,
}

/// What a `Callable` is to the contracts.
pub enum CallableView {
    Closure(u64),
    Native(NativeFunctionView),
}

impl View for NativeBody {
    type V = NativeBodyView;

    open spec fn view(&self) -> NativeBodyView {
        match self {
            NativeBody::BoolNot => NativeBodyView::BoolNot,
            NativeBody::BoolAnd => NativeBodyView::BoolAnd,
            NativeBody::BoolOr => NativeBodyView::BoolOr,
            NativeBody::Host { id, params } => NativeBodyView::Host { id: *id, params: params@ },
        }
    }
}

impl View for NativeFunction {
    type V = NativeFunctionView;

    open spec fn view(&self) -> NativeFunctionView {
        NativeFunctionView { name: symbol_view(*self.name), body: self.body@ }
    }
}

impl View for Callable {
    type V = CallableView;

    open spec fn view(&self) -> CallableView {
        match self {
            Callable::Closure(id) => CallableView::Closure(*id),
            Callable::Native(f) => CallableView::Native(f@),
        }
    }
}

impl NativeBodyView {
    /// The variant that the body expects of each argument, in order. The
    /// length of this sequence is the arity.
    pub open spec fn params(self) -> Seq<Kind> {
        match self {
            NativeBodyView::BoolNot => seq![Kind::Bool],
            NativeBodyView::BoolAnd => seq![Kind::Bool, Kind::Bool],
            NativeBodyView::BoolOr => seq![Kind::Bool, Kind::Bool],
            NativeBodyView::Host { id, params } => params,
        }
    }
}

impl Clone for Callable {
    fn clone(&self) -> (r: Self)
        ensures
            r@ == self@,
    {
        match self {
            Callable::Closure(id) => Callable::Closure(*id),
            Callable::Native(f) => Callable::Native(share(f)),
        }
    }
}

/// The first position at or after `from` at which the variant of the
/// argument is not the variant expected, or the number of parameters where
/// there is none.
pub open spec fn first_mismatch(params: Seq<Kind>, args: Seq<ValueView>, from: int) -> int
    decreases params.len() - from,
{
    if from >= params.len() {
        params.len() as int
    } else if args[from].kind() != params[from] {
        from
    } else {
        first_mismatch(params, args, from + 1)
    }
}

/// Why the arguments `args` are refused by a function that expects
/// `params`, if they are: first the count is held against the arity, then
/// each argument in turn against the variant expected of it, and the first
/// that fails is reported.
pub open spec fn validation(params: Seq<Kind>, args: Seq<ValueView>) -> Option<CErrorView> {
    if args.len() != params.len() {
        Some(CErrorView::ArgsNotMatching(params.len() as usize, args.len() as usize))
    } else {
        let at = first_mismatch(params, args, 0);
        if at < params.len() {
            Some(CErrorView::TypeError(params[at], args[at]))
        } else {
            None
        }
    }
}

/// `first_mismatch` is the least position that fails: every argument
/// before it is of the variant expected, and the argument at it, if there
/// is one, is not.
pub proof fn lemma_first_mismatch(params: Seq<Kind>, args: Seq<ValueView>, from: int)
    requires
        0 <= from <= params.len(),
    ensures
        from <= first_mismatch(params, args, from) <= params.len(),
        forall|i: int|
            from <= i < first_mismatch(params, args, from) ==> (#[trigger] args[i]).kind()
                == params[i],
        first_mismatch(params, args, from) < params.len() ==> args[first_mismatch(
            params,
            args,
            from,
        )].kind() != params[first_mismatch(params, args, from)],
    decreases params.len() - from,
{
    if from < params.len() && args[from].kind() == params[from] {
        lemma_first_mismatch(params, args, from + 1);
    }
}

/// Holds the arguments of a call against what the function expects.
pub fn check_args(params: &Vec<Kind>, args: &Vec<Value>) -> (r: Result<(), CError>)
    ensures
        match r {
            Ok(_) => validation(params@, views(args@)) is None,
            Err(e) => validation(params@, views(args@)) == Some(e@),
        },
{
    if args.len() != params.len() {
        return Err(CError::ArgsNotMatching(params.len(), args.len()));
    }
    let ghost seen = views(args@);
    let mut i: usize = 0;
    while i < params.len()
        invariant
            i <= params.len(),
            args.len() == params.len(),
            seen == views(args@),
            first_mismatch(params@, seen, 0) == first_mismatch(params@, seen, i as int),
        decreases params.len() - i,
    {
        if args[i].kind() != params[i] {
            return Err(CError::TypeError(params[i], args[i].clone()));
        }
        i += 1;
    }
    Ok(())
}

/// How a call of a host function went on.
#[derive(Debug)]
pub enum Invocation {
    /// The call is over, with this result.
    Done(CResult),
    /// The arguments were accepted, and the embedding program now runs the
    /// function that it keeps under this number on them.
    Run(u64, Vec<Value>),
}

/// What an `Invocation` is to the contracts.
pub enum InvocationView {
    Done(Result<ValueView, CErrorView>),
    Run(u64, Seq<ValueView>),
}

impl View for Invocation {
    type V = InvocationView;

    open spec fn view(&self) -> InvocationView {
        match self {
            Invocation::Done(r) => InvocationView::Done(result_view(*r)),
            Invocation::Run(id, args) => InvocationView::Run(*id, views(args@)),
        }
    }
}

/// How the call of a host function with body `body` on `args` goes on.
/// Arguments that are refused end the call with the refusal, whatever the
/// body. Accepted arguments give the result of a body that this library
/// provides, and are handed on for one that the embedding program keeps.
pub open spec fn outcome(body: NativeBodyView, args: Seq<ValueView>) -> InvocationView {
    match body {
        NativeBodyView::BoolNot => InvocationView::Done(bool_not_result(args)),
        NativeBodyView::BoolAnd => InvocationView::Done(bool_and_result(args)),
        NativeBodyView::BoolOr => InvocationView::Done(bool_or_result(args)),
        NativeBodyView::Host { id, params } => match validation(params, args) {
            Some(e) => InvocationView::Done(Err(e)),
            None => InvocationView::Run(id, args),
        },
    }
}

/// A call with a number of arguments other than the arity is refused with
/// the count expected and the count given, and no body runs.
pub proof fn lemma_wrong_count_is_refused(body: NativeBodyView, args: Seq<ValueView>)
    requires
        args.len() != body.params().len(),
    ensures
        outcome(body, args) == InvocationView::Done(
            Err(CErrorView::ArgsNotMatching(body.params().len() as usize, args.len() as usize)),
        ),
{
}

/// A call with the right number of arguments, of which the one at `at` is
/// the first of a wrong variant, is refused with the variant expected
/// there and that argument, and no body runs.
pub proof fn lemma_wrong_variant_is_refused(body: NativeBodyView, args: Seq<ValueView>, at: int)
    requires
        args.len() == body.params().len(),
        0 <= at < args.len(),
        args[at].kind() != body.params()[at],
        forall|i: int| 0 <= i < at ==> (#[trigger] args[i]).kind() == body.params()[i],
    ensures
        outcome(body, args) == InvocationView::Done(
            Err(CErrorView::TypeError(body.params()[at], args[at])),
        ),
{
    lemma_first_mismatch(body.params(), args, 0);
}

/// A call whose arguments are all as expected is not refused.
pub proof fn lemma_right_arguments_are_accepted(body: NativeBodyView, args: Seq<ValueView>)
    requires
        args.len() == body.params().len(),
        forall|i: int| 0 <= i < args.len() ==> (#[trigger] args[i]).kind() == body.params()[i],
    ensures
        validation(body.params(), args) is None,
        !(outcome(body, args) matches InvocationView::Done(Err(_))),
{
    lemma_first_mismatch(body.params(), args, 0);
}

impl NativeFunction {
    /// Calls this function on `args`: validates them, and only then runs
    /// the body or hands the call on.
    pub fn call(&self, args: Vec<Value>) -> (r: Invocation)
        ensures
            r@ == outcome(self.body@, views(args@)),
    {
        match &self.body {
            NativeBody::BoolNot => Invocation::Done(native_bool_not(args)),
            NativeBody::BoolAnd => Invocation::Done(native_bool_and(args)),
            NativeBody::BoolOr => Invocation::Done(native_bool_or(args)),
            NativeBody::Host { id, params } => match check_args(params, &args) {
                Err(e) => Invocation::Done(Err(e)),
                Ok(_) => Invocation::Run(*id, args),
            },
        }
    }
}

/// `Symbol::from` of `sexpr_ir` interns the text `name` and pairs the
/// handle with a copy of `location`: the symbol reads `name` and stands
/// at `location`.
#[verifier::external_body]
fn make_symbol(name: &str, location: &Location) -> (s: Symbol)
    ensures
        s.0@ == name@,
        s.1 == *location,
{
    Symbol::from(name, location)
}

/// The host function with body `body` under the public name `name`,
/// tagged with `location`, as a value.
pub open spec fn native_value(
    name: Seq<char>,
    location: Location,
    body: NativeBodyView,
) -> ValueView {
    ValueView::Callable(
        CallableView::Native(
            NativeFunctionView {
                name: SymbolView {
                    name,
                    path: location.path@,
                    line: location.line,
                    column: location.colum,
                    pos: location.pos,
                },
                body,
            },
        ),
    )
}

/// Registers a host function: wraps `body` under the public name `name`,
/// tagged with `location`, into a callable value.
pub fn wrap(name: &str, location: &Location, body: NativeBody) -> (r: Value)
    ensures
        r@ == native_value(name@, *location, body@),
{
    let name = Handle::new(make_symbol(name, location));
    Value::Callable(Callable::Native(Handle::new(NativeFunction { name, body })))
}

} // verus!
