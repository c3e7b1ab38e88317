use vstd::prelude::*;
use crate::handle::Handle;
use crate::result::Throw;

verus! {

/// What a native unwind carries: a textual payload, preserved verbatim, or
/// a payload of some other shape.
#[derive(Debug)]
pub enum PanicPayload {
    Message(String),
    Opaque,
}

/// The content of a panic payload, as contracts speak of it.
pub open spec fn payload_view(p: PanicPayload) -> Option<Seq<char>> {
    match p {
        PanicPayload::Message(s) => Some(s@),
        PanicPayload::Opaque => None,
    }
}

/// A user-authored callback body, as data.
///
/// User code is foreign to this layer: all the layer relies on is which of
/// the runtime operations the callback performs, in which order, and
/// whether it finishes by returning, by propagating a `Throw` result, or by
/// unwinding natively. An `Act` records exactly that, so the scope and
/// failure-unification logic can be verified for every possible callback,
/// including ones that unwind.
pub enum Act {
    /// Finish normally, returning a value obtained in the current scope.
    Ret,
    /// Finish by propagating `Err(Throw)`.
    RetThrow,
    /// Obtain a handle in the current scope, then continue.
    GetHandle(Box<Act>),
    /// Raise a runtime exception with this message, then continue (the
    /// callback may deliberately go on past the throw).
    ThrowError(String, Box<Act>),
    /// Unwind natively with this payload.
    Panic(PanicPayload),
    /// Run the first part inside a nested scope, then continue with the
    /// second in the outer scope.
    Scoped(Box<Act>, Box<Act>),
}

/// How a callback finished, seen from the layer that ran it: either it
/// completed with a result, or it unwound and the unwind is being
/// propagated onward.
pub enum Flow {
    Done(Result<Handle, Throw>),
    Panicked(PanicPayload),
}

/// The shape of a callback's outcome, at the specification level.
pub enum EvalKind {
    /// Completed with `Ok`.
    Returned,
    /// Completed with `Err(Throw)`.
    ReturnedErr,
    /// Unwound, with this payload content.
    Unwound(Option<Seq<char>>),
}

/// The specification-level evaluator of a callback body.
///
/// Given the body and whether the runtime was already throwing, it yields
/// the outcome shape, whether the runtime is throwing afterwards, and the
/// message of the newest exception the body raised (`None` when the body
/// raised none, so the pending exception is whatever it was before).
/// Throwing state is never cleared by a callback, only set.
pub open spec fn act_eval(act: Act, throwing: bool) -> (EvalKind, bool, Option<Seq<char>>)
    decreases act,
{
    match act {
        Act::Ret => (EvalKind::Returned, throwing, None),
        Act::RetThrow => (EvalKind::ReturnedErr, throwing, None),
        Act::GetHandle(rest) => act_eval(*rest, throwing),
        Act::ThrowError(msg, rest) => {
            let after = act_eval(*rest, true);
            (after.0, after.1, if after.2 is Some { after.2 } else { Some(msg@) })
        },
        Act::Panic(p) => (EvalKind::Unwound(payload_view(p)), throwing, None),
        Act::Scoped(inner, rest) => {
            let in_eval = act_eval(*inner, throwing);
            if in_eval.0 is Unwound {
                in_eval
            } else {
                let rest_eval = act_eval(*rest, in_eval.1);
                (
                    rest_eval.0,
                    rest_eval.1,
                    if rest_eval.2 is Some { rest_eval.2 } else { in_eval.2 },
                )
            }
        },
    }
}

} // verus!
