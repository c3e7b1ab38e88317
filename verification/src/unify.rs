use vstd::prelude::*;
use vstd::string::StringExecFns;
use crate::callback::{act_eval, payload_view, Act, EvalKind, Flow, PanicPayload};
use crate::context::{run_callback, Scope};
use crate::handle::Handle;
use crate::result::{NeonResult, Throw};
use crate::runtime::{
    handles_preserved, sync_eq, values_preserved, ErrorKind, Runtime,
};

verus! {

/// The classification of a guarded callback invocation, as the boundary
/// glue reports it: the callback returned a value, left the runtime
/// throwing, unwound natively — or reported `Err(Throw)` while the runtime
/// is not in a throwing state, which is a logic fault in the runtime's
/// state machine that must trigger a fatal assertion, never recovery.
#[derive(Clone, Copy, Debug, PartialEq, Eq, Structural)]
pub enum TryCatchControl {
    Returned,
    Threw,
    Panicked,
    UnexpectedErr,
}

/// Classifies what the try/catch boundary observed of a computation:
/// whether it unwound, whether its result channel reported `Ok`, and what
/// the clear-state probe of the runtime's throwing flag said.
///
/// A native unwind takes precedence over everything, a throwing state over
/// the result channel; a reported error with no pending exception is the
/// impossible fourth outcome, `UnexpectedErr`.
pub fn try_catch_control(panicked: bool, returned_ok: bool, throwing: bool) -> (r:
    TryCatchControl)
    ensures
        panicked ==> r == TryCatchControl::Panicked,
        !panicked && throwing ==> r == TryCatchControl::Threw,
        !panicked && !throwing && returned_ok ==> r == TryCatchControl::Returned,
        !panicked && !throwing && !returned_ok ==> r == TryCatchControl::UnexpectedErr,
{
    if panicked {
        TryCatchControl::Panicked
    } else if throwing {
        TryCatchControl::Threw
    } else if returned_ok {
        TryCatchControl::Returned
    } else {
        TryCatchControl::UnexpectedErr
    }
}

/// The outcome a try/catch boundary hands its caller: the returned value,
/// the caught exception value with the throwing state cleared, or the
/// propagated unwind.
pub enum TryCatchOutcome {
    Returned(Handle),
    Threw(Handle),
    Panicked(PanicPayload),
}

impl Scope {
    /// Guards a user computation and distinguishes its three outcomes.
    ///
    /// A returned value is handed back as `Returned`. A computation that
    /// left the runtime throwing yields `Threw` with the pending exception
    /// value retrieved and the throwing state cleared — also when its
    /// result channel reported `Ok`. A native unwind is propagated onward
    /// as `Panicked`, after the scope bookkeeping has been restored, and
    /// takes precedence over any pending throw. The fourth conceivable
    /// observation — a reported `Throw` with no pending exception — is a
    /// logic fault handled by a fatal assertion; verified callers are held
    /// to its absence by the precondition.
    pub fn try_catch_internal(&mut self, rt: &mut Runtime, f: &Act) -> (r: TryCatchOutcome)
        requires
            old(rt).wf(),
            old(self).metadata.active,
            old(self).metadata.env == old(rt).env,
            old(rt).scope_open(old(self).handle_scope),
            !(act_eval(*f, old(rt).has_exception()).0 is ReturnedErr && !act_eval(
                *f,
                old(rt).has_exception(),
            ).1),
        ensures
            final(rt).wf(),
            *final(self) == *old(self),
            final(rt).scopes@ == old(rt).scopes@,
            sync_eq(*old(rt), *final(rt)),
            values_preserved(*old(rt), *final(rt)),
            handles_preserved(*old(rt), *final(rt)),
            ({
                let ev = act_eval(*f, old(rt).has_exception());
                &&& (ev.0 matches EvalKind::Unwound(pv) ==> r matches TryCatchOutcome::Panicked(
                    p,
                ) && payload_view(p) == pv && final(rt).has_exception() == ev.1)
                &&& (!(ev.0 is Unwound) && ev.1 ==> {
                    &&& r matches TryCatchOutcome::Threw(h) && h.scope == old(self).handle_scope
                        && h.value < final(rt).values@.len() && (match ev.2 {
                        Some(m) => final(rt).value_message(h.value) == m,
                        None => (old(rt).exception matches Some(v) && h.value == v),
                    })
                    &&& !final(rt).has_exception()
                })
                &&& (ev.0 is Returned && !ev.1 ==> (r matches TryCatchOutcome::Returned(h)
                    && h.scope == old(self).handle_scope && !final(rt).has_exception()))
            }),
    {
        let flow = run_callback(rt, self, f);
        match flow {
            Flow::Panicked(p) => TryCatchOutcome::Panicked(p),
            Flow::Done(res) => {
                match rt.catch_error() {
                    Some(exc) => {
                        let h = Handle { value: exc, scope: self.handle_scope };
                        rt.note_handle(h);
                        TryCatchOutcome::Threw(h)
                    },
                    None => {
                        match res {
                            Ok(h) => TryCatchOutcome::Returned(h),
                            Err(_) => {
                                proof {
                                    assert(false);
                                }
                                vstd::pervasive::unreached::<TryCatchOutcome>()
                            },
                        }
                    },
                }
            },
        }
    }
}

/// The diagnostic message the module boundary gives a contained panic: a
/// textual payload is preserved verbatim after a fixed prefix; any other
/// payload falls back to the generic message.
pub open spec fn panic_message(payload: Option<Seq<char>>) -> Seq<char> {
    match payload {
        Some(s) => "internal error in Neon module: "@ + s,
        None => "internal error in Neon module"@,
    }
}

/// Converts a contained unwind into the runtime's failure channel: raises
/// a runtime exception carrying the panic's descriptive message — the
/// textual payload verbatim after a fixed prefix, or the generic fallback
/// — and reports the throwing state as `Err(Throw)`.
pub fn throw_panic(rt: &mut Runtime, p: PanicPayload) -> (r: NeonResult<Handle>)
    requires
        old(rt).wf(),
    ensures
        final(rt).wf(),
        r is Err,
        final(rt).has_exception(),
        final(rt).exception_message() == panic_message(payload_view(p)),
        final(rt).scopes@ == old(rt).scopes@,
        final(rt).scope_states@ == old(rt).scope_states@,
        sync_eq(*old(rt), *final(rt)),
        values_preserved(*old(rt), *final(rt)),
        final(rt).handles_made@ == old(rt).handles_made@,
{
    let msg: String = match p {
        PanicPayload::Message(s) => {
            let mut m = String::from_str("internal error in Neon module: ");
            m.append(s.as_str());
            m
        },
        PanicPayload::Opaque => String::from_str("internal error in Neon module"),
    };
    rt.raise(ErrorKind::Error, msg.as_str());
    Err(Throw)
}

/// Contains a native unwind at the module boundary.
///
/// The outermost call from the host into user code must not let an unwind
/// cross back into host-owned stack frames: a computation that unwinds is
/// converted into a runtime exception carrying a descriptive message — the
/// panic's textual payload verbatim, or a generic fallback — and reported
/// to the host as an ordinary `Throw` failure. A computation that
/// completes has its result handed through unchanged.
pub fn convert_panics(rt: &mut Runtime, cx: &mut Scope, f: &Act) -> (r: NeonResult<Handle>)
    requires
        old(rt).wf(),
        old(cx).metadata.active,
        old(cx).metadata.env == old(rt).env,
        old(rt).scope_open(old(cx).handle_scope),
    ensures
        final(rt).wf(),
        *final(cx) == *old(cx),
        final(rt).scopes@ == old(rt).scopes@,
        sync_eq(*old(rt), *final(rt)),
        values_preserved(*old(rt), *final(rt)),
        handles_preserved(*old(rt), *final(rt)),
        ({
            let ev = act_eval(*f, old(rt).has_exception());
            &&& (ev.0 matches EvalKind::Unwound(pv) ==> r is Err && final(rt).has_exception()
                && final(rt).exception_message() == panic_message(pv))
            &&& (!(ev.0 is Unwound) ==> {
                &&& final(rt).has_exception() == ev.1
                &&& (ev.2 matches Some(m) ==> final(rt).exception_message() == m)
                &&& (ev.2 is None ==> final(rt).exception == old(rt).exception)
            })
            &&& (ev.0 is Returned ==> (r matches Ok(h) && h.scope == old(cx).handle_scope))
            &&& (ev.0 is ReturnedErr ==> r == Err::<Handle, Throw>(Throw))
        }),
{
    let flow = run_callback(rt, cx, f);
    match flow {
        Flow::Done(res) => res,
        Flow::Panicked(p) => throw_panic(rt, p),
    }
}

/// The panic-precedence rule of the failure unification: a native panic
/// raised strictly after a throw-producing call in the same callback
/// supersedes the pending throw — the outcome a boundary observes for such
/// a callback is the unwind, with the runtime still in its throwing state
/// underneath.
pub proof fn lemma_panic_overrides_throw(msg: String, p: PanicPayload, throwing: bool)
    ensures
        ({
            let ev = act_eval(
                Act::ThrowError(msg, Box::new(Act::Panic(p))),
                throwing,
            );
            &&& ev.0 == EvalKind::Unwound(payload_view(p))
            &&& ev.1
        }),
{
    reveal_with_fuel(act_eval, 3);
}

} // verus!
