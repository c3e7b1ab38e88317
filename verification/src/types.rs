use vstd::prelude::*;
use vstd::string::StringExecFns;
use crate::context::Scope;
use crate::handle::Handle;
use crate::result::NeonResult;
use crate::runtime::{
    handles_preserved, scopes_eq, sync_eq, values_preserved, ErrorKind, Runtime, ValueKind,
};

verus! {

/// The runtime's error value classes: constructors for direct instances
/// of the base error class and of its type-error and range-error
/// subclasses. Creating an error value does not put the runtime into a
/// throwing state; the value is simply a value, bound to the current
/// scope like any other.
pub struct JsError;

impl JsError {
    /// Creates a direct instance of the runtime's base error class,
    /// carrying the message, as a fresh value in the current scope.
    pub fn error(cx: &Scope, rt: &mut Runtime, msg: &str) -> (r: NeonResult<Handle>)
        requires
            old(rt).wf(),
            cx.metadata.active,
            old(rt).scope_open(cx.handle_scope),
        ensures
            final(rt).wf(),
            r matches Ok(h) && h.scope == cx.handle_scope && h.value == old(rt).values@.len()
                && final(rt).value_message(h.value) == msg@ && (match final(rt).values@[
            h.value as int] {
                ValueKind::ErrorVal { kind: k, .. } => k == ErrorKind::Error,
                ValueKind::Undefined => false,
            }) && final(rt).handles_made@ == old(rt).handles_made@.push(h),
            final(rt).values@.len() == old(rt).values@.len() + 1,
            values_preserved(*old(rt), *final(rt)),
            handles_preserved(*old(rt), *final(rt)),
            scopes_eq(*old(rt), *final(rt)),
            sync_eq(*old(rt), *final(rt)),
            final(rt).exception == old(rt).exception,
    {
        let id: usize = rt.values.len();
        rt.values.push(
            ValueKind::ErrorVal { kind: ErrorKind::Error, message: String::from_str(msg) },
        );
        let h = Handle { value: id, scope: cx.handle_scope };
        rt.note_handle(h);
        Ok(h)
    }

    /// Creates an instance of the runtime's type-error class, carrying
    /// the message, as a fresh value in the current scope.
    pub fn type_error(cx: &Scope, rt: &mut Runtime, msg: &str) -> (r: NeonResult<Handle>)
        requires
            old(rt).wf(),
            cx.metadata.active,
            old(rt).scope_open(cx.handle_scope),
        ensures
            final(rt).wf(),
            r matches Ok(h) && h.scope == cx.handle_scope && h.value == old(rt).values@.len()
                && final(rt).value_message(h.value) == msg@ && (match final(rt).values@[
            h.value as int] {
                ValueKind::ErrorVal { kind: k, .. } => k == ErrorKind::TypeError,
                ValueKind::Undefined => false,
            }) && final(rt).handles_made@ == old(rt).handles_made@.push(h),
            final(rt).values@.len() == old(rt).values@.len() + 1,
            values_preserved(*old(rt), *final(rt)),
            handles_preserved(*old(rt), *final(rt)),
            scopes_eq(*old(rt), *final(rt)),
            sync_eq(*old(rt), *final(rt)),
            final(rt).exception == old(rt).exception,
    {
        let id: usize = rt.values.len();
        rt.values.push(
            ValueKind::ErrorVal { kind: ErrorKind::TypeError, message: String::from_str(msg) },
        );
        let h = Handle { value: id, scope: cx.handle_scope };
        rt.note_handle(h);
        Ok(h)
    }

    /// Creates an instance of the runtime's range-error class, carrying
    /// the message, as a fresh value in the current scope.
    pub fn range_error(cx: &Scope, rt: &mut Runtime, msg: &str) -> (r: NeonResult<Handle>)
        requires
            old(rt).wf(),
            cx.metadata.active,
            old(rt).scope_open(cx.handle_scope),
        ensures
            final(rt).wf(),
            r matches Ok(h) && h.scope == cx.handle_scope && h.value == old(rt).values@.len()
                && final(rt).value_message(h.value) == msg@ && (match final(rt).values@[
            h.value as int] {
                ValueKind::ErrorVal { kind: k, .. } => k == ErrorKind::RangeError,
                ValueKind::Undefined => false,
            }) && final(rt).handles_made@ == old(rt).handles_made@.push(h),
            final(rt).values@.len() == old(rt).values@.len() + 1,
            values_preserved(*old(rt), *final(rt)),
            handles_preserved(*old(rt), *final(rt)),
            scopes_eq(*old(rt), *final(rt)),
            sync_eq(*old(rt), *final(rt)),
            final(rt).exception == old(rt).exception,
    {
        let id: usize = rt.values.len();
        rt.values.push(
            ValueKind::ErrorVal { kind: ErrorKind::RangeError, message: String::from_str(msg) },
        );
        let h = Handle { value: id, scope: cx.handle_scope };
        rt.note_handle(h);
        Ok(h)
    }
}

} // verus!
