use vstd::prelude::*;
use crate::callback::{act_eval, payload_view, Act, EvalKind, Flow, PanicPayload};
use crate::env::Env;
use crate::handle::Handle;
use crate::result::{NeonResult, Throw};
use crate::runtime::{
    channels_eq, handles_preserved, scopes_eq, sync_eq, values_preserved, ErrorKind, Runtime,
    ValueKind,
};
use crate::sync::{channel_logs_eq, channels_eq_except, EventQueue};

verus! {

/// The bookkeeping of one dynamic extent of validity: the runtime
/// instantiation it belongs to and an active flag. The flag is cleared
/// while a nested scope runs and when the extent ends; a context whose flag
/// is clear must not be used for any runtime operation.
#[derive(Clone, Copy, Debug, PartialEq, Eq, Structural)]
pub struct ScopeMetadata {
    pub env: Env,
    pub active: bool,
}

/// An execution context: the capability through which all runtime
/// operations are issued. It composes the scope bookkeeping with the
/// handle-scope resource entered for its extent; handles obtained through
/// it are valid only while that handle scope is open.
pub struct Scope {
    pub metadata: ScopeMetadata,
    pub handle_scope: usize,
}

impl Scope {
    /// The scope bookkeeping of this context.
    pub fn scope_metadata(&self) -> (r: &ScopeMetadata)
        ensures
            *r == self.metadata,
    {
        &self.metadata
    }

    /// The runtime instantiation this context belongs to.
    pub fn env(&self) -> (r: Env)
        ensures
            r == self.metadata.env,
    {
        self.metadata.env
    }

    /// Whether this context may currently issue runtime operations.
    pub fn is_active(&self) -> (r: bool)
        ensures
            r == self.metadata.active,
    {
        self.metadata.active
    }

    /// Asserts that this context is active. Using an inactive context — one
    /// whose extent has ended, or a stale capture from a returned closure —
    /// is a precondition violation, a programming defect that the layer
    /// fails fast and loudly on rather than attempting to recover from;
    /// verified callers are held to the precondition instead.
    pub fn check_active(&self)
        requires
            self.metadata.active,
    {
    }

    /// Sets the active flag, when this context's extent becomes current
    /// again after a nested scope returns.
    pub fn activate(&mut self)
        ensures
            final(self).metadata.active,
            final(self).metadata.env == old(self).metadata.env,
            final(self).handle_scope == old(self).handle_scope,
    {
        self.metadata.active = true;
    }

    /// Clears the active flag, for the extent of a nested scope.
    pub fn deactivate(&mut self)
        ensures
            !final(self).metadata.active,
            final(self).metadata.env == old(self).metadata.env,
            final(self).handle_scope == old(self).handle_scope,
    {
        self.metadata.active = false;
    }

    /// Allocates a handle-scope resource and enters it, binding all
    /// subsequently obtained handles to the new extent. The new context is
    /// active and its handle scope sits innermost on the scope stack.
    pub fn enter(rt: &mut Runtime, env: Env) -> (s: Scope)
        requires
            old(rt).wf(),
            env == old(rt).env,
        ensures
            final(rt).wf(),
            s.metadata.env == env,
            s.metadata.active,
            s.handle_scope == old(rt).scope_states@.len(),
            final(rt).scope_states@ == old(rt).scope_states@.push(true),
            final(rt).scopes@ == old(rt).scopes@.push(s.handle_scope),
            final(rt).scope_open(s.handle_scope),
            sync_eq(*old(rt), *final(rt)),
            final(rt).values@ == old(rt).values@,
            final(rt).handles_made@ == old(rt).handles_made@,
            final(rt).exception == old(rt).exception,
    {
        let id: usize = rt.scope_states.len();
        rt.scope_states.push(true);
        rt.scopes.push(id);
        Scope { metadata: ScopeMetadata { env, active: true }, handle_scope: id }
    }

    /// Exits the handle-scope resource of this context, which must be the
    /// innermost open scope. Every handle bound to it becomes invalid, for
    /// good: a scope identifier is never reused.
    pub fn exit(self, rt: &mut Runtime)
        requires
            old(rt).wf(),
            old(rt).scopes@.len() > 0,
            old(rt).scopes@.last() == self.handle_scope,
        ensures
            final(rt).wf(),
            final(rt).scopes@ == old(rt).scopes@.drop_last(),
            final(rt).scope_states@
                == old(rt).scope_states@.update(self.handle_scope as int, false),
            !final(rt).scope_open(self.handle_scope),
            sync_eq(*old(rt), *final(rt)),
            final(rt).values@ == old(rt).values@,
            final(rt).handles_made@ == old(rt).handles_made@,
            final(rt).exception == old(rt).exception,
    {
        rt.scopes.pop();
        rt.scope_states.set(self.handle_scope, false);
    }

    /// Obtains a fresh handle to a plain value, bound to this context's
    /// scope. This is the model's one value constructor: the concrete value
    /// types live beyond this layer.
    pub fn undefined(&self, rt: &mut Runtime) -> (h: Handle)
        requires
            old(rt).wf(),
            self.metadata.active,
            old(rt).scope_open(self.handle_scope),
        ensures
            final(rt).wf(),
            h.scope == self.handle_scope,
            h.value == old(rt).values@.len(),
            final(rt).values@ == old(rt).values@.push(ValueKind::Undefined),
            final(rt).handles_made@ == old(rt).handles_made@.push(h),
            values_preserved(*old(rt), *final(rt)),
            handles_preserved(*old(rt), *final(rt)),
            final(rt).values@.len() == old(rt).values@.len() + 1,
            final(rt).handles_made@.len() == old(rt).handles_made@.len() + 1,
            final(rt).handles_made@[old(rt).handles_made@.len() as int] == h,
            scopes_eq(*old(rt), *final(rt)),
            sync_eq(*old(rt), *final(rt)),
            final(rt).exception == old(rt).exception,
    {
        let id: usize = rt.values.len();
        rt.values.push(ValueKind::Undefined);
        let h = Handle { value: id, scope: self.handle_scope };
        rt.handles_made.push(h);
        h
    }

    /// Raises a runtime exception with the given message and reports the
    /// throwing state to the caller as `Err(Throw)`.
    pub fn throw_error(&self, rt: &mut Runtime, msg: &str) -> (r: NeonResult<Handle>)
        requires
            old(rt).wf(),
            self.metadata.active,
            old(rt).scope_open(self.handle_scope),
        ensures
            final(rt).wf(),
            r is Err,
            final(rt).has_exception(),
            final(rt).exception_message() == msg@,
            scopes_eq(*old(rt), *final(rt)),
            sync_eq(*old(rt), *final(rt)),
            values_preserved(*old(rt), *final(rt)),
            final(rt).handles_made@ == old(rt).handles_made@,
    {
        rt.raise(ErrorKind::Error, msg);
        Err(Throw)
    }
}

/// Copies a panic payload, preserving its content exactly.
fn clone_payload(p: &PanicPayload) -> (r: PanicPayload)
    ensures
        payload_view(r) == payload_view(*p),
{
    match p {
        PanicPayload::Message(s) => PanicPayload::Message(s.clone()),
        PanicPayload::Opaque => PanicPayload::Opaque,
    }
}

/// Invokes a user callback, given as data, against the runtime through an
/// active context.
///
/// This is the layer's model of running foreign user code: the callback
/// may obtain handles, raise exceptions, run nested scopes and unwind, and
/// the contract pins down the outcome for every such body. In particular:
/// the scope stack is exactly restored; the active flag of the context is
/// exactly as before the call, whether the body returned or unwound; every
/// scope the body entered has exited again; and every handle the body
/// obtained is bound either to the caller's scope or to a scope that has
/// since exited.
pub fn run_callback(rt: &mut Runtime, cx: &mut Scope, act: &Act) -> (r: Flow)
    requires
        old(rt).wf(),
        old(cx).metadata.active,
        old(cx).metadata.env == old(rt).env,
        old(rt).scope_open(old(cx).handle_scope),
    ensures
        final(rt).wf(),
        *final(cx) == *old(cx),
        final(rt).scopes@ == old(rt).scopes@,
        final(rt).scope_states@.len() >= old(rt).scope_states@.len(),
        forall|i: int| 0 <= i < old(rt).scope_states@.len()
            ==> final(rt).scope_states@[i] == old(rt).scope_states@[i],
        forall|i: int|
            old(rt).scope_states@.len() <= i < final(rt).scope_states@.len()
            ==> !final(rt).scope_states@[i],
        sync_eq(*old(rt), *final(rt)),
        values_preserved(*old(rt), *final(rt)),
        handles_preserved(*old(rt), *final(rt)),
        forall|i: int|
            old(rt).handles_made@.len() <= i < final(rt).handles_made@.len()
            ==> ((#[trigger] final(rt).handles_made@[i]).scope == old(cx).handle_scope
                || final(rt).handles_made@[i].scope >= old(rt).scope_states@.len()),
        ({
            let ev = act_eval(*act, old(rt).has_exception());
            &&& final(rt).has_exception() == ev.1
            &&& (ev.2 matches Some(m)
                ==> final(rt).has_exception() && final(rt).exception_message() == m)
            &&& (ev.2 is None ==> final(rt).exception == old(rt).exception)
            &&& match ev.0 {
                EvalKind::Returned => r matches Flow::Done(Ok(h))
                    && h.scope == old(cx).handle_scope
                    && h.value < final(rt).values@.len(),
                EvalKind::ReturnedErr => r == Flow::Done(Err::<Handle, Throw>(Throw)),
                EvalKind::Unwound(pv) => r matches Flow::Panicked(p) && payload_view(p) == pv,
            }
        }),
    decreases *act,
{
    match act {
        Act::Ret => {
            let h = cx.undefined(rt);
            proof {
                assert forall|i: int|
                    old(rt).handles_made@.len() <= i < rt.handles_made@.len() implies (
                    (#[trigger] rt.handles_made@[i]).scope == old(cx).handle_scope
                        || rt.handles_made@[i].scope >= old(rt).scope_states@.len()) by {
                    assert(i == old(rt).handles_made@.len());
                    assert(rt.handles_made@[i] == h);
                }
            }
            Flow::Done(Ok(h))
        },
        Act::RetThrow => Flow::Done(Err(Throw)),
        Act::GetHandle(rest) => {
            let h = cx.undefined(rt);
            let ghost mid = *rt;
            let r = run_callback(rt, cx, rest);
            proof {
                assert forall|i: int|
                    old(rt).handles_made@.len() <= i < rt.handles_made@.len() implies (
                    (#[trigger] rt.handles_made@[i]).scope == old(cx).handle_scope
                        || rt.handles_made@[i].scope >= old(rt).scope_states@.len()) by {
                    if i == old(rt).handles_made@.len() {
                        assert(mid.handles_made@[i] == h);
                        assert(rt.handles_made@[i] == mid.handles_made@[i]);
                    }
                }
            }
            r
        },
        Act::ThrowError(msg, rest) => {
            rt.raise(ErrorKind::Error, msg.as_str());
            run_callback(rt, cx, rest)
        },
        Act::Panic(p) => Flow::Panicked(clone_payload(p)),
        Act::Scoped(inner, rest) => {
            let env = cx.metadata.env;
            cx.deactivate();
            let mut inner_cx = Scope::enter(rt, env);
            let ghost s1 = *rt;
            let inner_flow = run_callback(rt, &mut inner_cx, inner);
            proof {
                assert(rt.scopes@ == s1.scopes@);
                assert(rt.scopes@.last() == inner_cx.handle_scope);
            }
            let ghost s2 = *rt;
            inner_cx.exit(rt);
            cx.activate();
            proof {
                assert(rt.scopes@ =~= old(rt).scopes@);
                assert forall|i: int|
                    0 <= i < old(rt).scope_states@.len() implies #[trigger] rt.scope_states@[i]
                    == old(rt).scope_states@[i] by {
                    assert(s2.scope_states@[i] == s1.scope_states@[i]);
                    assert(s1.scope_states@[i] == old(rt).scope_states@[i]);
                }
                assert forall|i: int|
                    old(rt).scope_states@.len() <= i < rt.scope_states@.len() implies !(
                    #[trigger] rt.scope_states@[i]) by {
                    if i != inner_cx.handle_scope {
                        if i < s1.scope_states@.len() {
                            assert(s1.scope_states@[i] == false);
                        } else {
                            assert(!s2.scope_states@[i]);
                        }
                    }
                }
            }
            let ghost s3 = *rt;
            match inner_flow {
                Flow::Panicked(p) => Flow::Panicked(p),
                Flow::Done(_) => {
                    let r = run_callback(rt, cx, rest);
                    proof {
                        assert forall|i: int|
                            0 <= i < old(rt).scope_states@.len() implies #[trigger] rt
                            .scope_states@[i] == old(rt).scope_states@[i] by {
                            assert(rt.scope_states@[i] == s3.scope_states@[i]);
                        }
                        assert forall|i: int|
                            old(rt).scope_states@.len() <= i < rt.scope_states@.len() implies !(
                            #[trigger] rt.scope_states@[i]) by {
                            if i < s3.scope_states@.len() {
                                assert(rt.scope_states@[i] == s3.scope_states@[i]);
                            }
                        }
                        assert forall|i: int|
                            old(rt).handles_made@.len() <= i < rt.handles_made@.len() implies (
                            (#[trigger] rt.handles_made@[i]).scope == old(cx).handle_scope
                                || rt.handles_made@[i].scope >= old(rt).scope_states@.len()) by {
                            if i < s3.handles_made@.len() {
                                assert(rt.handles_made@[i] == s3.handles_made@[i]);
                            }
                        }
                    }
                    r
                },
            }
        },
    }
}

impl Scope {
    /// Allocates a handle-scope resource under `env`, enters it, runs the
    /// callback with a fresh active context bound to it, then exits the
    /// resource before returning the callback's outcome — including when
    /// the callback unwinds, since the handle scope is a scarce system
    /// resource that must always be released.
    ///
    /// The contract records the two scope-safety guarantees: the scope
    /// stack is exactly as before the call, every scope entered during the
    /// call has exited again, and every handle obtained during the call —
    /// the returned one included — is bound to a scope that is closed once
    /// this function returns, so later use of such a handle is rejected.
    pub fn with(rt: &mut Runtime, env: Env, act: &Act) -> (r: Flow)
        requires
            old(rt).wf(),
            env == old(rt).env,
        ensures
            final(rt).wf(),
            final(rt).scopes@ == old(rt).scopes@,
            final(rt).scope_states@.len() > old(rt).scope_states@.len(),
            forall|i: int| 0 <= i < old(rt).scope_states@.len()
                ==> final(rt).scope_states@[i] == old(rt).scope_states@[i],
            forall|i: int|
                old(rt).scope_states@.len() <= i < final(rt).scope_states@.len()
                ==> !final(rt).scope_states@[i],
            sync_eq(*old(rt), *final(rt)),
            values_preserved(*old(rt), *final(rt)),
            handles_preserved(*old(rt), *final(rt)),
            forall|i: int|
                old(rt).handles_made@.len() <= i < final(rt).handles_made@.len()
                ==> !final(rt).scope_open(
                    (#[trigger] final(rt).handles_made@[i]).scope,
                ),
            ({
                let ev = act_eval(*act, old(rt).has_exception());
                &&& final(rt).has_exception() == ev.1
                &&& (ev.2 matches Some(m)
                    ==> final(rt).has_exception() && final(rt).exception_message() == m)
                &&& (ev.2 is None ==> final(rt).exception == old(rt).exception)
                &&& match ev.0 {
                    EvalKind::Returned => r matches Flow::Done(Ok(h))
                        && !final(rt).scope_open(h.scope),
                    EvalKind::ReturnedErr => r == Flow::Done(Err::<Handle, Throw>(Throw)),
                    EvalKind::Unwound(pv) => r matches Flow::Panicked(p) && payload_view(p)
                        == pv,
                }
            }),
    {
        let mut cx = Scope::enter(rt, env);
        let flow = run_callback(rt, &mut cx, act);
        cx.exit(rt);
        flow
    }
}

/// The module boundary: the host invokes this once per module load with
/// the runtime instantiation and the module's user initialization logic.
/// It creates the root scope and context, installs the per-instance data
/// block — holding the default dispatch queue, freshly registered and
/// unref'd so its existence does not keep the process alive — and then
/// runs the user initialization inside the root scope. The
/// initialization's result is discarded; an unwind out of it propagates
/// to the caller in the returned outcome, after the root scope has been
/// exited.
pub fn initialize_module(rt: &mut Runtime, env: Env, init: &Act) -> (r: Flow)
    requires
        old(rt).wf(),
        env == old(rt).env,
        !old(rt).register_denied,
        old(rt).instance_chan is None,
    ensures
        final(rt).wf(),
        final(rt).scopes@ == old(rt).scopes@,
        forall|i: int| 0 <= i < old(rt).scope_states@.len()
            ==> final(rt).scope_states@[i] == old(rt).scope_states@[i],
        forall|i: int|
            old(rt).scope_states@.len() <= i < final(rt).scope_states@.len()
            ==> !final(rt).scope_states@[i],
        values_preserved(*old(rt), *final(rt)),
        handles_preserved(*old(rt), *final(rt)),
        final(rt).refs@ == old(rt).refs@,
        final(rt).persistents@ == old(rt).persistents@,
        final(rt).shutdown == old(rt).shutdown,
        final(rt).register_denied == old(rt).register_denied,
        final(rt).env == old(rt).env,
        final(rt).class_map_init == old(rt).class_map_init,
        final(rt).instance_chan matches Some(c) && c == old(rt).channels@.len() && {
            let ch = final(rt).channels@[c as int];
            &&& final(rt).channels@.len() == old(rt).channels@.len() + 1
            &&& ch.open
            &&& !ch.refed
            &&& ch.strong == 1
            &&& ch.queue@.len() == 0
            &&& ch.executed@.len() == 0
            &&& ch.discarded@.len() == 0
        },
        channels_eq(old(rt).channels@, final(rt).channels@.drop_last()),
        ({
            let ev = act_eval(*init, old(rt).has_exception());
            &&& final(rt).has_exception() == ev.1
            &&& (ev.2 matches Some(m)
                ==> final(rt).has_exception() && final(rt).exception_message() == m)
            &&& (ev.2 is None ==> final(rt).exception == old(rt).exception)
            &&& (ev.0 matches EvalKind::Unwound(pv) ==> (r matches Flow::Panicked(p)
                && payload_view(p) == pv))
            &&& (!(ev.0 is Unwound) ==> r is Done)
        }),
{
    let mut cx = Scope::enter(rt, env);
    let q = match EventQueue::new(&cx, rt) {
        Ok(q) => q,
        Err(_) => {
            proof {
                assert(false);
            }
            vstd::pervasive::unreached::<EventQueue>()
        },
    };
    let ghost m1 = *rt;
    let q = match q.unref(&cx, rt) {
        Ok(q) => q,
        Err(_) => {
            proof {
                assert(false);
            }
            vstd::pervasive::unreached::<EventQueue>()
        },
    };
    rt.instance_chan = Some(q.chan);
    let ghost m2 = *rt;
    let flow = run_callback(rt, &mut cx, init);
    let ghost entered = cx.handle_scope;
    cx.exit(rt);
    proof {
        assert(rt.scopes@ =~= old(rt).scopes@);
        assert forall|i: int|
            old(rt).scope_states@.len() <= i < rt.scope_states@.len() implies !(
        #[trigger] rt.scope_states@[i]) by {
            assert(i >= entered);
        }
        assert forall|i: int|
            0 <= i < old(rt).channels@.len() implies crate::runtime::channel_eq(
            old(rt).channels@[i],
            #[trigger] rt.channels@.drop_last()[i],
        ) by {
            assert(crate::runtime::channel_eq(old(rt).channels@[i], m1.channels@.drop_last()[i]));
            assert(m1.channels@.drop_last()[i] == m1.channels@[i]);
            assert(crate::runtime::channel_eq(m1.channels@[i], m2.channels@[i]));
            assert(crate::runtime::channel_eq(m2.channels@[i], rt.channels@[i]));
            assert(rt.channels@.drop_last()[i] == rt.channels@[i]);
        }
    }
    flow
}

/// The host-invoked finalizer for the per-instance data block, run when
/// the runtime instance is torn down: uninstalls the block and drops its
/// default-queue handle, releasing the dispatch channel when that handle
/// was the last one.
pub fn drop_module_instance_data(rt: &mut Runtime)
    requires
        old(rt).wf(),
        old(rt).instance_chan matches Some(c) && old(rt).channels@[c as int].strong >= 1,
    ensures
        final(rt).wf(),
        final(rt).instance_chan is None,
        final(rt).refs@ == old(rt).refs@,
        final(rt).persistents@ == old(rt).persistents@,
        final(rt).shutdown == old(rt).shutdown,
        final(rt).register_denied == old(rt).register_denied,
        final(rt).env == old(rt).env,
        final(rt).class_map_init == old(rt).class_map_init,
        scopes_eq(*old(rt), *final(rt)),
        final(rt).values@ == old(rt).values@,
        final(rt).handles_made@ == old(rt).handles_made@,
        final(rt).exception == old(rt).exception,
        old(rt).instance_chan matches Some(c) && channels_eq_except(
            old(rt).channels@,
            final(rt).channels@,
            c as int,
        ) && {
            let ch0 = old(rt).channels@[c as int];
            let ch1 = final(rt).channels@[c as int];
            &&& ch1.strong == ch0.strong - 1
            &&& ch1.open == (ch0.open && ch0.strong > 1)
            &&& ch1.refed == ch0.refed
            &&& ch1.queue@ == ch0.queue@
            &&& channel_logs_eq(ch0, ch1)
        },
{
    let c: usize = match rt.instance_chan {
        Some(c) => c,
        None => {
            proof {
                assert(false);
            }
            vstd::pervasive::unreached::<usize>()
        },
    };
    rt.instance_chan = None;
    let qh = EventQueue { chan: c };
    qh.drop_ref(rt);
}

} // verus!
