use vstd::prelude::*;
use vstd::string::StringExecFns;
use crate::env::Env;
use crate::handle::Handle;

verus! {

/// The class of a runtime error value.
#[derive(Clone, Copy, Debug, PartialEq, Eq, Structural)]
pub enum ErrorKind {
    Error,
    TypeError,
    RangeError,
}

/// A runtime-managed value, as the state model records it.
///
/// The concrete value types of the runtime are out of scope here; the model
/// keeps only what the core layer itself creates and inspects: plain values
/// and error values carrying a diagnostic message.
pub enum ValueKind {
    Undefined,
    ErrorVal { kind: ErrorKind, message: String },
}

/// A runtime-level strong reference to one value. `count == 0` means the
/// reference has been released.
#[derive(Clone, Copy, Debug, PartialEq, Eq, Structural)]
pub struct RefSlot {
    pub value: usize,
    pub count: u64,
}

/// One unit of work queued on a thread-safe dispatch channel: either a
/// user closure, identified by the number its sender chose for it, or the
/// deferred release of a strong reference.
#[derive(Clone, Copy, Debug, PartialEq, Eq, Structural)]
pub enum Task {
    User { id: u64 },
    Release { refid: usize },
}

/// One registered thread-safe dispatch channel.
///
/// `strong` counts the shared handles to the channel; when it reaches zero
/// the channel is released and `open` turns false, after which no further
/// work is accepted. `refed` records whether the channel's existence keeps
/// the host process alive. `executed` and `discarded` are the model's
/// instrumentation: the user work that ran on the runtime thread, in order,
/// and the work dropped during shutdown.
pub struct Channel {
    pub open: bool,
    pub refed: bool,
    pub strong: u64,
    pub queue: Vec<Task>,
    pub executed: Vec<u64>,
    pub discarded: Vec<Task>,
}

/// The shared state behind one long-lived reference: the runtime-level
/// strong reference it owns, the dispatch channel its release will be
/// scheduled on, and the count of shared handles to it. `strong == 0`
/// means the last handle has dropped.
#[derive(Clone, Copy, Debug, PartialEq, Eq, Structural)]
pub struct PersistSlot {
    pub refid: usize,
    pub chan: usize,
    pub strong: u64,
}

/// The state model of one managed-runtime instantiation.
///
/// Everything the core layer reaches through the foreign call interface is
/// recorded here as plain state, and every foreign operation the layer
/// relies on is a method with an exact contract: opening and closing handle
/// scopes, raising and clearing the pending exception, creating and
/// releasing strong references, and registering and driving thread-safe
/// dispatch channels. Methods that take `&mut Runtime` stand for work done
/// on the runtime's single execution thread; background threads never hold
/// the model directly, which is exactly the discipline the layer enforces.
pub struct Runtime {
    pub env: Env,
    /// All values ever created; a value identifier is an index here.
    pub values: Vec<ValueKind>,
    /// One entry per handle scope ever opened; `true` while it is open.
    pub scope_states: Vec<bool>,
    /// The stack of open handle scopes, innermost last.
    pub scopes: Vec<usize>,
    /// The pending exception, when the runtime is in a throwing state.
    pub exception: Option<usize>,
    /// Instrumentation: every handle the layer has given out.
    pub handles_made: Vec<Handle>,
    pub refs: Vec<RefSlot>,
    pub channels: Vec<Channel>,
    pub persistents: Vec<PersistSlot>,
    /// The per-instance data block: the default dispatch channel, once
    /// module initialization has installed it.
    pub instance_chan: Option<usize>,
    /// Whether the lazily-created class registry slot has been populated.
    pub class_map_init: bool,
    /// Whether the host has signaled teardown of the runtime instance.
    pub shutdown: bool,
    /// Model switch: when set, registration calls (channel creation,
    /// strong-reference creation) report failure, as under resource
    /// exhaustion.
    pub register_denied: bool,
}

/// The parts of two channels that must agree for the channels to count as
/// equal.
pub open spec fn channel_eq(a: Channel, b: Channel) -> bool {
    &&& b.open == a.open
    &&& b.refed == a.refed
    &&& b.strong == a.strong
    &&& b.queue@ == a.queue@
    &&& b.executed@ == a.executed@
    &&& b.discarded@ == a.discarded@
}

/// Pointwise equality of two channel tables.
pub open spec fn channels_eq(a: Seq<Channel>, b: Seq<Channel>) -> bool {
    &&& b.len() == a.len()
    &&& forall|i: int| 0 <= i < a.len() ==> channel_eq(a[i], #[trigger] b[i])
}

/// The state a runtime operation on scopes, values or exceptions leaves
/// untouched: references, channels, long-lived references, instance data,
/// the class registry slot and the model switches.
pub open spec fn sync_eq(a: Runtime, b: Runtime) -> bool {
    &&& b.refs@ == a.refs@
    &&& channels_eq(a.channels@, b.channels@)
    &&& b.persistents@ == a.persistents@
    &&& b.instance_chan == a.instance_chan
    &&& b.class_map_init == a.class_map_init
    &&& b.shutdown == a.shutdown
    &&& b.register_denied == a.register_denied
    &&& b.env == a.env
}

/// Old values are never destroyed or rewritten: the value table only grows.
pub open spec fn values_preserved(a: Runtime, b: Runtime) -> bool {
    &&& a.values@.len() <= b.values@.len()
    &&& forall|i: int| 0 <= i < a.values@.len() ==> b.values@[i] == #[trigger] a.values@[i]
}

/// The instrumentation log of handles only grows.
pub open spec fn handles_preserved(a: Runtime, b: Runtime) -> bool {
    &&& a.handles_made@.len() <= b.handles_made@.len()
    &&& forall|i: int| 0 <= i < a.handles_made@.len()
        ==> b.handles_made@[i] == #[trigger] a.handles_made@[i]
}

/// Scope bookkeeping untouched.
pub open spec fn scopes_eq(a: Runtime, b: Runtime) -> bool {
    &&& b.scope_states@ == a.scope_states@
    &&& b.scopes@ == a.scopes@
}

impl Runtime {
    /// The runtime is in a throwing state.
    pub open spec fn has_exception(self) -> bool {
        self.exception is Some
    }

    /// The message carried by the value `v`, when it is an error value (the
    /// empty sequence otherwise).
    pub open spec fn value_message(self, v: usize) -> Seq<char> {
        if v < self.values@.len() {
            match self.values@[v as int] {
                ValueKind::ErrorVal { message, .. } => message@,
                ValueKind::Undefined => Seq::empty(),
            }
        } else {
            Seq::empty()
        }
    }

    /// The message of the pending exception (the empty sequence when the
    /// runtime is not throwing).
    pub open spec fn exception_message(self) -> Seq<char> {
        match self.exception {
            Some(v) => self.value_message(v),
            None => Seq::empty(),
        }
    }

    /// The scope `s` has been opened and has not yet exited.
    pub open spec fn scope_open(self, s: usize) -> bool {
        &&& s < self.scope_states@.len()
        &&& self.scope_states@[s as int]
    }

    /// The channel exists and can accept work: it has not been released and
    /// the runtime has not signaled shutdown.
    pub open spec fn accepting(self, chan: usize) -> bool {
        &&& chan < self.channels@.len()
        &&& self.channels@[chan as int].open
        &&& !self.shutdown
    }

    /// Well-formedness of the model state.
    pub open spec fn wf(self) -> bool {
        &&& match self.exception {
            Some(v) => v < self.values@.len() && self.values@[v as int] is ErrorVal,
            None => true,
        }
        &&& forall|i: int| 0 <= i < self.scopes@.len()
            ==> self.scope_open(#[trigger] self.scopes@[i])
        &&& forall|i: int, j: int| 0 <= i < j < self.scopes@.len()
            ==> #[trigger] self.scopes@[i] < #[trigger] self.scopes@[j]
        &&& forall|i: int| 0 <= i < self.refs@.len()
            ==> (#[trigger] self.refs@[i]).value < self.values@.len()
        &&& forall|c: int, t: int|
            0 <= c < self.channels@.len() && 0 <= t < self.channels@[c].queue@.len()
            ==> match #[trigger] self.channels@[c].queue@[t] {
                Task::Release { refid } => refid < self.refs@.len(),
                Task::User { .. } => true,
            }
        &&& forall|i: int| 0 <= i < self.persistents@.len()
            ==> ((#[trigger] self.persistents@[i]).strong > 0 ==> {
                &&& self.persistents@[i].refid < self.refs@.len()
                &&& self.persistents@[i].chan < self.channels@.len()
            })
        &&& match self.instance_chan {
            Some(c) => c < self.channels@.len(),
            None => true,
        }
        &&& forall|i: int| 0 <= i < self.handles_made@.len()
            ==> (#[trigger] self.handles_made@[i]).value < self.values@.len()
    }

    /// A fresh runtime instantiation: no scopes, no pending exception, no
    /// channels or references, instance data not yet installed.
    pub fn new(env: Env) -> (rt: Runtime)
        ensures
            rt.wf(),
            rt.env == env,
            rt.values@.len() == 0,
            rt.scope_states@.len() == 0,
            rt.scopes@.len() == 0,
            rt.exception is None,
            rt.handles_made@.len() == 0,
            rt.refs@.len() == 0,
            rt.channels@.len() == 0,
            rt.persistents@.len() == 0,
            rt.instance_chan is None,
            !rt.class_map_init,
            !rt.shutdown,
            !rt.register_denied,
    {
        Runtime {
            env,
            values: Vec::new(),
            scope_states: Vec::new(),
            scopes: Vec::new(),
            exception: None,
            handles_made: Vec::new(),
            refs: Vec::new(),
            channels: Vec::new(),
            persistents: Vec::new(),
            instance_chan: None,
            class_map_init: false,
            shutdown: false,
            register_denied: false,
        }
    }

    /// Whether the runtime is in a throwing state.
    pub fn is_throwing(&self) -> (r: bool)
        ensures
            r == self.has_exception(),
    {
        self.exception.is_some()
    }

    /// The message of the pending exception, for inspection: `None` when
    /// the runtime is not throwing.
    pub fn pending_message(&self) -> (r: Option<String>)
        requires
            self.wf(),
        ensures
            match r {
                Some(m) => self.has_exception() && m@ == self.exception_message(),
                None => !self.has_exception(),
            },
    {
        match &self.exception {
            Some(v) => match &self.values[*v] {
                ValueKind::ErrorVal { message, .. } => Some(message.clone()),
                ValueKind::Undefined => None,
            },
            None => None,
        }
    }

    /// Raises a runtime exception of the given class carrying the message:
    /// the runtime enters the throwing state with a fresh error value
    /// pending. Any previously pending exception is superseded.
    pub fn raise(&mut self, kind: ErrorKind, msg: &str)
        requires
            old(self).wf(),
        ensures
            final(self).wf(),
            final(self).has_exception(),
            final(self).exception matches Some(v) && v == old(self).values@.len(),
            final(self).exception_message() == msg@,
            final(self).values@.len() == old(self).values@.len() + 1,
            match final(self).values@[old(self).values@.len() as int] {
                ValueKind::ErrorVal { kind: k, message: m } => k == kind && m@ == msg@,
                ValueKind::Undefined => false,
            },
            sync_eq(*old(self), *final(self)),
            scopes_eq(*old(self), *final(self)),
            values_preserved(*old(self), *final(self)),
            final(self).handles_made@ == old(self).handles_made@,
    {
        let id: usize = self.values.len();
        self.values.push(ValueKind::ErrorVal { kind, message: String::from_str(msg) });
        self.exception = Some(id);
    }

    /// The query-and-clear probe of the pending-exception flag: returns the
    /// pending exception value, if any, and leaves the runtime no longer
    /// throwing.
    pub fn catch_error(&mut self) -> (r: Option<usize>)
        requires
            old(self).wf(),
        ensures
            final(self).wf(),
            r == old(self).exception,
            final(self).exception is None,
            sync_eq(*old(self), *final(self)),
            scopes_eq(*old(self), *final(self)),
            final(self).values@ == old(self).values@,
            final(self).handles_made@ == old(self).handles_made@,
    {
        let r = self.exception;
        self.exception = None;
        r
    }

    /// Records a handle given out to user code in the instrumentation log.
    pub fn note_handle(&mut self, h: Handle)
        requires
            old(self).wf(),
            h.value < old(self).values@.len(),
        ensures
            final(self).wf(),
            final(self).handles_made@ == old(self).handles_made@.push(h),
            handles_preserved(*old(self), *final(self)),
            final(self).handles_made@.len() == old(self).handles_made@.len() + 1,
            final(self).handles_made@[old(self).handles_made@.len() as int] == h,
            sync_eq(*old(self), *final(self)),
            scopes_eq(*old(self), *final(self)),
            final(self).values@ == old(self).values@,
            final(self).exception == old(self).exception,
    {
        self.handles_made.push(h);
    }

    /// Model switch: makes subsequent registration calls fail, as under
    /// resource exhaustion or an invalid runtime state.
    pub fn deny_registration(&mut self)
        requires
            old(self).wf(),
        ensures
            final(self).wf(),
            *final(self) == (Runtime { register_denied: true, ..*old(self) }),
    {
        self.register_denied = true;
    }

    /// The host signals teardown of the runtime instance: dispatch channels
    /// stop executing queued work and drop it instead.
    pub fn signal_shutdown(&mut self)
        requires
            old(self).wf(),
        ensures
            final(self).wf(),
            *final(self) == (Runtime { shutdown: true, ..*old(self) }),
    {
        self.shutdown = true;
    }
}

} // verus!
