use vstd::prelude::*;
use crate::context::Scope;
use crate::handle::Handle;
use crate::result::{NeonResult, Throw};
use crate::runtime::{
    channel_eq, channels_eq, scopes_eq, Channel, PersistSlot, RefSlot, Runtime, Task,
};

verus! {

/// Why a dispatch channel did not accept work: the runtime has begun
/// shutting the channel down, or the channel has been released.
#[derive(Clone, Copy, Debug, PartialEq, Eq, Structural)]
pub enum SendError {
    Closed,
}

/// Pointwise equality of two channel tables everywhere but one index.
pub open spec fn channels_eq_except(a: Seq<Channel>, b: Seq<Channel>, c: int) -> bool {
    &&& b.len() == a.len()
    &&& forall|i: int| 0 <= i < a.len() && i != c ==> channel_eq(a[i], #[trigger] b[i])
}

/// The channel's control state: released or not, process-keeping or not,
/// and how many shared handles there are.
pub open spec fn channel_ctl_eq(a: Channel, b: Channel) -> bool {
    &&& b.open == a.open
    &&& b.refed == a.refed
    &&& b.strong == a.strong
}

/// The channel's instrumentation logs.
pub open spec fn channel_logs_eq(a: Channel, b: Channel) -> bool {
    &&& b.executed@ == a.executed@
    &&& b.discarded@ == a.discarded@
}

/// The state no queue or dispatch operation touches: long-lived reference
/// slots, instance data, the class registry slot, the model switches and
/// the instantiation identity.
pub open spec fn admin_eq(a: Runtime, b: Runtime) -> bool {
    &&& b.persistents@ == a.persistents@
    &&& b.instance_chan == a.instance_chan
    &&& b.class_map_init == a.class_map_init
    &&& b.shutdown == a.shutdown
    &&& b.register_denied == a.register_denied
    &&& b.env == a.env
}

/// Scope bookkeeping, values, handles and the throwing state untouched.
pub open spec fn pure_frame(a: Runtime, b: Runtime) -> bool {
    &&& scopes_eq(a, b)
    &&& b.values@ == a.values@
    &&& b.handles_made@ == a.handles_made@
    &&& b.exception == a.exception
}

/// The scope world as runtime-thread dispatch leaves it: the scope stack
/// exactly as before, every scope entered meanwhile exited again, and
/// values, handles and the throwing state untouched.
pub open spec fn scope_frame(a: Runtime, b: Runtime) -> bool {
    &&& b.scopes@ == a.scopes@
    &&& b.scope_states@.len() >= a.scope_states@.len()
    &&& forall|i: int| 0 <= i < a.scope_states@.len()
        ==> b.scope_states@[i] == #[trigger] a.scope_states@[i]
    &&& forall|i: int| a.scope_states@.len() <= i < b.scope_states@.len()
        ==> !(#[trigger] b.scope_states@[i])
    &&& b.values@ == a.values@
    &&& b.handles_made@ == a.handles_made@
    &&& b.exception == a.exception
}

/// The identifiers of the user work in a queue, in queue order.
pub open spec fn user_ids(q: Seq<Task>) -> Seq<u64>
    decreases q.len(),
{
    if q.len() == 0 {
        Seq::<u64>::empty()
    } else {
        match q[0] {
            Task::User { id } => seq![id] + user_ids(q.drop_first()),
            Task::Release { .. } => user_ids(q.drop_first()),
        }
    }
}

/// Hands one task to a channel. The handoff is accepted exactly when the
/// channel still accepts work: it has not been released and the runtime
/// has not signaled shutdown. An accepted task is appended to the
/// channel's queue; a rejected one leaves every channel untouched.
fn send_task(rt: &mut Runtime, c: usize, t: Task) -> (accepted: bool)
    requires
        old(rt).wf(),
        c < old(rt).channels@.len(),
        t matches Task::Release { refid } ==> refid < old(rt).refs@.len(),
    ensures
        final(rt).wf(),
        accepted == old(rt).accepting(c),
        accepted ==> {
            let ch0 = old(rt).channels@[c as int];
            let ch1 = final(rt).channels@[c as int];
            &&& channels_eq_except(old(rt).channels@, final(rt).channels@, c as int)
            &&& ch1.queue@ == ch0.queue@.push(t)
            &&& channel_ctl_eq(ch0, ch1)
            &&& channel_logs_eq(ch0, ch1)
        },
        !accepted ==> channels_eq(old(rt).channels@, final(rt).channels@),
        final(rt).refs@ == old(rt).refs@,
        admin_eq(*old(rt), *final(rt)),
        pure_frame(*old(rt), *final(rt)),
{
    if rt.shutdown || !rt.channels[c].open {
        return false;
    }
    let mut ch = rt.channels.remove(c);
    ch.queue.push(t);
    rt.channels.insert(c, ch);
    proof {
        vstd::seq_lib::lemma_update_is_remove_insert(
            old(rt).channels@,
            c as int,
            rt.channels@[c as int],
        );
    }
    true
}

/// A shared handle to one registered thread-safe dispatch channel.
/// Any holder, on any thread, may hand the channel work to run on the
/// runtime thread; the handles are counted, and the last one to drop
/// releases the channel.
#[derive(Debug)]
pub struct EventQueue {
    pub chan: usize,
}

impl EventQueue {
    /// Registers a new thread-safe dispatch channel against the current
    /// runtime instantiation. Fails with a channel-creation error —
    /// surfaced as a raised runtime exception and a `Throw` result — if
    /// and only if the underlying registration call does not succeed.
    pub fn new(cx: &Scope, rt: &mut Runtime) -> (r: NeonResult<EventQueue>)
        requires
            old(rt).wf(),
            cx.metadata.active,
            old(rt).scope_open(cx.handle_scope),
        ensures
            final(rt).wf(),
            admin_eq(*old(rt), *final(rt)),
            final(rt).refs@ == old(rt).refs@,
            scopes_eq(*old(rt), *final(rt)),
            final(rt).handles_made@ == old(rt).handles_made@,
            r is Err <==> old(rt).register_denied,
            old(rt).register_denied ==> {
                &&& final(rt).has_exception()
                &&& final(rt).exception_message() == "failed to create the dispatch channel"@
                &&& channels_eq(old(rt).channels@, final(rt).channels@)
            },
            !old(rt).register_denied ==> {
                &&& r matches Ok(q) && q.chan == old(rt).channels@.len()
                &&& final(rt).channels@.len() == old(rt).channels@.len() + 1
                &&& channels_eq_except(
                    old(rt).channels@,
                    final(rt).channels@.drop_last(),
                    old(rt).channels@.len() as int,
                )
                &&& {
                    let ch = final(rt).channels@.last();
                    &&& ch.open
                    &&& ch.refed
                    &&& ch.strong == 1
                    &&& ch.queue@.len() == 0
                    &&& ch.executed@.len() == 0
                    &&& ch.discarded@.len() == 0
                }
                &&& final(rt).values@ == old(rt).values@
                &&& final(rt).exception == old(rt).exception
            },
    {
        if rt.register_denied {
            let _ = cx.throw_error(rt, "failed to create the dispatch channel");
            return Err(Throw);
        }
        let id: usize = rt.channels.len();
        rt.channels.push(
            Channel {
                open: true,
                refed: true,
                strong: 1,
                queue: Vec::new(),
                executed: Vec::new(),
                discarded: Vec::new(),
            },
        );
        Ok(EventQueue { chan: id })
    }

    /// Enqueues one unit of user work, identified by the number the sender
    /// chose for it, for execution on the runtime thread. Callable from
    /// any thread; the handoff blocks while the queue is momentarily full
    /// rather than failing. The work is accepted — exactly once, in
    /// submission order — unless the channel no longer accepts work, in
    /// which case the work is dropped and non-success is reported rather
    /// than hanging.
    pub fn send(&mut self, rt: &mut Runtime, id: u64) -> (r: Result<(), SendError>)
        requires
            old(rt).wf(),
            old(self).chan < old(rt).channels@.len(),
        ensures
            final(rt).wf(),
            *final(self) == *old(self),
            r is Ok <==> old(rt).accepting(old(self).chan),
            r is Ok ==> {
                let ch0 = old(rt).channels@[old(self).chan as int];
                let ch1 = final(rt).channels@[old(self).chan as int];
                &&& channels_eq_except(
                    old(rt).channels@,
                    final(rt).channels@,
                    old(self).chan as int,
                )
                &&& ch1.queue@ == ch0.queue@.push(Task::User { id })
                &&& channel_ctl_eq(ch0, ch1)
                &&& channel_logs_eq(ch0, ch1)
            },
            r is Err ==> channels_eq(old(rt).channels@, final(rt).channels@),
            final(rt).refs@ == old(rt).refs@,
            admin_eq(*old(rt), *final(rt)),
            pure_frame(*old(rt), *final(rt)),
    {
        let accepted = send_task(rt, self.chan, Task::User { id });
        if accepted {
            Ok(())
        } else {
            Err(SendError::Closed)
        }
    }

    /// Marks the channel so that its mere existence no longer keeps the
    /// host process alive — used for the module-default queue, which must
    /// not itself prevent process exit.
    pub fn unref(self, cx: &Scope, rt: &mut Runtime) -> (r: NeonResult<EventQueue>)
        requires
            old(rt).wf(),
            cx.metadata.active,
            old(rt).scope_open(cx.handle_scope),
            self.chan < old(rt).channels@.len(),
        ensures
            final(rt).wf(),
            r matches Ok(q) && q.chan == self.chan,
            channels_eq_except(old(rt).channels@, final(rt).channels@, self.chan as int),
            ({
                let ch0 = old(rt).channels@[self.chan as int];
                let ch1 = final(rt).channels@[self.chan as int];
                &&& !ch1.refed
                &&& ch1.open == ch0.open
                &&& ch1.strong == ch0.strong
                &&& ch1.queue@ == ch0.queue@
                &&& channel_logs_eq(ch0, ch1)
            }),
            final(rt).refs@ == old(rt).refs@,
            admin_eq(*old(rt), *final(rt)),
            pure_frame(*old(rt), *final(rt)),
    {
        let c = self.chan;
        let mut ch = rt.channels.remove(c);
        ch.refed = false;
        rt.channels.insert(c, ch);
        proof {
            vstd::seq_lib::lemma_update_is_remove_insert(
                old(rt).channels@,
                c as int,
                rt.channels@[c as int],
            );
        }
        Ok(EventQueue { chan: c })
    }

    /// A further shared handle to the same channel: the channel's handle
    /// count rises by one. Handles may be cloned from and moved to any
    /// thread.
    pub fn clone_ref(&self, rt: &mut Runtime) -> (r: EventQueue)
        requires
            old(rt).wf(),
            self.chan < old(rt).channels@.len(),
            old(rt).channels@[self.chan as int].strong >= 1,
            old(rt).channels@[self.chan as int].strong < u64::MAX,
        ensures
            final(rt).wf(),
            r.chan == self.chan,
            channels_eq_except(old(rt).channels@, final(rt).channels@, self.chan as int),
            ({
                let ch0 = old(rt).channels@[self.chan as int];
                let ch1 = final(rt).channels@[self.chan as int];
                &&& ch1.strong == ch0.strong + 1
                &&& ch1.open == ch0.open
                &&& ch1.refed == ch0.refed
                &&& ch1.queue@ == ch0.queue@
                &&& channel_logs_eq(ch0, ch1)
            }),
            final(rt).refs@ == old(rt).refs@,
            admin_eq(*old(rt), *final(rt)),
            pure_frame(*old(rt), *final(rt)),
    {
        let c = self.chan;
        let mut ch = rt.channels.remove(c);
        ch.strong = ch.strong + 1;
        rt.channels.insert(c, ch);
        proof {
            vstd::seq_lib::lemma_update_is_remove_insert(
                old(rt).channels@,
                c as int,
                rt.channels@[c as int],
            );
        }
        EventQueue { chan: c }
    }

    /// Drops one shared handle to the channel. The last handle's drop
    /// releases the channel — the release itself always succeeds (a
    /// failing release would leak the channel and is treated as fatal) —
    /// after which the channel accepts no further work; work already
    /// queued still drains.
    pub fn drop_ref(self, rt: &mut Runtime)
        requires
            old(rt).wf(),
            self.chan < old(rt).channels@.len(),
            old(rt).channels@[self.chan as int].strong >= 1,
        ensures
            final(rt).wf(),
            channels_eq_except(old(rt).channels@, final(rt).channels@, self.chan as int),
            ({
                let ch0 = old(rt).channels@[self.chan as int];
                let ch1 = final(rt).channels@[self.chan as int];
                &&& ch1.strong == ch0.strong - 1
                &&& ch1.open == (ch0.open && ch0.strong > 1)
                &&& ch1.refed == ch0.refed
                &&& ch1.queue@ == ch0.queue@
                &&& channel_logs_eq(ch0, ch1)
            }),
            final(rt).refs@ == old(rt).refs@,
            admin_eq(*old(rt), *final(rt)),
            pure_frame(*old(rt), *final(rt)),
    {
        let c = self.chan;
        let mut ch = rt.channels.remove(c);
        ch.strong = ch.strong - 1;
        if ch.strong == 0 {
            ch.open = false;
        }
        rt.channels.insert(c, ch);
        proof {
            vstd::seq_lib::lemma_update_is_remove_insert(
                old(rt).channels@,
                c as int,
                rt.channels@[c as int],
            );
        }
    }
}

/// The host's invocation of the channel's dispatch callback for the front
/// unit of queued work. Under normal operation, a user unit executes on
/// the runtime thread inside a freshly entered scope and is recorded as
/// executed; a release unit performs the deferred unref of its strong
/// reference, on the runtime thread. When the host has signaled shutdown,
/// the unit is dropped undone and recorded as discarded instead — a
/// best-effort drain, not a guaranteed completion.
pub fn dispatch_one(rt: &mut Runtime, c: usize)
    requires
        old(rt).wf(),
        c < old(rt).channels@.len(),
        old(rt).channels@[c as int].queue@.len() > 0,
    ensures
        final(rt).wf(),
        scope_frame(*old(rt), *final(rt)),
        admin_eq(*old(rt), *final(rt)),
        channels_eq_except(old(rt).channels@, final(rt).channels@, c as int),
        ({
            let ch0 = old(rt).channels@[c as int];
            let ch1 = final(rt).channels@[c as int];
            let t = ch0.queue@[0];
            &&& ch1.queue@ == ch0.queue@.drop_first()
            &&& channel_ctl_eq(ch0, ch1)
            &&& (old(rt).shutdown ==> {
                &&& ch1.discarded@ == ch0.discarded@.push(t)
                &&& ch1.executed@ == ch0.executed@
                &&& final(rt).refs@ == old(rt).refs@
            })
            &&& (!old(rt).shutdown ==> match t {
                Task::User { id } => {
                    &&& ch1.executed@ == ch0.executed@.push(id)
                    &&& ch1.discarded@ == ch0.discarded@
                    &&& final(rt).refs@ == old(rt).refs@
                },
                Task::Release { refid } => {
                    &&& ch1.executed@ == ch0.executed@
                    &&& ch1.discarded@ == ch0.discarded@
                    &&& (old(rt).refs@[refid as int].count > 0 ==> final(rt).refs@ == old(
                        rt,
                    ).refs@.update(
                        refid as int,
                        (RefSlot {
                            value: old(rt).refs@[refid as int].value,
                            count: (old(rt).refs@[refid as int].count - 1) as u64,
                        }),
                    ))
                    &&& (old(rt).refs@[refid as int].count == 0 ==> final(rt).refs@ == old(
                        rt,
                    ).refs@)
                },
            })
        }),
{
    let task: Task = rt.channels[c].queue[0];
    if rt.shutdown {
        let mut ch = rt.channels.remove(c);
        let t = ch.queue.remove(0);
        ch.discarded.push(t);
        rt.channels.insert(c, ch);
        proof {
            vstd::seq_lib::lemma_update_is_remove_insert(
                old(rt).channels@,
                c as int,
                rt.channels@[c as int],
            );
            assert(rt.channels@[c as int].queue@ =~= old(rt).channels@[c as int].queue@
                .drop_first());
        }
    } else {
        let env = rt.env;
        let cx = Scope::enter(rt, env);
        match task {
            Task::User { id } => {
                let mut ch = rt.channels.remove(c);
                let _t = ch.queue.remove(0);
                ch.executed.push(id);
                rt.channels.insert(c, ch);
                proof {
                    vstd::seq_lib::lemma_update_is_remove_insert(
                        old(rt).channels@,
                        c as int,
                        rt.channels@[c as int],
                    );
                    assert(rt.channels@[c as int].queue@ =~= old(rt).channels@[c as int].queue@
                        .drop_first());
                }
            },
            Task::Release { refid } => {
                let mut ch = rt.channels.remove(c);
                let _t = ch.queue.remove(0);
                rt.channels.insert(c, ch);
                proof {
                    vstd::seq_lib::lemma_update_is_remove_insert(
                        old(rt).channels@,
                        c as int,
                        rt.channels@[c as int],
                    );
                    assert(rt.channels@[c as int].queue@ =~= old(rt).channels@[c as int].queue@
                        .drop_first());
                }
                let slot = rt.refs[refid];
                if slot.count > 0 {
                    rt.refs.set(refid, RefSlot { value: slot.value, count: slot.count - 1 });
                }
            },
        }
        let ghost entered = cx.handle_scope;
        cx.exit(rt);
        proof {
            assert(rt.scopes@ =~= old(rt).scopes@);
            assert forall|i: int|
                old(rt).scope_states@.len() <= i < rt.scope_states@.len() implies !(
            #[trigger] rt.scope_states@[i]) by {
                assert(i == entered);
            }
        }
    }
}

/// The runtime thread draining the channel under normal operation: every
/// unit of user work queued at the call executes exactly once, in queue
/// order — none is lost, none runs twice — and each runs inside its own
/// freshly entered scope.
pub fn dispatch_all(rt: &mut Runtime, c: usize)
    requires
        old(rt).wf(),
        c < old(rt).channels@.len(),
        !old(rt).shutdown,
    ensures
        final(rt).wf(),
        scope_frame(*old(rt), *final(rt)),
        admin_eq(*old(rt), *final(rt)),
        channels_eq_except(old(rt).channels@, final(rt).channels@, c as int),
        ({
            let ch0 = old(rt).channels@[c as int];
            let ch1 = final(rt).channels@[c as int];
            &&& ch1.queue@.len() == 0
            &&& ch1.executed@ == ch0.executed@ + user_ids(ch0.queue@)
            &&& ch1.discarded@ == ch0.discarded@
            &&& channel_ctl_eq(ch0, ch1)
        }),
        final(rt).refs@.len() == old(rt).refs@.len(),
        forall|i: int| 0 <= i < old(rt).refs@.len() ==> {
            &&& (#[trigger] final(rt).refs@[i]).value == old(rt).refs@[i].value
            &&& final(rt).refs@[i].count <= old(rt).refs@[i].count
        },
{
    while rt.channels[c].queue.len() > 0
        invariant
            rt.wf(),
            c < rt.channels@.len(),
            !rt.shutdown,
            scope_frame(*old(rt), *rt),
            admin_eq(*old(rt), *rt),
            channels_eq_except(old(rt).channels@, rt.channels@, c as int),
            channel_ctl_eq(old(rt).channels@[c as int], rt.channels@[c as int]),
            rt.channels@[c as int].discarded@ == old(rt).channels@[c as int].discarded@,
            rt.channels@[c as int].executed@ + user_ids(rt.channels@[c as int].queue@) == old(
                rt,
            ).channels@[c as int].executed@ + user_ids(old(rt).channels@[c as int].queue@),
            rt.refs@.len() == old(rt).refs@.len(),
            forall|i: int| 0 <= i < old(rt).refs@.len() ==> {
                &&& (#[trigger] rt.refs@[i]).value == old(rt).refs@[i].value
                &&& rt.refs@[i].count <= old(rt).refs@[i].count
            },
        decreases rt.channels@[c as int].queue@.len(),
    {
        let ghost rt_prev = *rt;
        let ghost q_prev = rt.channels@[c as int].queue@;
        let ghost e_prev = rt.channels@[c as int].executed@;
        dispatch_one(rt, c);
        proof {
            assert forall|i: int|
                old(rt).scope_states@.len() <= i < rt.scope_states@.len() implies !(
            #[trigger] rt.scope_states@[i]) by {
                if i < rt_prev.scope_states@.len() {
                    assert(rt.scope_states@[i] == rt_prev.scope_states@[i]);
                }
            }
            let q_cur = rt.channels@[c as int].queue@;
            let e_cur = rt.channels@[c as int].executed@;
            match q_prev[0] {
                Task::User { id } => {
                    assert(e_cur =~= e_prev + seq![id]);
                    assert((e_prev + seq![id]) + user_ids(q_cur) =~= e_prev + (seq![id]
                        + user_ids(q_cur)));
                },
                Task::Release { .. } => {},
            }
        }
    }
    proof {
        let e_cur = final(rt).channels@[c as int].executed@;
        assert(user_ids(final(rt).channels@[c as int].queue@) =~= Seq::<u64>::empty());
        assert(e_cur + Seq::<u64>::empty() =~= e_cur);
    }
}

/// Delivery of sequentially submitted work: a queue holding exactly the
/// user units some sender submitted, in submission order, delivers
/// exactly those units' identifiers in that order — so a drain of it runs
/// each submitted unit exactly once, with none lost, none duplicated and
/// none reordered.
pub proof fn lemma_user_ids_of_users(q: Seq<Task>, ids: Seq<u64>)
    requires
        q.len() == ids.len(),
        forall|i: int| 0 <= i < q.len() ==> q[i] == (Task::User { id: ids[i] }),
    ensures
        user_ids(q) == ids,
    decreases q.len(),
{
    if q.len() == 0 {
        assert(user_ids(q) =~= ids);
    } else {
        assert(q[0] == (Task::User { id: ids[0] }));
        assert forall|i: int| 0 <= i < q.drop_first().len() implies q.drop_first()[i] == (
        Task::User { id: ids.drop_first()[i] }) by {
            assert(q.drop_first()[i] == q[i + 1]);
            assert(ids.drop_first()[i] == ids[i + 1]);
        }
        lemma_user_ids_of_users(q.drop_first(), ids.drop_first());
        assert(seq![ids[0]] + ids.drop_first() =~= ids);
    }
}

/// `q` is one of the ways the units of `a` and `b` can arrive in a shared
/// queue: a merge that keeps each sender's submission order but lets the
/// two senders' units interleave arbitrarily.
pub open spec fn is_interleaving(q: Seq<Task>, a: Seq<Task>, b: Seq<Task>) -> bool
    decreases q.len(),
{
    if q.len() == 0 {
        a.len() == 0 && b.len() == 0
    } else {
        ||| (a.len() > 0 && a[0] == q[0] && is_interleaving(q.drop_first(), a.drop_first(), b))
        ||| (b.len() > 0 && b[0] == q[0] && is_interleaving(q.drop_first(), a, b.drop_first()))
    }
}

/// Prepending one element to a sequence adds exactly that element to its
/// multiset of values.
proof fn lemma_cons_to_multiset(x: u64, s: Seq<u64>)
    ensures
        (seq![x] + s).to_multiset() == s.to_multiset().insert(x),
{
    broadcast use vstd::seq_lib::group_to_multiset_ensures;

    let t = seq![x] + s;
    assert(t[0] == x);
    assert(t.remove(0) =~= s);
    assert(t.to_multiset().remove(x) =~= s.to_multiset());
    assert(t.contains(x));
    assert(t.to_multiset() =~= s.to_multiset().insert(x));
}

/// Delivery under fan-in, for any number of senders pairwise: however the
/// submissions of two senders interleave in one channel's queue, the
/// drain delivers exactly the union of what each submitted — every unit
/// exactly once, none lost, none duplicated, with no ordering promised
/// across the senders. Applied sender by sender, a fan-in of several
/// senders with a fixed number of units each delivers exactly the product
/// of the two.
pub proof fn lemma_interleaved_delivery(q: Seq<Task>, a: Seq<Task>, b: Seq<Task>)
    requires
        is_interleaving(q, a, b),
    ensures
        user_ids(q).to_multiset() == user_ids(a).to_multiset().add(user_ids(b).to_multiset()),
    decreases q.len(),
{
    broadcast use vstd::seq_lib::group_to_multiset_ensures;

    if q.len() == 0 {
        assert(user_ids(q).to_multiset() =~= user_ids(a).to_multiset().add(
            user_ids(b).to_multiset(),
        ));
    } else if a.len() > 0 && a[0] == q[0] && is_interleaving(q.drop_first(), a.drop_first(), b) {
        lemma_interleaved_delivery(q.drop_first(), a.drop_first(), b);
        match q[0] {
            Task::User { id } => {
                lemma_cons_to_multiset(id, user_ids(q.drop_first()));
                lemma_cons_to_multiset(id, user_ids(a.drop_first()));
                assert(user_ids(q).to_multiset() =~= user_ids(a).to_multiset().add(
                    user_ids(b).to_multiset(),
                ));
            },
            Task::Release { .. } => {},
        }
    } else {
        lemma_interleaved_delivery(q.drop_first(), a, b.drop_first());
        match q[0] {
            Task::User { id } => {
                lemma_cons_to_multiset(id, user_ids(q.drop_first()));
                lemma_cons_to_multiset(id, user_ids(b.drop_first()));
                assert(user_ids(q).to_multiset() =~= user_ids(a).to_multiset().add(
                    user_ids(b).to_multiset(),
                ));
            },
            Task::Release { .. } => {},
        }
    }
}

/// The count under fan-in: however two senders' submissions interleave,
/// the number of delivered units is exactly the sum of what each
/// submitted — so several senders submitting a fixed number of units each
/// yield exactly their total, with no duplicates and no losses.
pub proof fn lemma_fan_in_count(q: Seq<Task>, a: Seq<Task>, b: Seq<Task>)
    requires
        is_interleaving(q, a, b),
    ensures
        user_ids(q).len() == user_ids(a).len() + user_ids(b).len(),
{
    broadcast use vstd::seq_lib::group_to_multiset_ensures;

    lemma_interleaved_delivery(q, a, b);
    vstd::multiset::axiom_len_add(user_ids(a).to_multiset(), user_ids(b).to_multiset());
}

impl Scope {
    /// A fresh shared handle to the process-wide default dispatch queue of
    /// this runtime instantiation, installed at module initialization.
    /// Calling this before the instance data is installed is a
    /// precondition violation, fatal in kind.
    pub fn global_queue(&mut self, rt: &mut Runtime) -> (q: EventQueue)
        requires
            old(rt).wf(),
            old(self).metadata.active,
            old(rt).scope_open(old(self).handle_scope),
            old(rt).instance_chan matches Some(c) && old(rt).channels@[c as int].strong >= 1
                && old(rt).channels@[c as int].strong < u64::MAX,
        ensures
            final(rt).wf(),
            *final(self) == *old(self),
            old(rt).instance_chan matches Some(c) && q.chan == c && channels_eq_except(
                old(rt).channels@,
                final(rt).channels@,
                c as int,
            ) && {
                let ch0 = old(rt).channels@[c as int];
                let ch1 = final(rt).channels@[c as int];
                &&& ch1.strong == ch0.strong + 1
                &&& ch1.open == ch0.open
                &&& ch1.refed == ch0.refed
                &&& ch1.queue@ == ch0.queue@
                &&& channel_logs_eq(ch0, ch1)
            },
            final(rt).refs@ == old(rt).refs@,
            admin_eq(*old(rt), *final(rt)),
            pure_frame(*old(rt), *final(rt)),
    {
        let c: usize = match rt.instance_chan {
            Some(c) => c,
            None => {
                proof {
                    assert(false);
                }
                vstd::pervasive::unreached::<usize>()
            },
        };
        let handle = EventQueue { chan: c };
        handle.clone_ref(rt)
    }
}

/// A reference-counted, cross-thread-movable handle to a runtime value,
/// independent of any call scope. It owns a runtime-level strong
/// reference — so the value is not collected — and a handle to the
/// module's default dispatch queue, so that its release can be deferred to
/// the runtime thread: dropping may happen on any thread, and a
/// runtime-mutating call from an arbitrary thread is never permissible.
#[derive(Debug)]
pub struct Persistent {
    pub slot: usize,
}

impl Persistent {
    /// Creates a long-lived reference from a live handle obtained within
    /// the current scope. The reference outlives the scope and can be
    /// moved to other threads. Fails with the registration error — a
    /// raised runtime exception and a `Throw` result — if and only if the
    /// underlying strong-reference registration does not succeed.
    pub fn new(cx: &mut Scope, rt: &mut Runtime, v: Handle) -> (r: NeonResult<Persistent>)
        requires
            old(rt).wf(),
            old(cx).metadata.active,
            old(rt).scope_open(old(cx).handle_scope),
            old(rt).scope_open(v.scope),
            v.value < old(rt).values@.len(),
            old(rt).instance_chan matches Some(c) && old(rt).channels@[c as int].strong >= 1
                && old(rt).channels@[c as int].strong < u64::MAX,
        ensures
            final(rt).wf(),
            *final(cx) == *old(cx),
            scopes_eq(*old(rt), *final(rt)),
            final(rt).handles_made@ == old(rt).handles_made@,
            final(rt).instance_chan == old(rt).instance_chan,
            final(rt).class_map_init == old(rt).class_map_init,
            final(rt).shutdown == old(rt).shutdown,
            final(rt).register_denied == old(rt).register_denied,
            final(rt).env == old(rt).env,
            r is Err <==> old(rt).register_denied,
            old(rt).register_denied ==> {
                &&& final(rt).has_exception()
                &&& final(rt).exception_message() == "failed to create the value reference"@
                &&& channels_eq(old(rt).channels@, final(rt).channels@)
                &&& final(rt).refs@ == old(rt).refs@
                &&& final(rt).persistents@ == old(rt).persistents@
            },
            !old(rt).register_denied ==> {
                &&& r matches Ok(p) && p.slot == old(rt).persistents@.len()
                &&& final(rt).refs@ == old(rt).refs@.push(
                    (RefSlot { value: v.value, count: 1u64 }),
                )
                &&& final(rt).persistents@.len() == old(rt).persistents@.len() + 1
                &&& final(rt).persistents@.drop_last() == old(rt).persistents@
                &&& {
                    let s = final(rt).persistents@.last();
                    &&& s.refid == old(rt).refs@.len()
                    &&& Some(s.chan) == old(rt).instance_chan
                    &&& s.strong == 1
                }
                &&& (old(rt).instance_chan matches Some(c) ==> channels_eq_except(
                    old(rt).channels@,
                    final(rt).channels@,
                    c as int,
                ) && {
                    let ch0 = old(rt).channels@[c as int];
                    let ch1 = final(rt).channels@[c as int];
                    &&& ch1.strong == ch0.strong + 1
                    &&& ch1.open == ch0.open
                    &&& ch1.refed == ch0.refed
                    &&& ch1.queue@ == ch0.queue@
                    &&& channel_logs_eq(ch0, ch1)
                })
                &&& final(rt).values@ == old(rt).values@
                &&& final(rt).exception == old(rt).exception
            },
    {
        if rt.register_denied {
            let _ = cx.throw_error(rt, "failed to create the value reference");
            return Err(Throw);
        }
        let queue = cx.global_queue(rt);
        let refid: usize = rt.refs.len();
        rt.refs.push(RefSlot { value: v.value, count: 1 });
        let slot: usize = rt.persistents.len();
        rt.persistents.push(PersistSlot { refid, chan: queue.chan, strong: 1 });
        Ok(Persistent { slot })
    }

    /// A further shared handle to the same long-lived reference; clones
    /// may be taken from and dropped on different threads, race-free,
    /// since the count is the only concurrently mutated state.
    pub fn clone_ref(&self, rt: &mut Runtime) -> (r: Persistent)
        requires
            old(rt).wf(),
            self.slot < old(rt).persistents@.len(),
            old(rt).persistents@[self.slot as int].strong >= 1,
            old(rt).persistents@[self.slot as int].strong < u64::MAX,
        ensures
            final(rt).wf(),
            r.slot == self.slot,
            final(rt).persistents@ == old(rt).persistents@.update(
                self.slot as int,
                (PersistSlot {
                    strong: (old(rt).persistents@[self.slot as int].strong + 1) as u64,
                    ..old(rt).persistents@[self.slot as int]
                }),
            ),
            channels_eq(old(rt).channels@, final(rt).channels@),
            final(rt).refs@ == old(rt).refs@,
            pure_frame(*old(rt), *final(rt)),
            final(rt).instance_chan == old(rt).instance_chan,
            final(rt).class_map_init == old(rt).class_map_init,
            final(rt).shutdown == old(rt).shutdown,
            final(rt).register_denied == old(rt).register_denied,
            final(rt).env == old(rt).env,
    {
        let s = rt.persistents[self.slot];
        rt.persistents.set(self.slot, PersistSlot { strong: s.strong + 1, ..s });
        Persistent { slot: self.slot }
    }

    /// Drops one shared handle to the long-lived reference; callable from
    /// any thread. The last drop schedules the release of the
    /// runtime-level strong reference on the runtime thread via the
    /// captured queue — the reference table is never touched on the
    /// dropping thread — and then drops the captured queue handle. When
    /// the queue no longer accepts work because the runtime is shutting
    /// down, the release is simply not performed: an acceptable leak at
    /// process teardown, not a correctness violation.
    pub fn drop_ref(self, rt: &mut Runtime)
        requires
            old(rt).wf(),
            self.slot < old(rt).persistents@.len(),
            old(rt).persistents@[self.slot as int].strong >= 1,
            old(rt).persistents@[self.slot as int].strong == 1 ==> old(rt).channels@[old(
                rt,
            ).persistents@[self.slot as int].chan as int].strong >= 1,
        ensures
            final(rt).wf(),
            final(rt).refs@ == old(rt).refs@,
            pure_frame(*old(rt), *final(rt)),
            final(rt).instance_chan == old(rt).instance_chan,
            final(rt).class_map_init == old(rt).class_map_init,
            final(rt).shutdown == old(rt).shutdown,
            final(rt).register_denied == old(rt).register_denied,
            final(rt).env == old(rt).env,
            ({
                let s = old(rt).persistents@[self.slot as int];
                &&& (s.strong > 1 ==> {
                    &&& final(rt).persistents@ == old(rt).persistents@.update(
                        self.slot as int,
                        (PersistSlot { strong: (s.strong - 1) as u64, ..s }),
                    )
                    &&& channels_eq(old(rt).channels@, final(rt).channels@)
                })
                &&& (s.strong == 1 ==> {
                    let ch0 = old(rt).channels@[s.chan as int];
                    let ch1 = final(rt).channels@[s.chan as int];
                    &&& final(rt).persistents@ == old(rt).persistents@.update(
                        self.slot as int,
                        (PersistSlot { strong: 0u64, ..s }),
                    )
                    &&& channels_eq_except(old(rt).channels@, final(rt).channels@, s.chan as int)
                    &&& ch1.queue@ == (if old(rt).accepting(s.chan) {
                        ch0.queue@.push(Task::Release { refid: s.refid })
                    } else {
                        ch0.queue@
                    })
                    &&& ch1.strong == ch0.strong - 1
                    &&& ch1.open == (ch0.open && ch0.strong > 1)
                    &&& ch1.refed == ch0.refed
                    &&& channel_logs_eq(ch0, ch1)
                })
            }),
    {
        let s = rt.persistents[self.slot];
        if s.strong > 1 {
            rt.persistents.set(self.slot, PersistSlot { strong: s.strong - 1, ..s });
        } else {
            let _accepted = send_task(rt, s.chan, Task::Release { refid: s.refid });
            let qh = EventQueue { chan: s.chan };
            qh.drop_ref(rt);
            rt.persistents.set(self.slot, PersistSlot { strong: 0, ..s });
        }
    }

    /// Dereferences the long-lived reference into the current scope, on
    /// the runtime thread: the returned handle refers to the very value
    /// the reference was created from, whatever scopes have come and gone
    /// in between. Consumes this shared handle — while the runtime thread
    /// is at hand the drop needs no deferral decision by the caller — so
    /// the drop effects of `drop_ref` apply alongside.
    pub fn deref(self, cx: &mut Scope, rt: &mut Runtime) -> (r: NeonResult<Handle>)
        requires
            old(rt).wf(),
            old(cx).metadata.active,
            old(rt).scope_open(old(cx).handle_scope),
            self.slot < old(rt).persistents@.len(),
            old(rt).persistents@[self.slot as int].strong >= 1,
            old(rt).persistents@[self.slot as int].strong == 1 ==> old(rt).channels@[old(
                rt,
            ).persistents@[self.slot as int].chan as int].strong >= 1,
        ensures
            final(rt).wf(),
            *final(cx) == *old(cx),
            final(rt).refs@ == old(rt).refs@,
            scopes_eq(*old(rt), *final(rt)),
            final(rt).values@ == old(rt).values@,
            final(rt).exception == old(rt).exception,
            final(rt).instance_chan == old(rt).instance_chan,
            final(rt).class_map_init == old(rt).class_map_init,
            final(rt).shutdown == old(rt).shutdown,
            final(rt).register_denied == old(rt).register_denied,
            final(rt).env == old(rt).env,
            r matches Ok(h) && h.scope == old(cx).handle_scope && h.value == old(rt).refs@[old(
                rt,
            ).persistents@[self.slot as int].refid as int].value && final(rt).handles_made@ == old(
                rt,
            ).handles_made@.push(h),
            ({
                let s = old(rt).persistents@[self.slot as int];
                &&& (s.strong > 1 ==> {
                    &&& final(rt).persistents@ == old(rt).persistents@.update(
                        self.slot as int,
                        (PersistSlot { strong: (s.strong - 1) as u64, ..s }),
                    )
                    &&& channels_eq(old(rt).channels@, final(rt).channels@)
                })
                &&& (s.strong == 1 ==> {
                    let ch0 = old(rt).channels@[s.chan as int];
                    let ch1 = final(rt).channels@[s.chan as int];
                    &&& final(rt).persistents@ == old(rt).persistents@.update(
                        self.slot as int,
                        (PersistSlot { strong: 0u64, ..s }),
                    )
                    &&& channels_eq_except(old(rt).channels@, final(rt).channels@, s.chan as int)
                    &&& ch1.queue@ == (if old(rt).accepting(s.chan) {
                        ch0.queue@.push(Task::Release { refid: s.refid })
                    } else {
                        ch0.queue@
                    })
                    &&& ch1.strong == ch0.strong - 1
                    &&& ch1.open == (ch0.open && ch0.strong > 1)
                    &&& ch1.refed == ch0.refed
                    &&& channel_logs_eq(ch0, ch1)
                })
            }),
    {
        let s = rt.persistents[self.slot];
        let h = Handle { value: rt.refs[s.refid].value, scope: cx.handle_scope };
        rt.note_handle(h);
        self.drop_ref(rt);
        Ok(h)
    }
}

} // verus!
