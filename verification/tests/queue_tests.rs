use neon::callback::Act;
use neon::context::{initialize_module, Scope};
use neon::env::Env;
use neon::runtime::{Runtime, Task};
use neon::sync::{dispatch_all, dispatch_one, EventQueue, SendError};

fn fresh_runtime() -> (Runtime, Env) {
    let env = Env { id: 3 };
    (Runtime::new(env), env)
}

fn make_queue(rt: &mut Runtime, env: Env) -> EventQueue {
    let cx = Scope::enter(rt, env);
    let q = EventQueue::new(&cx, rt).expect("channel registration must succeed");
    cx.exit(rt);
    q
}

#[test]
fn sequential_sends_execute_in_order_exactly_once() {
    let (mut rt, env) = fresh_runtime();
    let mut q = make_queue(&mut rt, env);
    for id in 0..5u64 {
        q.send(&mut rt, id).expect("the channel accepts work");
    }
    dispatch_all(&mut rt, q.chan);
    assert_eq!(rt.channels[q.chan].executed, vec![0, 1, 2, 3, 4]);
    assert!(rt.channels[q.chan].queue.is_empty());
    assert!(rt.channels[q.chan].discarded.is_empty());
}

#[test]
fn sends_from_clones_all_execute_exactly_once() {
    // several senders sharing one channel: every accepted unit runs once,
    // none is lost, none is duplicated
    let (mut rt, env) = fresh_runtime();
    let mut q = make_queue(&mut rt, env);
    let mut clone_a = q.clone_ref(&mut rt);
    let mut clone_b = q.clone_ref(&mut rt);
    let mut sent: Vec<u64> = Vec::new();
    for k in 0..4u64 {
        q.send(&mut rt, 3 * k).unwrap();
        clone_a.send(&mut rt, 3 * k + 1).unwrap();
        clone_b.send(&mut rt, 3 * k + 2).unwrap();
        sent.push(3 * k);
        sent.push(3 * k + 1);
        sent.push(3 * k + 2);
    }
    dispatch_all(&mut rt, q.chan);
    let executed = rt.channels[q.chan].executed.clone();
    assert_eq!(executed.len(), 12);
    let mut seen = executed.clone();
    seen.sort_unstable();
    let mut expected = sent.clone();
    expected.sort_unstable();
    assert_eq!(seen, expected);
    // and per-sender submission order is preserved
    let of_a: Vec<u64> = executed.iter().copied().filter(|id| id % 3 == 1).collect();
    assert_eq!(of_a, vec![1, 4, 7, 10]);
}

#[test]
fn send_after_shutdown_reports_nonsuccess() {
    let (mut rt, env) = fresh_runtime();
    let mut q = make_queue(&mut rt, env);
    rt.signal_shutdown();
    let r = q.send(&mut rt, 9);
    assert_eq!(r, Err(SendError::Closed));
    assert!(rt.channels[q.chan].queue.is_empty());
    assert!(rt.channels[q.chan].executed.is_empty());
}

#[test]
fn queued_work_is_discarded_after_shutdown() {
    let (mut rt, env) = fresh_runtime();
    let mut q = make_queue(&mut rt, env);
    q.send(&mut rt, 1).unwrap();
    q.send(&mut rt, 2).unwrap();
    rt.signal_shutdown();
    dispatch_one(&mut rt, q.chan);
    dispatch_one(&mut rt, q.chan);
    assert!(rt.channels[q.chan].queue.is_empty());
    assert!(rt.channels[q.chan].executed.is_empty());
    assert_eq!(
        rt.channels[q.chan].discarded,
        vec![Task::User { id: 1 }, Task::User { id: 2 }]
    );
}

#[test]
fn channel_registration_failure_surfaces_as_a_throw() {
    let (mut rt, env) = fresh_runtime();
    rt.deny_registration();
    let cx = Scope::enter(&mut rt, env);
    let r = EventQueue::new(&cx, &mut rt);
    assert!(r.is_err());
    assert!(rt.is_throwing());
    assert_eq!(rt.pending_message().unwrap(), "failed to create the dispatch channel");
    cx.exit(&mut rt);
}

#[test]
fn unref_clears_the_process_keeping_mark() {
    let (mut rt, env) = fresh_runtime();
    let q = make_queue(&mut rt, env);
    assert!(rt.channels[q.chan].refed);
    let cx = Scope::enter(&mut rt, env);
    let q = q.unref(&cx, &mut rt).unwrap();
    cx.exit(&mut rt);
    assert!(!rt.channels[q.chan].refed);
}

#[test]
fn last_drop_releases_the_channel() {
    let (mut rt, env) = fresh_runtime();
    let q = make_queue(&mut rt, env);
    let chan = q.chan;
    let clone = q.clone_ref(&mut rt);
    assert_eq!(rt.channels[chan].strong, 2);
    clone.drop_ref(&mut rt);
    assert_eq!(rt.channels[chan].strong, 1);
    assert!(rt.channels[chan].open);
    q.drop_ref(&mut rt);
    assert_eq!(rt.channels[chan].strong, 0);
    assert!(!rt.channels[chan].open);
    // a released channel accepts no further work
    let mut stale = EventQueue { chan };
    assert_eq!(stale.send(&mut rt, 5), Err(SendError::Closed));
}

#[test]
fn module_default_queue_is_installed_unrefed() {
    let (mut rt, env) = fresh_runtime();
    let flow = initialize_module(&mut rt, env, &Act::Ret);
    assert!(matches!(flow, neon::callback::Flow::Done(_)));
    let chan = rt.instance_chan.expect("instance data installed");
    assert!(rt.channels[chan].open);
    assert!(!rt.channels[chan].refed);
    assert_eq!(rt.channels[chan].strong, 1);
    assert_eq!(rt.scopes.len(), 0);
}
