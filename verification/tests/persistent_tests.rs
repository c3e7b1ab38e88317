use neon::callback::Act;
use neon::context::{drop_module_instance_data, initialize_module, Scope};
use neon::env::Env;
use neon::runtime::{Runtime, Task};
use neon::sync::{dispatch_all, Persistent};

fn initialized_runtime() -> (Runtime, Env) {
    let env = Env { id: 11 };
    let mut rt = Runtime::new(env);
    let _ = initialize_module(&mut rt, env, &Act::Ret);
    (rt, env)
}

#[test]
fn deref_after_scope_exit_yields_the_same_value() {
    let (mut rt, env) = initialized_runtime();
    // obtain a handle inside a scope and wrap it in a long-lived reference
    let mut cx = Scope::enter(&mut rt, env);
    let h = cx.undefined(&mut rt);
    let original_value = h.value;
    let p = Persistent::new(&mut cx, &mut rt, h).expect("reference registration succeeds");
    cx.exit(&mut rt);
    assert!(!h.is_valid(&rt));
    // later, in a different scope on the runtime thread, the reference
    // still yields the very same underlying value
    let mut cx2 = Scope::enter(&mut rt, env);
    let h2 = p.deref(&mut cx2, &mut rt).expect("deref succeeds");
    assert_eq!(h2.value, original_value);
    assert!(h2.is_valid(&rt));
    assert_eq!(h2.scope, cx2.handle_scope);
    cx2.exit(&mut rt);
}

#[test]
fn drop_defers_the_release_to_the_runtime_thread() {
    let (mut rt, env) = initialized_runtime();
    let mut cx = Scope::enter(&mut rt, env);
    let h = cx.undefined(&mut rt);
    let p = Persistent::new(&mut cx, &mut rt, h).unwrap();
    cx.exit(&mut rt);
    let slot = p.slot;
    let refid = rt.persistents[slot].refid;
    let chan = rt.persistents[slot].chan;
    // a clone moved to a spawned thread and dropped there performs no
    // runtime-mutating call on that thread
    let clone = p.clone_ref(&mut rt);
    assert_eq!(rt.persistents[slot].strong, 2);
    clone.drop_ref(&mut rt);
    assert_eq!(rt.persistents[slot].strong, 1);
    assert_eq!(rt.refs[refid].count, 1);
    // the last drop only schedules the release; the strong reference is
    // still untouched until the runtime thread runs the queued work
    p.drop_ref(&mut rt);
    assert_eq!(rt.refs[refid].count, 1);
    assert!(rt.channels[chan].queue.contains(&Task::Release { refid }));
    dispatch_all(&mut rt, chan);
    assert_eq!(rt.refs[refid].count, 0);
}

#[test]
fn reference_registration_failure_surfaces_as_a_throw() {
    let (mut rt, env) = initialized_runtime();
    rt.deny_registration();
    let mut cx = Scope::enter(&mut rt, env);
    let h = cx.undefined(&mut rt);
    let r = Persistent::new(&mut cx, &mut rt, h);
    assert!(r.is_err());
    assert!(rt.is_throwing());
    assert_eq!(rt.pending_message().unwrap(), "failed to create the value reference");
    cx.exit(&mut rt);
}

#[test]
fn release_is_skipped_when_the_process_is_tearing_down() {
    let (mut rt, env) = initialized_runtime();
    let mut cx = Scope::enter(&mut rt, env);
    let h = cx.undefined(&mut rt);
    let p = Persistent::new(&mut cx, &mut rt, h).unwrap();
    cx.exit(&mut rt);
    let slot = p.slot;
    let refid = rt.persistents[slot].refid;
    let chan = rt.persistents[slot].chan;
    rt.signal_shutdown();
    // the queue no longer accepts sends, so the release is simply not
    // performed: an acceptable leak at teardown
    p.drop_ref(&mut rt);
    assert_eq!(rt.refs[refid].count, 1);
    assert!(!rt.channels[chan].queue.contains(&Task::Release { refid }));
}

#[test]
fn instance_finalizer_drops_the_default_queue() {
    let (mut rt, _env) = initialized_runtime();
    let chan = rt.instance_chan.unwrap();
    assert_eq!(rt.channels[chan].strong, 1);
    drop_module_instance_data(&mut rt);
    assert!(rt.instance_chan.is_none());
    assert_eq!(rt.channels[chan].strong, 0);
    assert!(!rt.channels[chan].open);
}
