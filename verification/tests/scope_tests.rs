use neon::callback::{Act, Flow, PanicPayload};
use neon::context::{run_callback, Scope};
use neon::env::Env;
use neon::runtime::Runtime;

fn fresh_runtime() -> (Runtime, Env) {
    let env = Env { id: 7 };
    (Runtime::new(env), env)
}

#[test]
fn enter_exit_restores_scope_stack() {
    let (mut rt, env) = fresh_runtime();
    let cx = Scope::enter(&mut rt, env);
    assert_eq!(rt.scopes.len(), 1);
    assert!(cx.is_active());
    assert_eq!(cx.env(), env);
    cx.exit(&mut rt);
    assert_eq!(rt.scopes.len(), 0);
}

#[test]
fn handle_valid_only_while_scope_open() {
    let (mut rt, env) = fresh_runtime();
    let cx = Scope::enter(&mut rt, env);
    let h = cx.undefined(&mut rt);
    assert!(h.is_valid(&rt));
    assert_eq!(h.try_get(&rt), Some(h.value));
    assert_eq!(h.get(&rt), h.value);
    cx.exit(&mut rt);
    // The scope's extent ended: any use of the handle must be rejected.
    assert!(!h.is_valid(&rt));
    assert_eq!(h.try_get(&rt), None);
}

#[test]
fn with_returns_value_and_restores_stack() {
    let (mut rt, env) = fresh_runtime();
    let flow = Scope::with(&mut rt, env, &Act::Ret);
    assert_eq!(rt.scopes.len(), 0);
    match flow {
        Flow::Done(Ok(h)) => assert!(!h.is_valid(&rt)),
        _ => panic!("expected a normal return"),
    }
}

#[test]
fn nested_scope_restores_outer_on_normal_return() {
    let (mut rt, env) = fresh_runtime();
    let act = Act::Scoped(Box::new(Act::GetHandle(Box::new(Act::Ret))), Box::new(Act::Ret));
    let flow = Scope::with(&mut rt, env, &act);
    assert_eq!(rt.scopes.len(), 0);
    assert!(matches!(flow, Flow::Done(Ok(_))));
    // every scope entered during the call has exited again
    assert!(rt.scope_states.iter().all(|open| !open));
}

#[test]
fn nested_scope_restores_outer_on_unwind() {
    let (mut rt, env) = fresh_runtime();
    let act = Act::Scoped(
        Box::new(Act::Panic(PanicPayload::Message(String::from("inner unwind")))),
        Box::new(Act::Ret),
    );
    let flow = Scope::with(&mut rt, env, &act);
    // the unwind propagated, yet the scope stack is exactly restored and
    // every scope entered during the call has exited
    assert_eq!(rt.scopes.len(), 0);
    assert!(rt.scope_states.iter().all(|open| !open));
    match flow {
        Flow::Panicked(PanicPayload::Message(s)) => assert_eq!(s, "inner unwind"),
        _ => panic!("expected the unwind to propagate"),
    }
}

#[test]
fn outer_active_flag_is_restored_after_nested_scope() {
    let (mut rt, env) = fresh_runtime();
    let mut cx = Scope::enter(&mut rt, env);
    assert!(cx.is_active());
    // a nested scope that returns normally
    let act = Act::Scoped(Box::new(Act::Ret), Box::new(Act::Ret));
    let _ = run_callback(&mut rt, &mut cx, &act);
    assert!(cx.is_active());
    // a nested scope whose computation unwinds
    let act = Act::Scoped(Box::new(Act::Panic(PanicPayload::Opaque)), Box::new(Act::Ret));
    let flow = run_callback(&mut rt, &mut cx, &act);
    assert!(matches!(flow, Flow::Panicked(PanicPayload::Opaque)));
    assert!(cx.is_active());
    cx.exit(&mut rt);
}

#[test]
fn handles_made_inside_with_are_dead_after() {
    let (mut rt, env) = fresh_runtime();
    let act = Act::GetHandle(Box::new(Act::Scoped(
        Box::new(Act::GetHandle(Box::new(Act::Ret))),
        Box::new(Act::Ret),
    )));
    let _ = Scope::with(&mut rt, env, &act);
    assert!(!rt.handles_made.is_empty());
    for h in rt.handles_made.clone() {
        assert!(!h.is_valid(&rt));
    }
}

#[test]
fn deactivate_and_activate_toggle_the_flag() {
    let (mut rt, env) = fresh_runtime();
    let mut cx = Scope::enter(&mut rt, env);
    assert!(cx.is_active());
    cx.check_active();
    cx.deactivate();
    assert!(!cx.is_active());
    assert!(!cx.scope_metadata().active);
    cx.activate();
    assert!(cx.is_active());
    cx.exit(&mut rt);
}

#[test]
fn throw_error_sets_the_pending_exception() {
    let (mut rt, env) = fresh_runtime();
    let cx = Scope::enter(&mut rt, env);
    assert!(!rt.is_throwing());
    let r = cx.throw_error(&mut rt, "something failed");
    assert!(r.is_err());
    assert!(rt.is_throwing());
    assert_eq!(rt.pending_message().unwrap(), "something failed");
    cx.exit(&mut rt);
}
