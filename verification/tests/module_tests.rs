use neon::callback::{Act, Flow, PanicPayload};
use neon::context::{initialize_module, Scope};
use neon::env::Env;
use neon::result::Throw;
use neon::runtime::{ErrorKind, Runtime, ValueKind};
use neon::types::JsError;

fn fresh_runtime() -> (Runtime, Env) {
    let env = Env { id: 21 };
    (Runtime::new(env), env)
}

#[test]
fn module_initialization_runs_the_user_logic() {
    let (mut rt, env) = fresh_runtime();
    let init = Act::ThrowError(String::from("init failed"), Box::new(Act::RetThrow));
    let flow = initialize_module(&mut rt, env, &init);
    assert!(matches!(flow, Flow::Done(Err(Throw))));
    assert!(rt.is_throwing());
    assert_eq!(rt.pending_message().unwrap(), "init failed");
    assert!(rt.instance_chan.is_some());
}

#[test]
fn module_initialization_propagates_an_unwind() {
    let (mut rt, env) = fresh_runtime();
    let init = Act::Panic(PanicPayload::Message(String::from("init blew up")));
    let flow = initialize_module(&mut rt, env, &init);
    match flow {
        Flow::Panicked(PanicPayload::Message(s)) => assert_eq!(s, "init blew up"),
        _ => panic!("the unwind must reach the module boundary"),
    }
    // the root scope was still exited on the way out
    assert_eq!(rt.scopes.len(), 0);
}

#[test]
fn global_queue_returns_a_counted_clone_of_the_default() {
    let (mut rt, env) = fresh_runtime();
    let _ = initialize_module(&mut rt, env, &Act::Ret);
    let chan = rt.instance_chan.unwrap();
    assert_eq!(rt.channels[chan].strong, 1);
    let mut cx = Scope::enter(&mut rt, env);
    let q = cx.global_queue(&mut rt);
    assert_eq!(q.chan, chan);
    assert_eq!(rt.channels[chan].strong, 2);
    cx.exit(&mut rt);
    q.drop_ref(&mut rt);
    assert_eq!(rt.channels[chan].strong, 1);
}

#[test]
fn class_map_slot_is_populated_once() {
    let (mut rt, env) = fresh_runtime();
    assert!(!rt.class_map_init);
    env.class_map(&mut rt);
    assert!(rt.class_map_init);
    env.class_map(&mut rt);
    assert!(rt.class_map_init);
}

#[test]
fn error_values_carry_their_class_and_message() {
    let (mut rt, env) = fresh_runtime();
    let cx = Scope::enter(&mut rt, env);
    let e = JsError::error(&cx, &mut rt, "plain").unwrap();
    let t = JsError::type_error(&cx, &mut rt, "typed").unwrap();
    let r = JsError::range_error(&cx, &mut rt, "ranged").unwrap();
    for (h, kind, msg) in [
        (e, ErrorKind::Error, "plain"),
        (t, ErrorKind::TypeError, "typed"),
        (r, ErrorKind::RangeError, "ranged"),
    ] {
        assert!(h.is_valid(&rt));
        match &rt.values[h.value] {
            ValueKind::ErrorVal { kind: k, message } => {
                assert_eq!(*k, kind);
                assert_eq!(message, msg);
            }
            ValueKind::Undefined => panic!("expected an error value"),
        }
    }
    // creating error values does not put the runtime into a throwing state
    assert!(!rt.is_throwing());
    cx.exit(&mut rt);
}

#[test]
fn throw_sentinel_describes_itself() {
    assert_eq!(Throw.description(), "javascript error");
    assert_eq!(Throw.display_string(), "JavaScript Error");
}
