use neon::callback::{Act, PanicPayload};
use neon::context::Scope;
use neon::env::Env;
use neon::runtime::{Runtime, ValueKind};
use neon::unify::{convert_panics, try_catch_control, TryCatchControl, TryCatchOutcome};

fn fresh_runtime() -> (Runtime, Env) {
    let env = Env { id: 1 };
    (Runtime::new(env), env)
}

#[test]
fn try_catch_passes_a_returned_value_through() {
    let (mut rt, env) = fresh_runtime();
    let mut cx = Scope::enter(&mut rt, env);
    let out = cx.try_catch_internal(&mut rt, &Act::Ret);
    assert!(matches!(out, TryCatchOutcome::Returned(_)));
    // the throwing state remains clear
    assert!(!rt.is_throwing());
    cx.exit(&mut rt);
}

#[test]
fn try_catch_catches_a_throw_and_clears_the_state() {
    let (mut rt, env) = fresh_runtime();
    let mut cx = Scope::enter(&mut rt, env);
    let act = Act::ThrowError(String::from("boom"), Box::new(Act::RetThrow));
    let out = cx.try_catch_internal(&mut rt, &act);
    match out {
        TryCatchOutcome::Threw(h) => {
            // the pending exception value was retrieved
            match &rt.values[h.value] {
                ValueKind::ErrorVal { message, .. } => assert_eq!(message, "boom"),
                ValueKind::Undefined => panic!("expected the thrown error value"),
            }
        }
        _ => panic!("expected the throw to be caught"),
    }
    // and the throwing state was cleared afterward
    assert!(!rt.is_throwing());
    cx.exit(&mut rt);
}

#[test]
fn try_catch_catches_a_throw_even_when_ok_was_returned() {
    let (mut rt, env) = fresh_runtime();
    let mut cx = Scope::enter(&mut rt, env);
    let act = Act::ThrowError(String::from("ignored throw"), Box::new(Act::Ret));
    let out = cx.try_catch_internal(&mut rt, &act);
    assert!(matches!(out, TryCatchOutcome::Threw(_)));
    assert!(!rt.is_throwing());
    cx.exit(&mut rt);
}

#[test]
fn try_catch_reraises_a_panic() {
    let (mut rt, env) = fresh_runtime();
    let mut cx = Scope::enter(&mut rt, env);
    let act = Act::Panic(PanicPayload::Message(String::from("zomg")));
    let out = cx.try_catch_internal(&mut rt, &act);
    match out {
        TryCatchOutcome::Panicked(PanicPayload::Message(s)) => assert_eq!(s, "zomg"),
        _ => panic!("expected the unwind to be propagated, not swallowed"),
    }
    cx.exit(&mut rt);
}

#[test]
fn panic_after_throw_overrides_the_throw() {
    let (mut rt, env) = fresh_runtime();
    let mut cx = Scope::enter(&mut rt, env);
    let act = Act::ThrowError(
        String::from("entering throw state with an error"),
        Box::new(Act::Panic(PanicPayload::Message(String::from(
            "this should override the error",
        )))),
    );
    let out = cx.try_catch_internal(&mut rt, &act);
    match out {
        TryCatchOutcome::Panicked(PanicPayload::Message(s)) => {
            assert_eq!(s, "this should override the error");
        }
        _ => panic!("the panic must take precedence over the pending throw"),
    }
    // the throwing state is left as the callback left it
    assert!(rt.is_throwing());
    cx.exit(&mut rt);
}

#[test]
fn control_classification_covers_all_four_outcomes() {
    assert_eq!(try_catch_control(true, false, true), TryCatchControl::Panicked);
    assert_eq!(try_catch_control(true, true, false), TryCatchControl::Panicked);
    assert_eq!(try_catch_control(false, false, true), TryCatchControl::Threw);
    assert_eq!(try_catch_control(false, true, true), TryCatchControl::Threw);
    assert_eq!(try_catch_control(false, true, false), TryCatchControl::Returned);
    assert_eq!(try_catch_control(false, false, false), TryCatchControl::UnexpectedErr);
}

#[test]
fn convert_panics_preserves_a_textual_payload_verbatim() {
    let (mut rt, env) = fresh_runtime();
    let mut cx = Scope::enter(&mut rt, env);
    let act = Act::Panic(PanicPayload::Message(String::from("zomg")));
    let r = convert_panics(&mut rt, &mut cx, &act);
    assert!(r.is_err());
    assert!(rt.is_throwing());
    assert_eq!(rt.pending_message().unwrap(), "internal error in Neon module: zomg");
    cx.exit(&mut rt);
}

#[test]
fn convert_panics_falls_back_to_the_generic_message() {
    let (mut rt, env) = fresh_runtime();
    let mut cx = Scope::enter(&mut rt, env);
    let act = Act::Panic(PanicPayload::Opaque);
    let r = convert_panics(&mut rt, &mut cx, &act);
    assert!(r.is_err());
    assert_eq!(rt.pending_message().unwrap(), "internal error in Neon module");
    cx.exit(&mut rt);
}

#[test]
fn convert_panics_hands_a_completed_result_through() {
    let (mut rt, env) = fresh_runtime();
    let mut cx = Scope::enter(&mut rt, env);
    let r = convert_panics(&mut rt, &mut cx, &Act::Ret);
    assert!(r.is_ok());
    assert!(!rt.is_throwing());
    cx.exit(&mut rt);
}
