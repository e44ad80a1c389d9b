//! Scoped name bindings: the innermost frame wins, locals die with their
//! frame, globals survive it.

use turtle_core::builtins::{global, make};
use turtle_core::env::Environment;
use turtle_core::value::{Value, MILLI};

fn name(s: &str) -> String {
    s.to_string()
}

#[test]
fn make_binds_in_the_current_frame() {
    let mut env = Environment::new();
    let r = make(
        &mut env,
        &[Value::Text(name("x")), Value::Number(1 * MILLI)],
    );
    assert_eq!(r, Ok(Value::Nothing));
    assert_eq!(env.lookup(&name("x")), Some(&Value::Number(1 * MILLI)));
}

#[test]
fn local_binding_dies_with_its_frame() {
    let mut env = Environment::new();
    env.push_frame();
    let r = make(
        &mut env,
        &[Value::Text(name("x")), Value::Number(1 * MILLI)],
    );
    assert_eq!(r, Ok(Value::Nothing));
    assert_eq!(env.lookup(&name("x")), Some(&Value::Number(1 * MILLI)));
    env.pop_frame();
    assert_eq!(env.lookup(&name("x")), None);
}

#[test]
fn global_binding_survives_the_frame() {
    let mut env = Environment::new();
    env.push_frame();
    let r = global(
        &mut env,
        &[Value::Text(name("y")), Value::Number(2 * MILLI)],
    );
    assert_eq!(r, Ok(Value::Nothing));
    env.pop_frame();
    assert_eq!(env.lookup(&name("y")), Some(&Value::Number(2 * MILLI)));
}

#[test]
fn inner_binding_shadows_outer() {
    let mut env = Environment::new();
    let _ = make(&mut env, &[Value::Text(name("x")), Value::Number(1000)]);
    env.push_frame();
    let _ = make(&mut env, &[Value::Text(name("x")), Value::Number(2000)]);
    assert_eq!(env.lookup(&name("x")), Some(&Value::Number(2000)));
    env.pop_frame();
    assert_eq!(env.lookup(&name("x")), Some(&Value::Number(1000)));
}

#[test]
fn last_write_wins_within_a_frame() {
    let mut env = Environment::new();
    let _ = make(&mut env, &[Value::Text(name("x")), Value::Number(1000)]);
    let _ = make(&mut env, &[Value::Text(name("x")), Value::Number(5000)]);
    assert_eq!(env.lookup(&name("x")), Some(&Value::Number(5000)));
}

#[test]
fn global_writes_through_nested_frames() {
    let mut env = Environment::new();
    env.push_frame();
    env.push_frame();
    let _ = global(&mut env, &[Value::Text(name("g")), Value::Number(7000)]);
    env.pop_frame();
    env.pop_frame();
    assert_eq!(env.depth(), 1);
    assert_eq!(env.lookup(&name("g")), Some(&Value::Number(7000)));
}

#[test]
fn lookup_of_an_unbound_name_is_none() {
    let env = Environment::new();
    assert_eq!(env.lookup(&name("nope")), None);
}
