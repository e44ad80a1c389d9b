//! The builtin library on concrete values: list accessors, truthiness,
//! binding builtins and their failures.

use turtle_core::builtins::{getindex, global, head, isempty, length, make, not, tail};
use turtle_core::env::Environment;
use turtle_core::error::RuntimeError;
use turtle_core::value::{Value, MILLI};

fn num(units: i64) -> Value {
    Value::Number(units * MILLI)
}

fn list(items: Vec<Value>) -> Value {
    Value::List(items)
}

#[test]
fn head_of_empty_is_nothing() {
    let mut env = Environment::new();
    let r = head(&mut env, &[list(vec![])]);
    assert_eq!(r, Ok(Value::Nothing));
}

#[test]
fn head_of_list_is_first_element() {
    let mut env = Environment::new();
    let r = head(&mut env, &[list(vec![num(1), num(2), num(3)])]);
    assert_eq!(r, Ok(num(1)));
}

#[test]
fn tail_of_empty_is_nothing() {
    let mut env = Environment::new();
    let r = tail(&mut env, &[list(vec![])]);
    assert_eq!(r, Ok(Value::Nothing));
}

#[test]
fn tail_of_list_is_rest() {
    let mut env = Environment::new();
    let r = tail(&mut env, &[list(vec![num(1), num(2), num(3)])]);
    assert_eq!(r, Ok(list(vec![num(2), num(3)])));
}

#[test]
fn tail_leaves_the_argument_unchanged() {
    let mut env = Environment::new();
    let arg = list(vec![num(1), num(2)]);
    let _ = tail(&mut env, &[arg.clone()]);
    assert_eq!(arg, list(vec![num(1), num(2)]));
}

#[test]
fn length_of_empty_is_zero() {
    let mut env = Environment::new();
    let r = length(&mut env, &[list(vec![])]);
    assert_eq!(r, Ok(num(0)));
}

#[test]
fn length_counts_elements() {
    let mut env = Environment::new();
    let r = length(&mut env, &[list(vec![num(7), Value::Nothing, num(9)])]);
    assert_eq!(r, Ok(num(3)));
}

#[test]
fn isempty_of_empty_is_one() {
    let mut env = Environment::new();
    let r = isempty(&mut env, &[list(vec![])]);
    assert_eq!(r, Ok(num(1)));
}

#[test]
fn isempty_of_nonempty_is_zero() {
    let mut env = Environment::new();
    let r = isempty(&mut env, &[list(vec![num(1)])]);
    assert_eq!(r, Ok(num(0)));
}

#[test]
fn getindex_returns_the_named_element() {
    let mut env = Environment::new();
    let r = getindex(&mut env, &[list(vec![num(10), num(20)]), num(1)]);
    assert_eq!(r, Ok(num(20)));
}

#[test]
fn getindex_truncates_the_index_toward_zero() {
    let mut env = Environment::new();
    // index 1.9 names the element at 1
    let r = getindex(&mut env, &[list(vec![num(10), num(20)]), Value::Number(1900)]);
    assert_eq!(r, Ok(num(20)));
}

#[test]
fn getindex_out_of_bounds_names_index_and_length() {
    let mut env = Environment::new();
    let r = getindex(&mut env, &[list(vec![num(10), num(20)]), num(2)]);
    match r {
        Err(RuntimeError::OutOfBounds { index, len }) => {
            assert_eq!(index, 2);
            assert_eq!(len, 2);
        }
        other => panic!("expected an out-of-bounds failure, got {:?}", other),
    }
}

#[test]
fn getindex_out_of_bounds_message_names_both_numbers() {
    let e = RuntimeError::OutOfBounds { index: 2, len: 2 };
    assert_eq!(e.describe(), "Index out of bounds: 2 >= 2");
}

#[test]
fn getindex_rejects_a_non_list() {
    let mut env = Environment::new();
    let r = getindex(&mut env, &[num(3), num(0)]);
    assert_eq!(r, Err(RuntimeError::TypeMismatch { found: num(3) }));
}

#[test]
fn getindex_rejects_a_non_numeric_index() {
    let mut env = Environment::new();
    let r = getindex(&mut env, &[list(vec![num(1)]), Value::Text("zero".to_string())]);
    assert_eq!(
        r,
        Err(RuntimeError::TypeMismatch { found: Value::Text("zero".to_string()) })
    );
}

#[test]
fn head_rejects_a_non_list() {
    let mut env = Environment::new();
    let r = head(&mut env, &[Value::Text("abc".to_string())]);
    assert_eq!(
        r,
        Err(RuntimeError::TypeMismatch { found: Value::Text("abc".to_string()) })
    );
}

#[test]
fn not_of_zero_is_one() {
    let mut env = Environment::new();
    let r = not(&mut env, &[num(0)]);
    assert_eq!(r, Ok(num(1)));
}

#[test]
fn not_of_five_is_zero() {
    let mut env = Environment::new();
    let r = not(&mut env, &[num(5)]);
    assert_eq!(r, Ok(num(0)));
}

#[test]
fn not_of_non_numbers_is_zero() {
    // texts, lists and nothing all count as truthy
    let mut env = Environment::new();
    assert_eq!(not(&mut env, &[Value::Text("".to_string())]), Ok(num(0)));
    assert_eq!(not(&mut env, &[list(vec![])]), Ok(num(0)));
    assert_eq!(not(&mut env, &[Value::Nothing]), Ok(num(0)));
}

#[test]
fn make_rejects_a_non_text_name() {
    let mut env = Environment::new();
    let r = make(&mut env, &[num(1), num(2)]);
    assert_eq!(r, Err(RuntimeError::TypeMismatch { found: num(1) }));
}

#[test]
fn global_rejects_a_non_text_name() {
    let mut env = Environment::new();
    let r = global(&mut env, &[Value::Nothing, num(2)]);
    assert_eq!(r, Err(RuntimeError::TypeMismatch { found: Value::Nothing }));
}

#[test]
fn mismatch_message_names_the_offending_value() {
    let e = RuntimeError::TypeMismatch { found: num(1) };
    let text = e.describe();
    assert!(text.starts_with("invalid argument: "));
    assert!(text.contains("Number"));
}

#[test]
fn value_truthiness_rule() {
    assert!(!Value::Number(0).boolean());
    assert!(Value::Number(5000).boolean());
    assert!(Value::Number(-1).boolean());
    assert!(Value::Text("".to_string()).boolean());
    assert!(Value::List(vec![]).boolean());
    assert!(Value::Nothing.boolean());
}

#[test]
fn value_clone_is_deep() {
    let v = list(vec![num(1), list(vec![num(2)]), Value::Text("t".to_string())]);
    let w = v.clone();
    assert_eq!(v, w);
}
