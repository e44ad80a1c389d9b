//! The builtin library: named operations the evaluator calls with an
//! environment and an already-evaluated argument list.
//!
//! Every builtin returns either a value or a [`RuntimeError`], never
//! crashes. The evaluator guarantees at least the builtin's minimum number
//! of arguments (a `requires` here); every shape check on the arguments
//! themselves is performed explicitly and answered with a type-mismatch
//! failure carrying the offending value.

use vstd::prelude::*;

use crate::env::{env_define_global, env_define_local, Environment};
use crate::error::{RuntimeError, RuntimeErrorModel};
use crate::value::{list_model, spec_truthy, value_model, Value, ValueModel, MILLI};

verus! {

/// What a builtin call produces: a value or a typed failure.
pub type ResultType = Result<Value, RuntimeError>;

/// Largest list length the numeric conversions of the builtins accept; a
/// machine limit far beyond what memory can hold.
pub const LIST_LEN_LIMIT: u64 = 1000000000000;

/// Bind a name in the current (innermost) frame: `make(name, value)`.
/// Succeeds exactly when the first argument is a text; otherwise nothing
/// changes and the offending value is reported.
pub fn make(env: &mut Environment, args: &[Value]) -> (r: ResultType)
    requires
        old(env).wf(),
        args@.len() >= 2,
    ensures
        final(env).wf(),
        value_model(args@[0]) matches ValueModel::Text(name) ==> (r matches Ok(v)
            && value_model(v) == ValueModel::Nothing) && final(env)@ == env_define_local(
            old(env)@,
            name,
            value_model(args@[1]),
        ),
        !(value_model(args@[0]) is Text) ==> *final(env) == *old(env) && (r matches Err(e)
            && e@ == (RuntimeErrorModel::TypeMismatch { found: value_model(args@[0]) })),
{
    match &args[0] {
        Value::Text(name) => {
            env.define_local(name, args[1].clone());
            Ok(Value::Nothing)
        },
        other => Err(RuntimeError::TypeMismatch { found: other.clone() }),
    }
}

/// Bind a name in the global (outermost) frame: `global(name, value)`.
/// Succeeds exactly when the first argument is a text; otherwise nothing
/// changes and the offending value is reported.
pub fn global(env: &mut Environment, args: &[Value]) -> (r: ResultType)
    requires
        old(env).wf(),
        args@.len() >= 2,
    ensures
        final(env).wf(),
        value_model(args@[0]) matches ValueModel::Text(name) ==> (r matches Ok(v)
            && value_model(v) == ValueModel::Nothing) && final(env)@ == env_define_global(
            old(env)@,
            name,
            value_model(args@[1]),
        ),
        !(value_model(args@[0]) is Text) ==> *final(env) == *old(env) && (r matches Err(e)
            && e@ == (RuntimeErrorModel::TypeMismatch { found: value_model(args@[0]) })),
{
    match &args[0] {
        Value::Text(name) => {
            env.define_global(name, args[1].clone());
            Ok(Value::Nothing)
        },
        other => Err(RuntimeError::TypeMismatch { found: other.clone() }),
    }
}

/// The first element of a list; nothing when the list is empty:
/// `head([])` is nothing, `head([v, ...])` is `v`.
pub fn head(env: &mut Environment, args: &[Value]) -> (r: ResultType)
    requires
        args@.len() >= 1,
    ensures
        *final(env) == *old(env),
        value_model(args@[0]) matches ValueModel::List(items) ==> (r matches Ok(v)
            && value_model(v) == if items.len() == 0 {
            ValueModel::Nothing
        } else {
            items[0]
        }),
        !(value_model(args@[0]) is List) ==> (r matches Err(e)
            && e@ == (RuntimeErrorModel::TypeMismatch { found: value_model(args@[0]) })),
{
    match &args[0] {
        Value::List(items) => {
            if items.len() == 0 {
                Ok(Value::Nothing)
            } else {
                Ok(items[0].clone())
            }
        },
        other => Err(RuntimeError::TypeMismatch { found: other.clone() }),
    }
}

/// All but the first element, as a new list; nothing when the list is
/// empty.
pub fn tail(env: &mut Environment, args: &[Value]) -> (r: ResultType)
    requires
        args@.len() >= 1,
    ensures
        *final(env) == *old(env),
        value_model(args@[0]) matches ValueModel::List(items) ==> (r matches Ok(v)
            && value_model(v) == if items.len() == 0 {
            ValueModel::Nothing
        } else {
            ValueModel::List(items.skip(1))
        }),
        !(value_model(args@[0]) is List) ==> (r matches Err(e)
            && e@ == (RuntimeErrorModel::TypeMismatch { found: value_model(args@[0]) })),
{
    match &args[0] {
        Value::List(items) => {
            if items.len() == 0 {
                Ok(Value::Nothing)
            } else {
                let mut rest: Vec<Value> = Vec::new();
                let mut i: usize = 1;
                while i < items.len()
                    invariant
                        1 <= i <= items.len(),
                        rest@.len() == i - 1,
                        forall|j: int| 0 <= j < i - 1 ==> value_model(rest@[j]) == value_model(
                            items@[j + 1],
                        ),
                    decreases items.len() - i,
                {
                    rest.push(items[i].clone());
                    i = i + 1;
                }
                proof {
                    assert(list_model(rest@) =~= list_model(items@).skip(1));
                }
                Ok(Value::List(rest))
            }
        },
        other => Err(RuntimeError::TypeMismatch { found: other.clone() }),
    }
}

/// The element count of a list, as a number.
pub fn length(env: &mut Environment, args: &[Value]) -> (r: ResultType)
    requires
        args@.len() >= 1,
        value_model(args@[0]) matches ValueModel::List(items) ==> items.len() <= LIST_LEN_LIMIT,
    ensures
        *final(env) == *old(env),
        value_model(args@[0]) matches ValueModel::List(items) ==> (r matches Ok(v)
            && value_model(v) == ValueModel::Number(items.len() * (MILLI as int))),
        !(value_model(args@[0]) is List) ==> (r matches Err(e)
            && e@ == (RuntimeErrorModel::TypeMismatch { found: value_model(args@[0]) })),
{
    match &args[0] {
        Value::List(items) => {
            let n = items.len();
            Ok(Value::Number((n as i64) * MILLI))
        },
        other => Err(RuntimeError::TypeMismatch { found: other.clone() }),
    }
}

/// Whether a list is empty, in the numeric boolean encoding: one when
/// empty, zero otherwise.
pub fn isempty(env: &mut Environment, args: &[Value]) -> (r: ResultType)
    requires
        args@.len() >= 1,
    ensures
        *final(env) == *old(env),
        value_model(args@[0]) matches ValueModel::List(items) ==> (r matches Ok(v)
            && value_model(v) == ValueModel::Number(
            if items.len() == 0 {
                MILLI as int
            } else {
                0
            },
        )),
        !(value_model(args@[0]) is List) ==> (r matches Err(e)
            && e@ == (RuntimeErrorModel::TypeMismatch { found: value_model(args@[0]) })),
{
    match &args[0] {
        Value::List(items) => {
            if items.len() == 0 {
                Ok(Value::Number(MILLI))
            } else {
                Ok(Value::Number(0))
            }
        },
        other => Err(RuntimeError::TypeMismatch { found: other.clone() }),
    }
}

/// The list index named by a number: its whole units, truncated toward
/// zero, negative values landing on zero as the saturating conversion does.
pub open spec fn index_of_number(n: int) -> int {
    if n < 0 {
        0
    } else {
        n / (MILLI as int)
    }
}

/// The element of a list at a numeric index: `get_index(L, n)` with `n`
/// truncated toward zero; fails with an out-of-bounds error carrying both
/// the requested index and the list length when the index is not below the
/// length.
pub fn getindex(env: &mut Environment, args: &[Value]) -> (r: ResultType)
    requires
        args@.len() >= 2,
    ensures
        *final(env) == *old(env),
        value_model(args@[0]) matches ValueModel::List(items) ==> (value_model(args@[1]) matches
            ValueModel::Number(n) ==> {
            if index_of_number(n) >= items.len() {
                (r matches Err(e) && e@ == (RuntimeErrorModel::OutOfBounds {
                    index: index_of_number(n),
                    len: items.len() as int,
                }))
            } else {
                (r matches Ok(v) && value_model(v) == items[index_of_number(n)])
            }
        }),
        value_model(args@[0]) matches ValueModel::List(items) ==> (!(value_model(args@[1])
            is Number) ==> (r matches Err(e) && e@ == (RuntimeErrorModel::TypeMismatch {
            found: value_model(args@[1]),
        }))),
        !(value_model(args@[0]) is List) ==> (r matches Err(e)
            && e@ == (RuntimeErrorModel::TypeMismatch { found: value_model(args@[0]) })),
{
    match (&args[0], &args[1]) {
        (Value::List(items), Value::Number(n)) => {
            let idx: u64 = if *n < 0 {
                0
            } else {
                (*n / MILLI) as u64
            };
            let len: u64 = items.len() as u64;
            if idx >= len {
                Err(RuntimeError::OutOfBounds { index: idx, len })
            } else {
                Ok(items[idx as usize].clone())
            }
        },
        (Value::List(_), other) => Err(RuntimeError::TypeMismatch { found: other.clone() }),
        (other, _) => Err(RuntimeError::TypeMismatch { found: other.clone() }),
    }
}

/// Logical negation under the truthiness rule: one for a falsy value, zero
/// for a truthy one. Never fails.
pub fn not(env: &mut Environment, args: &[Value]) -> (r: ResultType)
    requires
        args@.len() >= 1,
    ensures
        *final(env) == *old(env),
        r matches Ok(v) && value_model(v) == ValueModel::Number(
            if spec_truthy(value_model(args@[0])) {
                0
            } else {
                MILLI as int
            },
        ),
{
    let truthy = args[0].boolean();
    if truthy {
        Ok(Value::Number(0))
    } else {
        Ok(Value::Number(MILLI))
    }
}

/// The target path of a snapshot export: the first argument must be a
/// text; otherwise the offending value is reported. Validation only; the
/// file itself is written by the caller around the runtime.
pub fn screenshot_target(args: &[Value]) -> (r: Result<String, RuntimeError>)
    requires
        args@.len() >= 1,
    ensures
        value_model(args@[0]) matches ValueModel::Text(p) ==> (r matches Ok(s) && s@ == p),
        !(value_model(args@[0]) is Text) ==> (r matches Err(e)
            && e@ == (RuntimeErrorModel::TypeMismatch { found: value_model(args@[0]) })),
{
    match &args[0] {
        Value::Text(path) => Ok(path.clone()),
        other => Err(RuntimeError::TypeMismatch { found: other.clone() }),
    }
}

} // verus!
