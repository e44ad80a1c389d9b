//! The closed value type of the scripted language.
//!
//! A `Value` is a number, a text, an ordered list or the absence of a result.
//! Numbers are milli-unit fixed point: the `i64` representation carries
//! [`MILLI`] fixed-point steps per unit, so the number one is represented as
//! `1000`. Values are immutable once constructed; list operations hand out
//! fresh lists instead of mutating in place.

use vstd::prelude::*;

verus! {

/// Fixed-point steps per unit: every numeric quantity of the runtime
/// (numbers, coordinates, degrees, lengths, color channels) is an `i64`
/// holding this many steps per unit.
pub const MILLI: i64 = 1000;

/// Mathematical model of a [`Value`]: numbers as unbounded integers of
/// fixed-point steps, texts as character sequences, lists as sequences of
/// models.
pub ghost enum ValueModel {
    Number(int),
    Text(Seq<char>),
    List(Seq<ValueModel>),
    Nothing,
}

/// A runtime value: a fixed-point number, a text, an ordered (possibly
/// heterogeneous) list, or nothing.
#[derive(Debug, PartialEq)]
pub enum Value {
    /// A number, in milli-unit fixed point ([`MILLI`] steps per unit).
    Number(i64),
    /// An immutable text.
    Text(String),
    /// An ordered list of values.
    List(Vec<Value>),
    /// The absence of a result.
    Nothing,
}

/// The model of a single value.
pub open spec fn value_model(v: Value) -> ValueModel
    decreases v,
{
    match v {
        Value::Number(n) => ValueModel::Number(n as int),
        Value::Text(s) => ValueModel::Text(s@),
        Value::List(vs) => ValueModel::List(list_model(vs@)),
        Value::Nothing => ValueModel::Nothing,
    }
}

/// The models of a sequence of values, element by element.
pub open spec fn list_model(s: Seq<Value>) -> Seq<ValueModel>
    decreases s,
{
    Seq::new(
        s.len(),
        |i: int|
            if 0 <= i < s.len() {
                value_model(s[i])
            } else {
                ValueModel::Nothing
            },
    )
}

impl View for Value {
    type V = ValueModel;

    open spec fn view(&self) -> ValueModel {
        value_model(*self)
    }
}

/// The truthiness rule of the language: a value is falsy exactly when it is
/// the number zero; every other value, including texts, lists and nothing,
/// counts as truthy.
pub open spec fn spec_truthy(v: ValueModel) -> bool {
    match v {
        ValueModel::Number(n) => n != 0,
        _ => true,
    }
}

impl Value {
    /// The truthiness of this value under the language's rule: only the
    /// number zero is falsy.
    pub fn boolean(&self) -> (r: bool)
        ensures
            r == spec_truthy(self@),
    {
        match self {
            Value::Number(n) => *n != 0,
            _ => true,
        }
    }
}

impl Clone for Value {
    /// A deep copy whose model is identical to the original's.
    #[verifier::loop_isolation(false)]
    fn clone(&self) -> (r: Self)
        ensures
            r@ == self@,
        decreases self,
    {
        match self {
            Value::Number(n) => Value::Number(*n),
            Value::Text(s) => Value::Text(s.clone()),
            Value::List(vs) => {
                let mut out: Vec<Value> = Vec::new();
                let mut i: usize = 0;
                while i < vs.len()
                    invariant
                        i <= vs.len(),
                        out@.len() == i as int,
                        forall|j: int| 0 <= j < i ==> out@[j]@ == vs@[j]@,
                    decreases vs.len() - i,
                {
                    proof {
                        assert(decreases_to!(*self => self->List_0));
                        assert(decreases_to!(self->List_0 => vs@));
                        assert(decreases_to!(vs@ => vs@[i as int]));
                    }
                    out.push(vs[i].clone());
                    i = i + 1;
                }
                proof {
                    assert(list_model(out@) =~= list_model(vs@));
                }
                Value::List(out)
            },
            Value::Nothing => Value::Nothing,
        }
    }
}

} // verus!
