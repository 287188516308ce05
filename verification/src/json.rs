//! Reading a floating-point value out of a JSON value.
//!
//! The value comes back as the bit pattern of a double-precision number, or
//! not at all: a JSON value that is no number, a number that has no such
//! pattern and a NaN all give `None`.

use arrow::datatypes::Float64Type;
use serde_json::Number;
use serde_json::Value;
use vstd::prelude::*;

use crate::float::normalize_opt;
use crate::float::opt2none;

verus! {

/// A JSON number, `serde_json::Number`. Nothing inside it is visible here.
#[verifier::external_type_specification]
#[verifier::external_body]
pub struct ExNumber(Number);

/// A JSON value of any kind, `serde_json::Value`. Nothing inside it is visible
/// here.
#[verifier::external_type_specification]
#[verifier::external_body]
pub struct ExValue(Value);

/// The bit pattern of the double-precision number that `Number::as_f64` gives
/// for `n`, or `None` where it gives none.
pub uninterp spec fn number_float(n: Number) -> Option<u64>;

/// The number that `v` holds where it is tagged as a number, as
/// `Value::as_number` gives it, or `None` for a value of any other kind: null,
/// a boolean, a string, an array or an object.
pub uninterp spec fn value_number(v: Value) -> Option<Number>;

/// Calls `Number::as_f64` and hands the result over as its bit pattern. What
/// comes back depends on the number alone: serde_json turns an integer into the
/// double nearest to it and gives a float as it stands.
#[verifier::external_body]
fn number_as_f64(n: &Number) -> (of: Option<u64>)
    ensures
        of == number_float(*n),
{
    n.as_f64().map(|f| f.to_bits())
}

/// Calls `Value::as_number`, which gives the number inside a value tagged as a
/// number and `None` for every other kind of value.
#[verifier::external_body]
fn value_as_number(v: &Value) -> (on: Option<&Number>)
    ensures
        (match on {
            Some(n) => value_number(*v) == Some(*n),
            None => value_number(*v) is None,
        }),
{
    v.as_number()
}

/// Reads `n` as a double-precision number. Returns its bit pattern, or `None`
/// where the number has none or the pattern is a NaN.
pub fn num2opt(n: &Number) -> (o: Option<u64>)
    ensures
        o == normalize_opt::<Float64Type>(number_float(*n)),
{
    let of: Option<u64> = number_as_f64(n);
    opt2none::<Float64Type>(of)
}

/// Reads `v` as a double-precision number. Returns what [`num2opt`] gives for
/// the number that `v` holds, and `None` for a value of any other kind.
pub fn val2opt(v: &Value) -> (o: Option<u64>)
    ensures
        o == (match value_number(*v) {
            Some(n) => normalize_opt::<Float64Type>(number_float(n)),
            None => None,
        }),
{
    let on: Option<&Number> = value_as_number(v);
    match on {
        Some(n) => num2opt(n),
        None => None,
    }
}

} // verus!
