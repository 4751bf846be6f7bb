use vstd::prelude::*;

use crate::error::{Expected, FilterError, FilterName, Param, mismatch, param_text};
use crate::value::{Args, Number, Value, lookup, shape_of};

verus! {

/// The number that `v` holds, if it is one.
pub open spec fn number_of(v: Value) -> Option<Number> {
    match v {
        Value::Number(n) => Some(n),
        _ => None,
    }
}

/// The `i32` that `v` holds: an integer in the range of `i32`.
pub open spec fn i32_of(v: Value) -> Option<i32> {
    match v {
        Value::Number(Number::Int(i)) => if i32::MIN <= i && i <= i32::MAX {
            Some(i as i32)
        } else {
            None
        },
        Value::Number(Number::UInt(u)) => if u <= i32::MAX {
            Some(u as i32)
        } else {
            None
        },
        _ => None,
    }
}

/// The size that `v` holds: an integer from zero to `usize::MAX`.
pub open spec fn size_of(v: Value) -> Option<usize> {
    match v {
        Value::Number(Number::Int(i)) => if 0 <= i && i <= usize::MAX {
            Some(i as usize)
        } else {
            None
        },
        Value::Number(Number::UInt(u)) => if u <= usize::MAX {
            Some(u as usize)
        } else {
            None
        },
        _ => None,
    }
}

/// What `expect_number` returns.
pub open spec fn number_spec(v: Value, filter: FilterName, param: Param) -> Result<Number, FilterError> {
    match number_of(v) {
        Some(n) => Ok(n),
        None => Err(mismatch(filter, param, Expected::Float, v)),
    }
}

/// What `expect_string` returns.
pub open spec fn string_spec(v: Value, filter: FilterName, param: Param) -> Result<String, FilterError> {
    match v {
        Value::String(s) => Ok(s),
        _ => Err(mismatch(filter, param, Expected::Str, v)),
    }
}

/// What `expect_i32` returns.
pub open spec fn i32_spec(v: Value, filter: FilterName, param: Param) -> Result<i32, FilterError> {
    match i32_of(v) {
        Some(i) => Ok(i),
        None => Err(mismatch(filter, param, Expected::Integer, v)),
    }
}

/// What `expect_size` returns.
pub open spec fn size_spec(v: Value, filter: FilterName, param: Param) -> Result<usize, FilterError> {
    match size_of(v) {
        Some(n) => Ok(n),
        None => match number_of(v) {
            Some(_) => Err(FilterError::NegativeSize { filter, got: shape_of(v) }),
            None => Err(mismatch(filter, param, Expected::Size, v)),
        },
    }
}

/// The argument `param` as a string: `None` where it is absent.
pub open spec fn string_arg_spec(args: Seq<(String, Value)>, filter: FilterName, param: Param) -> Result<
    Option<String>,
    FilterError,
> {
    match lookup(args, param_text(param)) {
        None => Ok(None),
        Some(v) => match string_spec(v, filter, param) {
            Ok(s) => Ok(Some(s)),
            Err(e) => Err(e),
        },
    }
}

/// The argument `param` as an `i32`: `None` where it is absent.
pub open spec fn i32_arg_spec(args: Seq<(String, Value)>, filter: FilterName, param: Param) -> Result<
    Option<i32>,
    FilterError,
> {
    match lookup(args, param_text(param)) {
        None => Ok(None),
        Some(v) => match i32_spec(v, filter, param) {
            Ok(i) => Ok(Some(i)),
            Err(e) => Err(e),
        },
    }
}

/// The number that `v` holds, or a type mismatch that names `filter` and `param`.
pub fn expect_number(v: &Value, filter: FilterName, param: Param) -> (r: Result<Number, FilterError>)
    ensures
        r == number_spec(*v, filter, param),
{
    match v {
        Value::Number(n) => Ok(n.duplicate()),
        _ => Err(FilterError::TypeMismatch { filter, param, expected: Expected::Float, got: v.shape() }),
    }
}

/// The string that `v` holds, or a type mismatch that names `filter` and `param`.
pub fn expect_string(v: &Value, filter: FilterName, param: Param) -> (r: Result<String, FilterError>)
    ensures
        r == string_spec(*v, filter, param),
{
    match v {
        Value::String(s) => Ok(s.clone()),
        _ => Err(FilterError::TypeMismatch { filter, param, expected: Expected::Str, got: v.shape() }),
    }
}

/// The `i32` that `v` holds, or a type mismatch that names `filter` and `param`.
pub fn expect_i32(v: &Value, filter: FilterName, param: Param) -> (r: Result<i32, FilterError>)
    ensures
        r == i32_spec(*v, filter, param),
{
    match v {
        Value::Number(Number::Int(i)) => {
            if i32::MIN as i64 <= *i && *i <= i32::MAX as i64 {
                return Ok(*i as i32);
            }
        },
        Value::Number(Number::UInt(u)) => {
            if *u <= i32::MAX as u64 {
                return Ok(*u as i32);
            }
        },
        _ => {},
    }
    Err(FilterError::TypeMismatch { filter, param, expected: Expected::Integer, got: v.shape() })
}

/// The size that `v` holds. A value that is no number is a type mismatch; a
/// number that is no size (negative, fractional or too large) is a
/// `NegativeSize` error.
pub fn expect_size(v: &Value, filter: FilterName, param: Param) -> (r: Result<usize, FilterError>)
    ensures
        r == size_spec(*v, filter, param),
{
    match v {
        Value::Number(Number::Int(i)) => {
            if 0 <= *i && (*i as u64) <= (usize::MAX as u64) {
                return Ok(*i as usize);
            }
        },
        Value::Number(Number::UInt(u)) => {
            if *u <= usize::MAX as u64 {
                return Ok(*u as usize);
            }
        },
        Value::Number(Number::Float(_)) => {},
        _ => {
            return Err(
                FilterError::TypeMismatch { filter, param, expected: Expected::Size, got: v.shape() },
            );
        },
    }
    Err(FilterError::NegativeSize { filter, got: v.shape() })
}

/// The argument `param` as a string, if it is present.
pub fn string_arg(args: &Args, filter: FilterName, param: Param) -> (r: Result<Option<String>, FilterError>)
    ensures
        r == string_arg_spec(args@, filter, param),
{
    match args.get(param.text()) {
        None => Ok(None),
        Some(v) => match expect_string(v, filter, param) {
            Ok(s) => Ok(Some(s)),
            Err(e) => Err(e),
        },
    }
}

/// The argument `param` as an `i32`, if it is present.
pub fn i32_arg(args: &Args, filter: FilterName, param: Param) -> (r: Result<Option<i32>, FilterError>)
    ensures
        r == i32_arg_spec(args@, filter, param),
{
    match args.get(param.text()) {
        None => Ok(None),
        Some(v) => match expect_i32(v, filter, param) {
            Ok(i) => Ok(Some(i)),
            Err(e) => Err(e),
        },
    }
}

} // verus!
