use vstd::prelude::*;

use humansize::{FileSize, file_size_opts};

use crate::coerce::{
    expect_number, expect_size, i32_arg, i32_arg_spec, number_spec, size_spec, string_arg,
    string_arg_spec,
};
use crate::error::{FilterError, FilterName, Param};
use crate::value::{Args, Number, Value};

verus! {

/// Clears the sign bit of a binary64 bit pattern.
pub const MAGNITUDE_MASK: u64 = 0x7fff_ffff_ffff_ffff;

/// The bit pattern of `1 - f64::EPSILON`, the least magnitude that counts as one.
pub const UNIT_LOW: u64 = 0x3fef_ffff_ffff_fffe;

/// The bit pattern of `1 + f64::EPSILON`, the greatest magnitude that counts as one.
pub const UNIT_HIGH: u64 = 0x3ff0_0000_0000_0001;

/// Whether `n` counts as one in magnitude: `|abs(n) - 1| <= f64::EPSILON`.
///
/// An integer does so only where it is 1 or -1. For a float, `abs(n) - 1` is
/// exact wherever `abs(n)` lies in `[0.5, 2]`; floats are `EPSILON / 2` apart
/// just below one and `EPSILON` apart just above it, so the magnitudes within
/// `EPSILON` of one are the four from `UNIT_LOW` to `UNIT_HIGH`. NaN compares
/// as no such magnitude.
pub open spec fn is_unit(n: Number) -> bool {
    match n {
        Number::Int(i) => i == 1 || i == -1,
        Number::UInt(u) => u == 1,
        Number::Float(bits) => UNIT_LOW <= (bits & MAGNITUDE_MASK) && (bits & MAGNITUDE_MASK)
            <= UNIT_HIGH,
    }
}

/// Whether `n` counts as one in magnitude.
pub fn unit_magnitude(n: &Number) -> (r: bool)
    ensures
        r == is_unit(*n),
{
    match n {
        Number::Int(i) => *i == 1 || *i == -1,
        Number::UInt(u) => *u == 1,
        Number::Float(bits) => {
            let magnitude = *bits & MAGNITUDE_MASK;
            UNIT_LOW <= magnitude && magnitude <= UNIT_HIGH
        },
    }
}

/// Holds where `r` is the string value `text`, or the error `want` gives.
pub open spec fn gives_text(r: Result<Value, FilterError>, want: Result<Seq<char>, FilterError>) -> bool {
    match want {
        Ok(text) => r matches Ok(Value::String(s)) && s@ == text,
        Err(e) => r == Err::<Value, FilterError>(e),
    }
}

/// What `pluralize` returns: the singular suffix (default empty) where the
/// value counts as one in magnitude, else the plural suffix (default "s").
pub open spec fn pluralize_spec(value: Value, args: Seq<(String, Value)>) -> Result<Seq<char>, FilterError> {
    let f = FilterName::Pluralize;
    match number_spec(value, f, Param::Value) {
        Err(e) => Err(e),
        Ok(n) => match string_arg_spec(args, f, Param::Plural) {
            Err(e) => Err(e),
            Ok(plural) => match string_arg_spec(args, f, Param::Singular) {
                Err(e) => Err(e),
                Ok(singular) => Ok(
                    if is_unit(n) {
                        match singular {
                            Some(s) => s@,
                            None => Seq::empty(),
                        }
                    } else {
                        match plural {
                            Some(s) => s@,
                            None => "s"@,
                        }
                    },
                ),
            },
        },
    }
}

/// Returns a plural suffix where the value is not ±1, else a singular one.
/// The plural suffix defaults to "s" and the singular one to "".
pub fn pluralize(value: &Value, args: &Args) -> (r: Result<Value, FilterError>)
    ensures
        gives_text(r, pluralize_spec(*value, args@)),
{
    let f = FilterName::Pluralize;
    let num = match expect_number(value, f, Param::Value) {
        Ok(n) => n,
        Err(e) => return Err(e),
    };
    let plural = match string_arg(args, f, Param::Plural) {
        Ok(Some(s)) => s,
        Ok(None) => "s".to_owned(),
        Err(e) => return Err(e),
    };
    let singular = match string_arg(args, f, Param::Singular) {
        Ok(Some(s)) => s,
        Ok(None) => String::new(),
        Err(e) => return Err(e),
    };
    if unit_magnitude(&num) {
        Ok(Value::String(singular))
    } else {
        Ok(Value::String(plural))
    }
}

/// How `round` rounds.
#[derive(Debug, Clone, Copy, PartialEq, Eq)]
pub enum RoundMethod {
    /// To the nearest, halves away from zero.
    Common,
    /// Toward positive infinity.
    Ceil,
    /// Toward negative infinity.
    Floor,
}

/// The method that the text `s` names, if any.
pub open spec fn method_of(s: Seq<char>) -> Option<RoundMethod> {
    if s == "common"@ {
        Some(RoundMethod::Common)
    } else if s == "ceil"@ {
        Some(RoundMethod::Ceil)
    } else if s == "floor"@ {
        Some(RoundMethod::Floor)
    } else {
        None
    }
}

/// The method that `s` names, if any.
pub fn parse_method(s: &String) -> (r: Option<RoundMethod>)
    ensures
        r == method_of(s@),
{
    let common = "common".to_owned();
    let ceil = "ceil".to_owned();
    let floor = "floor".to_owned();
    if *s == common {
        Some(RoundMethod::Common)
    } else if *s == ceil {
        Some(RoundMethod::Ceil)
    } else if *s == floor {
        Some(RoundMethod::Floor)
    } else {
        None
    }
}

/// A rounding that `round` asks for: `value` scaled by ten to the power of
/// `precision`, rounded by `method`, and scaled back.
#[derive(Debug, Clone, PartialEq)]
pub struct Rounding {
    pub value: Number,
    pub method: RoundMethod,
    pub precision: i32,
}

/// What `round_args` returns. The value is taken first, then `method`
/// (default "common"), then `precision` (default 0); a method that is none
/// of "common", "ceil" and "floor" is an invalid argument.
pub open spec fn round_spec(value: Value, args: Seq<(String, Value)>) -> Result<Rounding, FilterError> {
    let f = FilterName::Round;
    match number_spec(value, f, Param::Value) {
        Err(e) => Err(e),
        Ok(n) => match string_arg_spec(args, f, Param::Method) {
            Err(e) => Err(e),
            Ok(method) => match i32_arg_spec(args, f, Param::Precision) {
                Err(e) => Err(e),
                Ok(precision) => {
                    let precision = match precision {
                        Some(p) => p,
                        None => 0,
                    };
                    match method {
                        None => Ok(Rounding { value: n, method: RoundMethod::Common, precision }),
                        Some(m) => match method_of(m@) {
                            Some(method) => Ok(Rounding { value: n, method, precision }),
                            None => Err(
                                FilterError::InvalidArgument { filter: f, param: Param::Method, value: m },
                            ),
                        },
                    }
                },
            },
        },
    }
}

/// Takes the inputs of the `round` filter: the number to round, the method
/// and the precision, or the error that the call fails with.
pub fn round_args(value: &Value, args: &Args) -> (r: Result<Rounding, FilterError>)
    ensures
        r == round_spec(*value, args@),
{
    let f = FilterName::Round;
    let num = match expect_number(value, f, Param::Value) {
        Ok(n) => n,
        Err(e) => return Err(e),
    };
    let method = match string_arg(args, f, Param::Method) {
        Ok(m) => m,
        Err(e) => return Err(e),
    };
    let precision = match i32_arg(args, f, Param::Precision) {
        Ok(Some(p)) => p,
        Ok(None) => 0,
        Err(e) => return Err(e),
    };
    match method {
        None => Ok(Rounding { value: num, method: RoundMethod::Common, precision }),
        Some(m) => match parse_method(&m) {
            Some(method) => Ok(Rounding { value: num, method, precision }),
            None => Err(FilterError::InvalidArgument { filter: f, param: Param::Method, value: m }),
        },
    }
}

/// The text that humansize writes for `n` bytes with its conventional
/// options: powers of 1024 under the decimal unit names, two decimals.
pub uninterp spec fn conventional_size(n: nat) -> Seq<char>;

/// Relies on `humansize::FileSize::file_size` for `usize` with
/// `file_size_opts::CONVENTIONAL`: its impl for unsigned integers always
/// returns `Ok`, and the text depends on the number alone.
#[verifier::external_body]
fn conventional_file_size(n: usize) -> (r: Result<String, String>)
    ensures
        r.is_ok(),
        r.unwrap()@ == conventional_size(n as nat),
{
    n.file_size(file_size_opts::CONVENTIONAL)
}

/// What `filesizeformat` returns: the human-readable size of a value that
/// is a size. Its arguments are ignored.
pub open spec fn filesizeformat_spec(value: Value) -> Result<Seq<char>, FilterError> {
    match size_spec(value, FilterName::FileSizeFormat, Param::Value) {
        Ok(n) => Ok(conventional_size(n as nat)),
        Err(e) => Err(e),
    }
}

/// Returns a human-readable file size (such as "117.74 MB") for a number
/// of bytes.
pub fn filesizeformat(value: &Value, args: &Args) -> (r: Result<Value, FilterError>)
    ensures
        gives_text(r, filesizeformat_spec(*value)),
{
    let f = FilterName::FileSizeFormat;
    let num = match expect_size(value, f, Param::Value) {
        Ok(n) => n,
        Err(e) => return Err(e),
    };
    match conventional_file_size(num) {
        Ok(s) => Ok(Value::String(s)),
        Err(_) => Err(FilterError::NegativeSize { filter: f, got: value.shape() }),
    }
}

} // verus!
