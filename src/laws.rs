use vstd::prelude::*;

use crate::coerce::i32_arg_spec;
use crate::error::{Expected, FilterError, FilterName, Param, mismatch};
use crate::number::{Rounding, filesizeformat_spec, is_unit, method_of, pluralize_spec, round_spec};
use crate::value::{Number, Value, lookup, shape_of};

verus! {

/// With no arguments, a number that is not one in magnitude takes the
/// suffix "s".
pub proof fn pluralize_plural_by_default(n: Number)
    requires
        !is_unit(n),
    ensures
        pluralize_spec(Value::Number(n), Seq::empty()) == Ok::<Seq<char>, FilterError>("s"@),
{
}

/// With no arguments, a number that is one in magnitude takes the empty
/// suffix.
pub proof fn pluralize_singular_by_default(n: Number)
    requires
        is_unit(n),
    ensures
        pluralize_spec(Value::Number(n), Seq::empty()) == Ok::<Seq<char>, FilterError>(Seq::empty()),
{
}

/// One and minus one, as integers and as floats, are one in magnitude;
/// zero and two are not.
pub proof fn unit_magnitudes()
    ensures
        is_unit(Number::Int(1)),
        is_unit(Number::Int(-1i64)),
        is_unit(Number::UInt(1)),
        is_unit(Number::Float(0x3ff0_0000_0000_0000)),
        is_unit(Number::Float(0xbff0_0000_0000_0000)),
        !is_unit(Number::Int(0)),
        !is_unit(Number::Int(2)),
        !is_unit(Number::Float(0)),
        !is_unit(Number::Float(0x4000_0000_0000_0000)),
{
    assert((0x3ff0_0000_0000_0000u64 & 0x7fff_ffff_ffff_ffffu64) == 0x3ff0_0000_0000_0000u64)
        by (bit_vector);
    assert((0xbff0_0000_0000_0000u64 & 0x7fff_ffff_ffff_ffffu64) == 0x3ff0_0000_0000_0000u64)
        by (bit_vector);
    assert((0u64 & 0x7fff_ffff_ffff_ffffu64) == 0u64) by (bit_vector);
    assert((0x4000_0000_0000_0000u64 & 0x7fff_ffff_ffff_ffffu64) == 0x4000_0000_0000_0000u64)
        by (bit_vector);
}

/// A number and its negation are one in magnitude together.
pub proof fn unit_ignores_sign(bits: u64)
    ensures
        is_unit(Number::Float(bits)) == is_unit(Number::Float(bits ^ 0x8000_0000_0000_0000)),
{
    assert((bits & 0x7fff_ffff_ffff_ffffu64) == ((bits ^ 0x8000_0000_0000_0000u64)
        & 0x7fff_ffff_ffff_ffffu64)) by (bit_vector);
}

/// `round` with a method that is none of "common", "ceil" and "floor"
/// fails with an invalid argument that names the method, whatever number
/// it is given.
pub proof fn round_rejects_unknown_method(x: Number, key: String, method: String)
    requires
        key@ == "method"@,
        method_of(method@) is None,
    ensures
        round_spec(Value::Number(x), seq![(key, Value::String(method))]) == Err::<Rounding, FilterError>(FilterError::InvalidArgument { filter: FilterName::Round, param: Param::Method, value: method }),
{
    let args = seq![(key, Value::String(method))];
    reveal_with_fuel(lookup, 2);
    assert(args.drop_last() =~= Seq::<(String, Value)>::empty());
    assert("precision"@ != "method"@) by {
        reveal_strlit("precision");
        reveal_strlit("method");
        assert("precision"@.len() != "method"@.len());
    }
    assert(lookup(args, "precision"@) is None);
    assert(i32_arg_spec(args, FilterName::Round, Param::Precision) == Ok::<Option<i32>, FilterError>(None));
}

/// A string given where a filter takes a number is a type mismatch that
/// names the filter and the primary value.
pub proof fn string_value_is_type_mismatch(s: String, args: Seq<(String, Value)>)
    ensures
        pluralize_spec(Value::String(s), args) == Err::<Seq<char>, FilterError>(
            mismatch(FilterName::Pluralize, Param::Value, Expected::Float, Value::String(s)),
        ),
        round_spec(Value::String(s), args) == Err::<Rounding, FilterError>(
            mismatch(FilterName::Round, Param::Value, Expected::Float, Value::String(s)),
        ),
        filesizeformat_spec(Value::String(s)) == Err::<Seq<char>, FilterError>(
            mismatch(FilterName::FileSizeFormat, Param::Value, Expected::Size, Value::String(s)),
        ),
{
}

/// A negative integer is no size: `filesizeformat` fails on it with
/// `NegativeSize`.
pub proof fn negative_size_rejected(i: i64)
    requires
        i < 0,
    ensures
        filesizeformat_spec(Value::Number(Number::Int(i))) == Err::<Seq<char>, FilterError>(
            FilterError::NegativeSize {
                filter: FilterName::FileSizeFormat,
                got: shape_of(Value::Number(Number::Int(i))),
            },
        ),
{
}

} // verus!
