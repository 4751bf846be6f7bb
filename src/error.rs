use vstd::prelude::*;

use crate::value::{Shape, Value, shape_of};

verus! {

/// The filters of this library, as errors name them.
#[derive(Debug, Clone, Copy, PartialEq, Eq)]
pub enum FilterName {
    Pluralize,
    Round,
    FileSizeFormat,
}

/// The inputs of a filter: the primary value and the named arguments.
#[derive(Debug, Clone, Copy, PartialEq, Eq)]
pub enum Param {
    Value,
    Plural,
    Singular,
    Method,
    Precision,
}

/// The primitive type that a filter expected of an input.
#[derive(Debug, Clone, Copy, PartialEq, Eq)]
pub enum Expected {
    Float,
    Integer,
    Str,
    Size,
}

/// Why a filter call failed.
#[derive(Debug, Clone, PartialEq)]
pub enum FilterError {
    /// An input did not have the variant that the filter takes.
    TypeMismatch { filter: FilterName, param: Param, expected: Expected, got: Shape },
    /// An argument had the right type but a value that the filter does not take.
    InvalidArgument { filter: FilterName, param: Param, value: String },
    /// A number that cannot stand for a size: negative, fractional or too large.
    NegativeSize { filter: FilterName, got: Shape },
}

/// The text by which a filter is called.
pub open spec fn filter_text(f: FilterName) -> Seq<char> {
    match f {
        FilterName::Pluralize => "pluralize"@,
        FilterName::Round => "round"@,
        FilterName::FileSizeFormat => "filesizeformat"@,
    }
}

/// The text that names an input: "value" for the primary one, else the
/// argument's key.
pub open spec fn param_text(p: Param) -> Seq<char> {
    match p {
        Param::Value => "value"@,
        Param::Plural => "plural"@,
        Param::Singular => "singular"@,
        Param::Method => "method"@,
        Param::Precision => "precision"@,
    }
}

impl FilterName {
    /// The text by which this filter is called.
    pub fn text(&self) -> (r: &'static str)
        ensures
            r@ == filter_text(*self),
    {
        proof {
            reveal_strlit("pluralize");
            reveal_strlit("round");
            reveal_strlit("filesizeformat");
        }
        match self {
            FilterName::Pluralize => "pluralize",
            FilterName::Round => "round",
            FilterName::FileSizeFormat => "filesizeformat",
        }
    }
}

impl Param {
    /// The text that names this input.
    pub fn text(&self) -> (r: &'static str)
        ensures
            r@ == param_text(*self),
    {
        proof {
            reveal_strlit("value");
            reveal_strlit("plural");
            reveal_strlit("singular");
            reveal_strlit("method");
            reveal_strlit("precision");
        }
        match self {
            Param::Value => "value",
            Param::Plural => "plural",
            Param::Singular => "singular",
            Param::Method => "method",
            Param::Precision => "precision",
        }
    }
}

/// The error for an input `v` that is not of the `expected` type.
pub open spec fn mismatch(filter: FilterName, param: Param, expected: Expected, v: Value) -> FilterError {
    FilterError::TypeMismatch { filter, param, expected, got: shape_of(v) }
}

} // verus!
