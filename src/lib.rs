use vstd::prelude::*;

pub mod coerce;
pub mod error;
pub mod laws;
pub mod number;
pub mod value;

pub use error::{Expected, FilterError, FilterName, Param};
pub use number::{RoundMethod, Rounding, filesizeformat, pluralize, round_args};
pub use value::{Args, Number, Shape, Value};

verus! {

} // verus!
