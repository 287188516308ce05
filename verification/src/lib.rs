//! Nullable Arrow arrays of floating-point values in which NaN is a null.
//!
//! A floating-point value is written as its IEEE 754 bit pattern: `u16` for
//! half precision, `u32` for single and `u64` for double. A build turns each
//! value into one slot of the array, in the order of the input. The slot is
//! null where the value is absent or a NaN; everywhere else it holds the
//! value, bit for bit.
//!
//! The builders and arrays are Arrow's own, each held in the field `inner` of
//! a struct of this crate. What a build promises is stated over the slots of
//! the array; that Arrow's builder keeps the slots it is given is believed,
//! not proved.

pub mod column;
pub mod float;
pub mod json;
mod sealed;
pub mod width16;
pub mod width32;
pub mod width64;

pub use arrow;

pub use crate::column::null_count;
pub use crate::column::num2array;
pub use crate::column::num2array_default;
pub use crate::column::num2builder;
pub use crate::column::opt2array;
pub use crate::column::opt2array_default;
pub use crate::column::opt2builder;
pub use crate::column::opt_column;
pub use crate::column::raw_column;
pub use crate::column::CAPACITY_DEFAULT;
pub use crate::float::is_nan;
pub use crate::float::nan2none;
pub use crate::float::normalize;
pub use crate::float::normalize_opt;
pub use crate::float::opt2none;
pub use crate::float::FloatType;
pub use crate::json::num2opt;
pub use crate::json::val2opt;
pub use crate::width16::num2arr16f;
pub use crate::width16::opt2arr16f;
pub use crate::width16::Array16;
pub use crate::width16::Builder16;
pub use crate::width32::num2arr32f;
pub use crate::width32::opt2arr32f;
pub use crate::width32::Array32;
pub use crate::width32::Builder32;
pub use crate::width64::num2arr64f;
pub use crate::width64::opt2arr64f;
pub use crate::width64::Array64;
pub use crate::width64::Builder64;
