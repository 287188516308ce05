//! Keeps the set of floating-point widths closed.

use arrow::datatypes::Float16Type;
use arrow::datatypes::Float32Type;
use arrow::datatypes::Float64Type;
use vstd::prelude::*;

verus! {

/// Implemented for the three widths and, this module being private, for
/// nothing else.
pub trait Sealed {

}

impl Sealed for Float16Type {

}

impl Sealed for Float32Type {

}

impl Sealed for Float64Type {

}

} // verus!
