//! Double precision: 64-bit patterns gathered into an Arrow `Float64` array.
//!
//! A pattern has one sign bit, eleven exponent bits and fifty-two fraction
//! bits, from the highest bit down.

use arrow::array::PrimitiveArray;
use arrow::array::PrimitiveBuilder;
use arrow::datatypes::ArrowPrimitiveType;
use arrow::datatypes::Float64Type;
use vstd::prelude::*;
use vstd::std_specs::iter::IteratorSpec;

use crate::column::num2array_default;
use crate::column::opt2array_default;
use crate::column::opt_column;
use crate::column::raw_column;
use crate::float::FloatType;

verus! {

/// Arrow's marker of the double-precision width, `arrow::datatypes::Float64Type`.
/// Nothing is claimed of it: it only names the width.
#[verifier::external_type_specification]
#[verifier::external_body]
pub struct ExFloat64Type(Float64Type);

/// Arrow's builder of a double-precision array, `PrimitiveBuilder<Float64Type>`,
/// held in `inner`.
///
/// Verus does not look inside: all that is known of a builder is
/// [`builder64_slots`], and that only through the four functions below, which
/// are believed, not proved.
#[verifier::external_body]
pub struct Builder64 {
    /// Arrow's builder itself.
    pub inner: PrimitiveBuilder<Float64Type>,
}

/// Arrow's double-precision array, `PrimitiveArray<Float64Type>`, held in
/// `inner`.
///
/// Verus does not look inside: all that is known of an array is
/// [`array64_slots`].
#[verifier::external_body]
pub struct Array64 {
    /// Arrow's array itself.
    pub inner: PrimitiveArray<Float64Type>,
}

/// The slots that the builder holds, oldest first: `None` for a slot appended
/// as null, `Some` of the bit pattern for a slot appended as a value.
pub uninterp spec fn builder64_slots(bldr: Builder64) -> Seq<Option<u64>>;

/// The slots of the array. There are `len()` of them; the slot at `i` is `None`
/// where the array says `is_null(i)`, and otherwise `Some` of the bit pattern
/// of `value(i)`. The array's `null_count()` is the number of `None` among
/// them.
pub uninterp spec fn array64_slots(arr: Array64) -> Seq<Option<u64>>;

/// Calls `PrimitiveBuilder::<Float64Type>::with_capacity`, which makes a
/// builder without slots. The call reserves room for `cap` values of eight
/// bytes at once, through `Vec::with_capacity`, which panics where that is more
/// than `isize::MAX` bytes: such a `cap` is left out. A builder that runs out
/// of memory ends the process, here and in the appends; that is not modelled.
#[verifier::external_body]
fn builder64_with_capacity(cap: usize) -> (bldr: Builder64)
    requires
        cap * 8 <= isize::MAX,
    ensures
        builder64_slots(bldr) == Seq::<Option<u64>>::empty(),
{
    Builder64 { inner: PrimitiveBuilder::with_capacity(cap) }
}

/// Calls `PrimitiveBuilder::<Float64Type>::append_value` with the value whose
/// bit pattern is `bits`. The builder marks one more slot as valid and pushes
/// the value behind those it holds.
#[verifier::external_body]
fn builder64_append_value(bldr: &mut Builder64, bits: u64)
    ensures
        builder64_slots(*final(bldr)) == builder64_slots(*old(bldr)).push(Some(bits)),
{
    bldr.inner.append_value(<Float64Type as ArrowPrimitiveType>::Native::from_bits(bits))
}

/// Calls `PrimitiveBuilder::<Float64Type>::append_null`, which marks one more
/// slot as null behind those the builder holds.
#[verifier::external_body]
fn builder64_append_null(bldr: &mut Builder64)
    ensures
        builder64_slots(*final(bldr)) == builder64_slots(*old(bldr)).push(None),
{
    bldr.inner.append_null()
}

/// Calls `PrimitiveBuilder::<Float64Type>::finish`, which moves the values and
/// the validity marks into a new array, slot by slot, and resets the builder.
#[verifier::external_body]
fn builder64_finish(bldr: &mut Builder64) -> (arr: Array64)
    ensures
        array64_slots(arr) == builder64_slots(*old(bldr)),
        builder64_slots(*final(bldr)) == Seq::<Option<u64>>::empty(),
{
    Array64 { inner: bldr.inner.finish() }
}

/// The eleven exponent bits of a double-precision pattern.
pub open spec fn exponent64(bits: u64) -> u64 {
    (bits / 0x10_0000_0000_0000) % 0x800
}

/// The fifty-two fraction bits of a double-precision pattern.
pub open spec fn fraction64(bits: u64) -> u64 {
    bits % 0x10_0000_0000_0000
}

/// A double-precision pattern is a NaN where all its exponent bits are set and
/// its fraction is not zero. The sign bit has no part in it.
pub open spec fn nan64(bits: u64) -> bool {
    exponent64(bits) == 0x7ff && fraction64(bits) != 0
}

/// Whether a pattern is a NaN does not depend on its sign bit.
pub proof fn nan64_ignores_sign(bits: u64)
    ensures
        nan64(bits ^ 0x8000_0000_0000_0000) == nan64(bits),
{
    assert(((bits ^ 0x8000_0000_0000_0000) / 0x10_0000_0000_0000) % 0x800
        == (bits / 0x10_0000_0000_0000) % 0x800) by (bit_vector);
    assert((bits ^ 0x8000_0000_0000_0000) % 0x10_0000_0000_0000 == bits % 0x10_0000_0000_0000)
        by (bit_vector);
}

/// A pattern is a NaN exactly where, its sign bit cleared, it is greater than
/// the pattern of positive infinity.
pub proof fn nan64_by_mask(bits: u64)
    ensures
        nan64(bits) == ((bits & 0x7fff_ffff_ffff_ffff) > 0x7ff0_0000_0000_0000),
{
    assert(((bits & 0x7fff_ffff_ffff_ffff) > 0x7ff0_0000_0000_0000) == (
        (bits / 0x10_0000_0000_0000) % 0x800 == 0x7ff && bits % 0x10_0000_0000_0000 != 0
    )) by (bit_vector);
}

/// The NaNs are the patterns that lie, the sign bit left aside, above positive
/// infinity. Zeros, subnormal and normal values and the infinities lie at or
/// below it.
pub proof fn nan64_lies_above_infinity(bits: u64)
    ensures
        nan64(bits) <==> (if bits >= 0x8000_0000_0000_0000 {
            bits - 0x8000_0000_0000_0000
        } else {
            bits as int
        }) > 0x7ff0_0000_0000_0000,
{
    nan64_by_mask(bits);
    assert(bits >= 0x8000_0000_0000_0000 ==> (bits & 0x7fff_ffff_ffff_ffff) == bits
        - 0x8000_0000_0000_0000) by (bit_vector);
    assert(bits < 0x8000_0000_0000_0000 ==> (bits & 0x7fff_ffff_ffff_ffff) == bits)
        by (bit_vector);
}

impl FloatType for Float64Type {
    type Native = u64;

    type Builder = Builder64;

    type Array = Array64;

    open spec fn native_size() -> nat {
        8
    }

    open spec fn nan(val: u64) -> bool {
        nan64(val)
    }

    open spec fn pending(bldr: &Builder64) -> Seq<Option<u64>> {
        builder64_slots(*bldr)
    }

    open spec fn slots(arr: &Array64) -> Seq<Option<u64>> {
        array64_slots(*arr)
    }

    proof fn native_size_bounds() {
    }

    fn is_nan(val: u64) -> (nan: bool) {
        proof {
            nan64_by_mask(val);
        }
        (val & 0x7fff_ffff_ffff_ffff) > 0x7ff0_0000_0000_0000
    }

    fn with_capacity(cap: usize) -> (bldr: Builder64) {
        builder64_with_capacity(cap)
    }

    fn append_value(bldr: &mut Builder64, val: u64) {
        builder64_append_value(bldr, val)
    }

    fn append_null(bldr: &mut Builder64) {
        builder64_append_null(bldr)
    }

    fn finish(bldr: &mut Builder64) -> (arr: Array64) {
        builder64_finish(bldr)
    }
}

/// Builds the double-precision array of the raw values that `num` yields, in
/// their order: a null slot for each NaN, and for every other value a slot that
/// holds it. `num` has to have an end, as for [`num2array_default`].
pub fn num2arr64f<I>(num: I) -> (arr: Array64)
    where
        I: Iterator<Item = u64>,
    requires
        num.obeys_prophetic_iter_laws(),
        num.decrease() is Some,
    ensures
        array64_slots(arr) == raw_column::<Float64Type>(num.remaining()),
{
    num2array_default::<I, Float64Type>(num)
}

/// Builds the double-precision array of the optional values that `num` yields,
/// in their order: a null slot for each absent value and for each NaN, and for
/// every other value a slot that holds it. `num` has to have an end, as for
/// [`opt2array_default`].
pub fn opt2arr64f<I>(num: I) -> (arr: Array64)
    where
        I: Iterator<Item = Option<u64>>,
    requires
        num.obeys_prophetic_iter_laws(),
        num.decrease() is Some,
    ensures
        array64_slots(arr) == opt_column::<Float64Type>(num.remaining()),
{
    opt2array_default::<I, Float64Type>(num)
}

} // verus!
