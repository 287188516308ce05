//! Half precision: 16-bit patterns gathered into an Arrow `Float16` array.
//!
//! A pattern has one sign bit, five exponent bits and ten fraction bits, from
//! the highest bit down.

use arrow::array::PrimitiveArray;
use arrow::array::PrimitiveBuilder;
use arrow::datatypes::ArrowPrimitiveType;
use arrow::datatypes::Float16Type;
use vstd::prelude::*;
use vstd::std_specs::iter::IteratorSpec;

use crate::column::num2array_default;
use crate::column::opt2array_default;
use crate::column::opt_column;
use crate::column::raw_column;
use crate::float::FloatType;

verus! {

/// Arrow's marker of the half-precision width, `arrow::datatypes::Float16Type`.
/// Nothing is claimed of it: it only names the width.
#[verifier::external_type_specification]
#[verifier::external_body]
pub struct ExFloat16Type(Float16Type);

/// Arrow's builder of a half-precision array, `PrimitiveBuilder<Float16Type>`,
/// held in `inner`.
///
/// Verus does not look inside: all that is known of a builder is
/// [`builder16_slots`], and that only through the four functions below, which
/// are believed, not proved.
#[verifier::external_body]
pub struct Builder16 {
    /// Arrow's builder itself.
    pub inner: PrimitiveBuilder<Float16Type>,
}

/// Arrow's half-precision array, `PrimitiveArray<Float16Type>`, held in
/// `inner`.
///
/// Verus does not look inside: all that is known of an array is
/// [`array16_slots`].
#[verifier::external_body]
pub struct Array16 {
    /// Arrow's array itself.
    pub inner: PrimitiveArray<Float16Type>,
}

/// The slots that the builder holds, oldest first: `None` for a slot appended
/// as null, `Some` of the bit pattern for a slot appended as a value.
pub uninterp spec fn builder16_slots(bldr: Builder16) -> Seq<Option<u16>>;

/// The slots of the array. There are `len()` of them; the slot at `i` is `None`
/// where the array says `is_null(i)`, and otherwise `Some` of the bit pattern
/// of `value(i)`. The array's `null_count()` is the number of `None` among
/// them.
pub uninterp spec fn array16_slots(arr: Array16) -> Seq<Option<u16>>;

/// Calls `PrimitiveBuilder::<Float16Type>::with_capacity`, which makes a
/// builder without slots. The call reserves room for `cap` values of two
/// bytes at once, through `Vec::with_capacity`, which panics where that is more
/// than `isize::MAX` bytes: such a `cap` is left out. A builder that runs out
/// of memory ends the process, here and in the appends; that is not modelled.
#[verifier::external_body]
fn builder16_with_capacity(cap: usize) -> (bldr: Builder16)
    requires
        cap * 2 <= isize::MAX,
    ensures
        builder16_slots(bldr) == Seq::<Option<u16>>::empty(),
{
    Builder16 { inner: PrimitiveBuilder::with_capacity(cap) }
}

/// Calls `PrimitiveBuilder::<Float16Type>::append_value` with the value whose
/// bit pattern is `bits`. The builder marks one more slot as valid and pushes
/// the value behind those it holds.
#[verifier::external_body]
fn builder16_append_value(bldr: &mut Builder16, bits: u16)
    ensures
        builder16_slots(*final(bldr)) == builder16_slots(*old(bldr)).push(Some(bits)),
{
    bldr.inner.append_value(<Float16Type as ArrowPrimitiveType>::Native::from_bits(bits))
}

/// Calls `PrimitiveBuilder::<Float16Type>::append_null`, which marks one more
/// slot as null behind those the builder holds.
#[verifier::external_body]
fn builder16_append_null(bldr: &mut Builder16)
    ensures
        builder16_slots(*final(bldr)) == builder16_slots(*old(bldr)).push(None),
{
    bldr.inner.append_null()
}

/// Calls `PrimitiveBuilder::<Float16Type>::finish`, which moves the values and
/// the validity marks into a new array, slot by slot, and resets the builder.
#[verifier::external_body]
fn builder16_finish(bldr: &mut Builder16) -> (arr: Array16)
    ensures
        array16_slots(arr) == builder16_slots(*old(bldr)),
        builder16_slots(*final(bldr)) == Seq::<Option<u16>>::empty(),
{
    Array16 { inner: bldr.inner.finish() }
}

/// The five exponent bits of a half-precision pattern.
pub open spec fn exponent16(bits: u16) -> u16 {
    (bits / 0x400) % 0x20
}

/// The ten fraction bits of a half-precision pattern.
pub open spec fn fraction16(bits: u16) -> u16 {
    bits % 0x400
}

/// A half-precision pattern is a NaN where all its exponent bits are set and
/// its fraction is not zero. The sign bit has no part in it.
pub open spec fn nan16(bits: u16) -> bool {
    exponent16(bits) == 0x1f && fraction16(bits) != 0
}

/// Whether a pattern is a NaN does not depend on its sign bit.
pub proof fn nan16_ignores_sign(bits: u16)
    ensures
        nan16(bits ^ 0x8000) == nan16(bits),
{
    assert(((bits ^ 0x8000) / 0x400) % 0x20 == (bits / 0x400) % 0x20) by (bit_vector);
    assert((bits ^ 0x8000) % 0x400 == bits % 0x400) by (bit_vector);
}

/// A pattern is a NaN exactly where, its sign bit cleared, it is greater than
/// the pattern of positive infinity.
pub proof fn nan16_by_mask(bits: u16)
    ensures
        nan16(bits) == ((bits & 0x7fff) > 0x7c00),
{
    assert(((bits & 0x7fff) > 0x7c00) == (
        (bits / 0x400) % 0x20 == 0x1f && bits % 0x400 != 0
    )) by (bit_vector);
}

/// The NaNs are the patterns that lie, the sign bit left aside, above positive
/// infinity. Zeros, subnormal and normal values and the infinities lie at or
/// below it.
pub proof fn nan16_lies_above_infinity(bits: u16)
    ensures
        nan16(bits) <==> (if bits >= 0x8000 {
            bits - 0x8000
        } else {
            bits as int
        }) > 0x7c00,
{
    nan16_by_mask(bits);
    assert(bits >= 0x8000 ==> (bits & 0x7fff) == bits - 0x8000) by (bit_vector);
    assert(bits < 0x8000 ==> (bits & 0x7fff) == bits) by (bit_vector);
}

impl FloatType for Float16Type {
    type Native = u16;

    type Builder = Builder16;

    type Array = Array16;

    open spec fn native_size() -> nat {
        2
    }

    open spec fn nan(val: u16) -> bool {
        nan16(val)
    }

    open spec fn pending(bldr: &Builder16) -> Seq<Option<u16>> {
        builder16_slots(*bldr)
    }

    open spec fn slots(arr: &Array16) -> Seq<Option<u16>> {
        array16_slots(*arr)
    }

    proof fn native_size_bounds() {
    }

    fn is_nan(val: u16) -> (nan: bool) {
        proof {
            nan16_by_mask(val);
        }
        (val & 0x7fff) > 0x7c00
    }

    fn with_capacity(cap: usize) -> (bldr: Builder16) {
        builder16_with_capacity(cap)
    }

    fn append_value(bldr: &mut Builder16, val: u16) {
        builder16_append_value(bldr, val)
    }

    fn append_null(bldr: &mut Builder16) {
        builder16_append_null(bldr)
    }

    fn finish(bldr: &mut Builder16) -> (arr: Array16) {
        builder16_finish(bldr)
    }
}

/// Builds the half-precision array of the raw values that `num` yields, in
/// their order: a null slot for each NaN, and for every other value a slot that
/// holds it. `num` has to have an end, as for [`num2array_default`].
pub fn num2arr16f<I>(num: I) -> (arr: Array16)
    where
        I: Iterator<Item = u16>,
    requires
        num.obeys_prophetic_iter_laws(),
        num.decrease() is Some,
    ensures
        array16_slots(arr) == raw_column::<Float16Type>(num.remaining()),
{
    num2array_default::<I, Float16Type>(num)
}

/// Builds the half-precision array of the optional values that `num` yields,
/// in their order: a null slot for each absent value and for each NaN, and for
/// every other value a slot that holds it. `num` has to have an end, as for
/// [`opt2array_default`].
pub fn opt2arr16f<I>(num: I) -> (arr: Array16)
    where
        I: Iterator<Item = Option<u16>>,
    requires
        num.obeys_prophetic_iter_laws(),
        num.decrease() is Some,
    ensures
        array16_slots(arr) == opt_column::<Float16Type>(num.remaining()),
{
    opt2array_default::<I, Float16Type>(num)
}

} // verus!
