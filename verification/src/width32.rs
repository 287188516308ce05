//! Single precision: 32-bit patterns gathered into an Arrow `Float32` array.
//!
//! A pattern has one sign bit, eight exponent bits and twenty-three fraction
//! bits, from the highest bit down.

use arrow::array::PrimitiveArray;
use arrow::array::PrimitiveBuilder;
use arrow::datatypes::ArrowPrimitiveType;
use arrow::datatypes::Float32Type;
use vstd::prelude::*;
use vstd::std_specs::iter::IteratorSpec;

use crate::column::num2array_default;
use crate::column::opt2array_default;
use crate::column::opt_column;
use crate::column::raw_column;
use crate::float::FloatType;

verus! {

/// Arrow's marker of the single-precision width, `arrow::datatypes::Float32Type`.
/// Nothing is claimed of it: it only names the width.
#[verifier::external_type_specification]
#[verifier::external_body]
pub struct ExFloat32Type(Float32Type);

/// Arrow's builder of a single-precision array, `PrimitiveBuilder<Float32Type>`,
/// held in `inner`.
///
/// Verus does not look inside: all that is known of a builder is
/// [`builder32_slots`], and that only through the four functions below, which
/// are believed, not proved.
#[verifier::external_body]
pub struct Builder32 {
    /// Arrow's builder itself.
    pub inner: PrimitiveBuilder<Float32Type>,
}

/// Arrow's single-precision array, `PrimitiveArray<Float32Type>`, held in
/// `inner`.
///
/// Verus does not look inside: all that is known of an array is
/// [`array32_slots`].
#[verifier::external_body]
pub struct Array32 {
    /// Arrow's array itself.
    pub inner: PrimitiveArray<Float32Type>,
}

/// The slots that the builder holds, oldest first: `None` for a slot appended
/// as null, `Some` of the bit pattern for a slot appended as a value.
pub uninterp spec fn builder32_slots(bldr: Builder32) -> Seq<Option<u32>>;

/// The slots of the array. There are `len()` of them; the slot at `i` is `None`
/// where the array says `is_null(i)`, and otherwise `Some` of the bit pattern
/// of `value(i)`. The array's `null_count()` is the number of `None` among
/// them.
pub uninterp spec fn array32_slots(arr: Array32) -> Seq<Option<u32>>;

/// Calls `PrimitiveBuilder::<Float32Type>::with_capacity`, which makes a
/// builder without slots. The call reserves room for `cap` values of four
/// bytes at once, through `Vec::with_capacity`, which panics where that is more
/// than `isize::MAX` bytes: such a `cap` is left out. A builder that runs out
/// of memory ends the process, here and in the appends; that is not modelled.
#[verifier::external_body]
fn builder32_with_capacity(cap: usize) -> (bldr: Builder32)
    requires
        cap * 4 <= isize::MAX,
    ensures
        builder32_slots(bldr) == Seq::<Option<u32>>::empty(),
{
    Builder32 { inner: PrimitiveBuilder::with_capacity(cap) }
}

/// Calls `PrimitiveBuilder::<Float32Type>::append_value` with the value whose
/// bit pattern is `bits`. The builder marks one more slot as valid and pushes
/// the value behind those it holds.
#[verifier::external_body]
fn builder32_append_value(bldr: &mut Builder32, bits: u32)
    ensures
        builder32_slots(*final(bldr)) == builder32_slots(*old(bldr)).push(Some(bits)),
{
    bldr.inner.append_value(<Float32Type as ArrowPrimitiveType>::Native::from_bits(bits))
}

/// Calls `PrimitiveBuilder::<Float32Type>::append_null`, which marks one more
/// slot as null behind those the builder holds.
#[verifier::external_body]
fn builder32_append_null(bldr: &mut Builder32)
    ensures
        builder32_slots(*final(bldr)) == builder32_slots(*old(bldr)).push(None),
{
    bldr.inner.append_null()
}

/// Calls `PrimitiveBuilder::<Float32Type>::finish`, which moves the values and
/// the validity marks into a new array, slot by slot, and resets the builder.
#[verifier::external_body]
fn builder32_finish(bldr: &mut Builder32) -> (arr: Array32)
    ensures
        array32_slots(arr) == builder32_slots(*old(bldr)),
        builder32_slots(*final(bldr)) == Seq::<Option<u32>>::empty(),
{
    Array32 { inner: bldr.inner.finish() }
}

/// The eight exponent bits of a single-precision pattern.
pub open spec fn exponent32(bits: u32) -> u32 {
    (bits / 0x80_0000) % 0x100
}

/// The twenty-three fraction bits of a single-precision pattern.
pub open spec fn fraction32(bits: u32) -> u32 {
    bits % 0x80_0000
}

/// A single-precision pattern is a NaN where all its exponent bits are set and
/// its fraction is not zero. The sign bit has no part in it.
pub open spec fn nan32(bits: u32) -> bool {
    exponent32(bits) == 0xff && fraction32(bits) != 0
}

/// Whether a pattern is a NaN does not depend on its sign bit.
pub proof fn nan32_ignores_sign(bits: u32)
    ensures
        nan32(bits ^ 0x8000_0000) == nan32(bits),
{
    assert(((bits ^ 0x8000_0000) / 0x80_0000) % 0x100
        == (bits / 0x80_0000) % 0x100) by (bit_vector);
    assert((bits ^ 0x8000_0000) % 0x80_0000 == bits % 0x80_0000) by (bit_vector);
}

/// A pattern is a NaN exactly where, its sign bit cleared, it is greater than
/// the pattern of positive infinity.
pub proof fn nan32_by_mask(bits: u32)
    ensures
        nan32(bits) == ((bits & 0x7fff_ffff) > 0x7f80_0000),
{
    assert(((bits & 0x7fff_ffff) > 0x7f80_0000) == (
        (bits / 0x80_0000) % 0x100 == 0xff && bits % 0x80_0000 != 0
    )) by (bit_vector);
}

/// The NaNs are the patterns that lie, the sign bit left aside, above positive
/// infinity. Zeros, subnormal and normal values and the infinities lie at or
/// below it.
pub proof fn nan32_lies_above_infinity(bits: u32)
    ensures
        nan32(bits) <==> (if bits >= 0x8000_0000 {
            bits - 0x8000_0000
        } else {
            bits as int
        }) > 0x7f80_0000,
{
    nan32_by_mask(bits);
    assert(bits >= 0x8000_0000 ==> (bits & 0x7fff_ffff) == bits - 0x8000_0000) by (bit_vector);
    assert(bits < 0x8000_0000 ==> (bits & 0x7fff_ffff) == bits) by (bit_vector);
}

impl FloatType for Float32Type {
    type Native = u32;

    type Builder = Builder32;

    type Array = Array32;

    open spec fn native_size() -> nat {
        4
    }

    open spec fn nan(val: u32) -> bool {
        nan32(val)
    }

    open spec fn pending(bldr: &Builder32) -> Seq<Option<u32>> {
        builder32_slots(*bldr)
    }

    open spec fn slots(arr: &Array32) -> Seq<Option<u32>> {
        array32_slots(*arr)
    }

    proof fn native_size_bounds() {
    }

    fn is_nan(val: u32) -> (nan: bool) {
        proof {
            nan32_by_mask(val);
        }
        (val & 0x7fff_ffff) > 0x7f80_0000
    }

    fn with_capacity(cap: usize) -> (bldr: Builder32) {
        builder32_with_capacity(cap)
    }

    fn append_value(bldr: &mut Builder32, val: u32) {
        builder32_append_value(bldr, val)
    }

    fn append_null(bldr: &mut Builder32) {
        builder32_append_null(bldr)
    }

    fn finish(bldr: &mut Builder32) -> (arr: Array32) {
        builder32_finish(bldr)
    }
}

/// Builds the single-precision array of the raw values that `num` yields, in
/// their order: a null slot for each NaN, and for every other value a slot that
/// holds it. `num` has to have an end, as for [`num2array_default`].
pub fn num2arr32f<I>(num: I) -> (arr: Array32)
    where
        I: Iterator<Item = u32>,
    requires
        num.obeys_prophetic_iter_laws(),
        num.decrease() is Some,
    ensures
        array32_slots(arr) == raw_column::<Float32Type>(num.remaining()),
{
    num2array_default::<I, Float32Type>(num)
}

/// Builds the single-precision array of the optional values that `num` yields,
/// in their order: a null slot for each absent value and for each NaN, and for
/// every other value a slot that holds it. `num` has to have an end, as for
/// [`opt2array_default`].
pub fn opt2arr32f<I>(num: I) -> (arr: Array32)
    where
        I: Iterator<Item = Option<u32>>,
    requires
        num.obeys_prophetic_iter_laws(),
        num.decrease() is Some,
    ensures
        array32_slots(arr) == opt_column::<Float32Type>(num.remaining()),
{
    opt2array_default::<I, Float32Type>(num)
}

} // verus!
