//! The floating-point widths, and the rule that turns NaN into a missing value.
//!
//! A floating-point value is handled as its IEEE 754 bit pattern, held in the
//! unsigned integer of the same width. Nothing here does arithmetic on a value:
//! it is either passed on, bit for bit, or dropped.

use vstd::prelude::*;

use crate::sealed::Sealed;

verus! {

/// A floating-point width whose values can be gathered into a nullable array.
///
/// An implementation names the integer that holds one bit pattern, the builder
/// that gathers the slots of an array and the array that the builder is
/// finished into. A slot is `None` where it is null and `Some` of the bit
/// pattern where it holds a value.
///
/// There are three widths, half, single and double precision, and no others:
/// the trait cannot be implemented outside this crate.
pub trait FloatType: Sealed {
    /// The bit pattern of one value.
    type Native: Copy;

    /// The growable accumulator of slots.
    type Builder;

    /// The finished, immutable array.
    type Array;

    /// The number of bytes that one value takes.
    spec fn native_size() -> nat;

    /// Whether the bit pattern encodes a NaN: every exponent bit set and a
    /// fraction other than zero, under either sign.
    spec fn nan(val: Self::Native) -> bool;

    /// The slots appended to the builder since it was made or last finished,
    /// oldest first.
    spec fn pending(bldr: &Self::Builder) -> Seq<Option<Self::Native>>;

    /// The slots of the array, by index.
    spec fn slots(arr: &Self::Array) -> Seq<Option<Self::Native>>;

    /// A value takes at least one byte and at most eight.
    proof fn native_size_bounds()
        ensures
            1 <= Self::native_size() <= 8,
    ;

    /// Tells whether `val` encodes a NaN.
    fn is_nan(val: Self::Native) -> (nan: bool)
        ensures
            nan == Self::nan(val),
    ;

    /// Makes an empty builder with room for `cap` slots. The room is a hint:
    /// the builder grows past it. It must not exceed `isize::MAX` bytes of
    /// values.
    fn with_capacity(cap: usize) -> (bldr: Self::Builder)
        requires
            cap * Self::native_size() <= isize::MAX,
        ensures
            Self::pending(&bldr) == Seq::<Option<Self::Native>>::empty(),
    ;

    /// Appends a slot that holds `val`.
    fn append_value(bldr: &mut Self::Builder, val: Self::Native)
        ensures
            Self::pending(final(bldr)) == Self::pending(old(bldr)).push(Some(val)),
    ;

    /// Appends a null slot.
    fn append_null(bldr: &mut Self::Builder)
        ensures
            Self::pending(final(bldr)) == Self::pending(old(bldr)).push(None),
    ;

    /// Turns the pending slots into an array, in the order in which they were
    /// appended, and leaves the builder empty.
    fn finish(bldr: &mut Self::Builder) -> (arr: Self::Array)
        ensures
            Self::slots(&arr) == Self::pending(old(bldr)),
            Self::pending(final(bldr)) == Seq::<Option<Self::Native>>::empty(),
    ;
}

/// The slot that a raw value becomes: null for a NaN, the value itself
/// otherwise. Infinities, zeros and subnormal values are values like any other.
pub open spec fn normalize<N: FloatType>(val: N::Native) -> Option<N::Native> {
    if N::nan(val) {
        None
    } else {
        Some(val)
    }
}

/// The slot that an optional value becomes: null where it is absent, and what
/// [`normalize`] gives where it is present.
pub open spec fn normalize_opt<N: FloatType>(val: Option<N::Native>) -> Option<N::Native> {
    match val {
        None => None,
        Some(v) => normalize::<N>(v),
    }
}

/// Tells whether `num` encodes a NaN of the width `N`.
pub fn is_nan<N>(num: N::Native) -> (nan: bool)
    where
        N: FloatType,
    ensures
        nan == N::nan(num),
{
    N::is_nan(num)
}

/// Returns `num` unchanged unless it is a NaN, and `None` if it is.
pub fn nan2none<N>(num: N::Native) -> (o: Option<N::Native>)
    where
        N: FloatType,
    ensures
        o == normalize::<N>(num),
{
    let nan: bool = is_nan::<N>(num);
    if nan {
        None
    } else {
        Some(num)
    }
}

/// Returns `num` unchanged unless it holds a NaN, and `None` if it does. An
/// absent value stays absent.
pub fn opt2none<N>(num: Option<N::Native>) -> (o: Option<N::Native>)
    where
        N: FloatType,
    ensures
        o == normalize_opt::<N>(num),
{
    match num {
        None => None,
        Some(v) => nan2none::<N>(v),
    }
}

/// A normalized value is never a NaN.
pub proof fn normalized_is_not_nan<N: FloatType>(val: Option<N::Native>)
    ensures
        (match normalize_opt::<N>(val) {
            None => true,
            Some(v) => !N::nan(v),
        }),
{
}

/// Every value that is not a NaN is kept as it is, and every NaN is dropped.
pub proof fn normalize_drops_exactly_nan<N: FloatType>(val: N::Native)
    ensures
        normalize::<N>(val) is None <==> N::nan(val),
        !N::nan(val) ==> normalize::<N>(val) == Some(val),
{
}

/// An absent value is absent after normalization, and a present value only
/// becomes absent where it is a NaN.
pub proof fn absent_stays_absent<N: FloatType>(val: Option<N::Native>)
    ensures
        val is None ==> normalize_opt::<N>(val) is None,
        normalize_opt::<N>(val) is Some ==> normalize_opt::<N>(val) == val,
{
}

/// Normalizing a second time changes nothing.
pub proof fn normalize_idempotent<N: FloatType>(val: Option<N::Native>)
    ensures
        normalize_opt::<N>(normalize_opt::<N>(val)) == normalize_opt::<N>(val),
{
}

/// Normalizing a raw value and then normalizing the result as an optional value
/// gives what the first step gave.
pub proof fn normalize_raw_idempotent<N: FloatType>(val: N::Native)
    ensures
        normalize_opt::<N>(normalize::<N>(val)) == normalize::<N>(val),
{
}

} // verus!
