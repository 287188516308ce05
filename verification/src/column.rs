//! Building a nullable array from a sequence of values, one slot for each value
//! and in the same order, with a null wherever the value is absent or a NaN.

use vstd::prelude::*;
use vstd::std_specs::iter::IteratorSpec;

use crate::float::nan2none;
use crate::float::normalize;
use crate::float::normalize_opt;
use crate::float::opt2none;
use crate::float::FloatType;

verus! {

/// The room that a builder is made with where the caller names none.
pub const CAPACITY_DEFAULT: usize = 1024;

/// The slots that a sequence of raw values becomes.
pub open spec fn raw_column<T: FloatType>(num: Seq<T::Native>) -> Seq<Option<T::Native>> {
    Seq::new(num.len(), |i: int| normalize::<T>(num[i]))
}

/// The slots that a sequence of optional values becomes.
pub open spec fn opt_column<T: FloatType>(num: Seq<Option<T::Native>>) -> Seq<Option<T::Native>> {
    Seq::new(num.len(), |i: int| normalize_opt::<T>(num[i]))
}

/// The number of null slots.
pub open spec fn null_count<V>(slots: Seq<Option<V>>) -> nat {
    slots.filter(|slot: Option<V>| slot is None).len()
}

/// Appends one raw value to the builder: a null slot where it is a NaN, a slot
/// that holds it otherwise.
pub fn num2builder<T>(num: T::Native, bldr: &mut T::Builder)
    where
        T: FloatType,
    ensures
        T::pending(final(bldr)) == T::pending(old(bldr)).push(normalize::<T>(num)),
{
    let o: Option<T::Native> = nan2none::<T>(num);
    match o {
        None => T::append_null(bldr),
        Some(i) => T::append_value(bldr, i),
    }
}

/// Appends one optional value to the builder: a null slot where it is absent or
/// a NaN, a slot that holds it otherwise.
pub fn opt2builder<T>(num: Option<T::Native>, bldr: &mut T::Builder)
    where
        T: FloatType,
    ensures
        T::pending(final(bldr)) == T::pending(old(bldr)).push(normalize_opt::<T>(num)),
{
    let o: Option<T::Native> = opt2none::<T>(num);
    match o {
        None => T::append_null(bldr),
        Some(i) => T::append_value(bldr, i),
    }
}

/// Builds the array of the raw values that `num` yields, in their order, in a
/// builder made with room for `cap` slots. The room is a hint and has no part
/// in the result.
///
/// `num` is walked once, to its end. It has to have an end: it keeps the laws
/// of iteration and carries a measure that falls with every value it yields.
pub fn num2array<I, T>(num: I, cap: usize) -> (arr: T::Array)
    where
        T: FloatType,
        I: Iterator<Item = T::Native>,
    requires
        cap * T::native_size() <= isize::MAX,
        num.obeys_prophetic_iter_laws(),
        num.decrease() is Some,
    ensures
        T::slots(&arr) == raw_column::<T>(num.remaining()),
{
    let mut bldr = T::with_capacity(cap);
    let mut rest = num;
    let ghost mut done: Seq<T::Native> = Seq::empty();
    loop
        invariant
            rest.obeys_prophetic_iter_laws(),
            rest.decrease() is Some,
            num.remaining() == done + rest.remaining(),
            T::pending(&bldr) == raw_column::<T>(done),
        ensures
            T::pending(&bldr) == raw_column::<T>(num.remaining()),
        decreases rest.decrease()->0,
    {
        match rest.next() {
            Some(n) => {
                num2builder::<T>(n, &mut bldr);
                proof {
                    assert(num.remaining() =~= done.push(n) + rest.remaining());
                    assert(T::pending(&bldr) =~= raw_column::<T>(done.push(n)));
                    done = done.push(n);
                }
            },
            None => {
                assert(num.remaining() =~= done);
                break ;
            },
        }
    }
    T::finish(&mut bldr)
}

/// Builds the array of the optional values that `num` yields, in their order,
/// in a builder made with room for `cap` slots. The room is a hint and has no
/// part in the result.
///
/// `num` is walked once, to its end. It has to have an end: it keeps the laws
/// of iteration and carries a measure that falls with every value it yields.
pub fn opt2array<I, T>(num: I, cap: usize) -> (arr: T::Array)
    where
        T: FloatType,
        I: Iterator<Item = Option<T::Native>>,
    requires
        cap * T::native_size() <= isize::MAX,
        num.obeys_prophetic_iter_laws(),
        num.decrease() is Some,
    ensures
        T::slots(&arr) == opt_column::<T>(num.remaining()),
{
    let mut bldr = T::with_capacity(cap);
    let mut rest = num;
    let ghost mut done: Seq<Option<T::Native>> = Seq::empty();
    loop
        invariant
            rest.obeys_prophetic_iter_laws(),
            rest.decrease() is Some,
            num.remaining() == done + rest.remaining(),
            T::pending(&bldr) == opt_column::<T>(done),
        ensures
            T::pending(&bldr) == opt_column::<T>(num.remaining()),
        decreases rest.decrease()->0,
    {
        match rest.next() {
            Some(n) => {
                opt2builder::<T>(n, &mut bldr);
                proof {
                    assert(num.remaining() =~= done.push(n) + rest.remaining());
                    assert(T::pending(&bldr) =~= opt_column::<T>(done.push(n)));
                    done = done.push(n);
                }
            },
            None => {
                assert(num.remaining() =~= done);
                break ;
            },
        }
    }
    T::finish(&mut bldr)
}

/// Builds the array of the raw values that `num` yields in a builder of the
/// default room, [`CAPACITY_DEFAULT`].
pub fn num2array_default<I, T>(num: I) -> (arr: T::Array)
    where
        T: FloatType,
        I: Iterator<Item = T::Native>,
    requires
        num.obeys_prophetic_iter_laws(),
        num.decrease() is Some,
    ensures
        T::slots(&arr) == raw_column::<T>(num.remaining()),
{
    proof {
        T::native_size_bounds();
    }
    num2array::<I, T>(num, CAPACITY_DEFAULT)
}

/// Builds the array of the optional values that `num` yields in a builder of
/// the default room, [`CAPACITY_DEFAULT`].
pub fn opt2array_default<I, T>(num: I) -> (arr: T::Array)
    where
        T: FloatType,
        I: Iterator<Item = Option<T::Native>>,
    requires
        num.obeys_prophetic_iter_laws(),
        num.decrease() is Some,
    ensures
        T::slots(&arr) == opt_column::<T>(num.remaining()),
{
    proof {
        T::native_size_bounds();
    }
    opt2array::<I, T>(num, CAPACITY_DEFAULT)
}

/// An array has one slot for each value, and the slot at an index is what the
/// value at that index normalizes to.
pub proof fn raw_column_keeps_order<T: FloatType>(num: Seq<T::Native>)
    ensures
        raw_column::<T>(num).len() == num.len(),
        forall|i: int| 0 <= i < num.len() ==> raw_column::<T>(num)[i] == normalize::<T>(num[i]),
{
}

/// An array has one slot for each optional value, and the slot at an index is
/// what the optional value at that index normalizes to.
pub proof fn opt_column_keeps_order<T: FloatType>(num: Seq<Option<T::Native>>)
    ensures
        opt_column::<T>(num).len() == num.len(),
        forall|i: int|
            0 <= i < num.len() ==> opt_column::<T>(num)[i] == normalize_opt::<T>(num[i]),
{
}

/// A slot is null exactly where the value is a NaN, and holds the value, bit
/// for bit, everywhere else.
pub proof fn raw_column_nulls_are_nans<T: FloatType>(num: Seq<T::Native>)
    ensures
        forall|i: int|
            0 <= i < num.len() ==> (raw_column::<T>(num)[i] is None <==> T::nan(num[i])),
        forall|i: int|
            0 <= i < num.len() && !T::nan(num[i]) ==> raw_column::<T>(num)[i] == Some(num[i]),
{
}

/// An absent value gives a null slot, and so does a present NaN. Every other
/// value is held by its slot, bit for bit.
pub proof fn opt_column_nulls<T: FloatType>(num: Seq<Option<T::Native>>)
    ensures
        forall|i: int| 0 <= i < num.len() && num[i] is None ==> opt_column::<T>(num)[i] is None,
        forall|i: int|
            0 <= i < num.len() && num[i] is Some ==> (opt_column::<T>(num)[i] is None <==> T::nan(
                num[i]->0,
            )),
        forall|i: int|
            0 <= i < num.len() && opt_column::<T>(num)[i] is Some ==> opt_column::<T>(num)[i]
                == num[i],
{
}

/// Raw values give the array that the same values give when each is handed over
/// as present.
pub proof fn raw_column_is_opt_column_of_present<T: FloatType>(num: Seq<T::Native>)
    ensures
        raw_column::<T>(num) == opt_column::<T>(
            Seq::new(num.len(), |i: int| Some(num[i])),
        ),
{
    assert(raw_column::<T>(num) =~= opt_column::<T>(
        Seq::new(num.len(), |i: int| Some(num[i])),
    ));
}

/// Normalized slots come out of a second build unchanged.
pub proof fn opt_column_idempotent<T: FloatType>(num: Seq<Option<T::Native>>)
    ensures
        opt_column::<T>(opt_column::<T>(num)) == opt_column::<T>(num),
{
    assert(opt_column::<T>(opt_column::<T>(num)) =~= opt_column::<T>(num));
}

/// No values give an array without slots and without nulls.
pub proof fn empty_column<T: FloatType>()
    ensures
        raw_column::<T>(Seq::empty()) == Seq::<Option<T::Native>>::empty(),
        opt_column::<T>(Seq::empty()) == Seq::<Option<T::Native>>::empty(),
        null_count(Seq::<Option<T::Native>>::empty()) == 0,
{
    reveal(Seq::filter);
    assert(raw_column::<T>(Seq::empty()) =~= Seq::<Option<T::Native>>::empty());
    assert(opt_column::<T>(Seq::empty()) =~= Seq::<Option<T::Native>>::empty());
}

/// One more slot adds one to the null count where it is null, and nothing
/// where it holds a value.
pub proof fn null_count_push<V>(slots: Seq<Option<V>>, slot: Option<V>)
    ensures
        null_count(slots.push(slot)) == null_count(slots) + (if slot is None {
            1nat
        } else {
            0nat
        }),
{
    reveal(Seq::filter);
    assert(slots.push(slot).drop_last() =~= slots);
}

/// There are no more nulls than slots.
pub proof fn null_count_bounded<V>(slots: Seq<Option<V>>)
    ensures
        null_count(slots) <= slots.len(),
{
    slots.lemma_filter_len(|slot: Option<V>| slot is None);
}

/// Every slot is null exactly where the null count is the length, and no slot
/// is null exactly where the null count is zero.
pub proof fn null_count_extremes<V>(slots: Seq<Option<V>>)
    ensures
        null_count(slots) == slots.len() <==> forall|i: int|
            0 <= i < slots.len() ==> slots[i] is None,
        null_count(slots) == 0 <==> forall|i: int| 0 <= i < slots.len() ==> slots[i] is Some,
    decreases slots.len(),
{
    reveal(Seq::filter);
    if slots.len() > 0 {
        let front = slots.drop_last();
        null_count_extremes(front);
        null_count_bounded(front);
        assert(forall|i: int| 0 <= i < front.len() ==> front[i] == slots[i]);
        if null_count(slots) == slots.len() {
            assert forall|i: int| 0 <= i < slots.len() implies slots[i] is None by {
                if i < front.len() {
                    assert(front[i] is None);
                }
            }
        }
        if null_count(slots) == 0 {
            assert forall|i: int| 0 <= i < slots.len() implies slots[i] is Some by {
                if i < front.len() {
                    assert(front[i] is Some);
                }
            }
        }
    }
}

/// A build of raw values has as many nulls as there are NaNs among the values.
pub proof fn raw_column_null_count<T: FloatType>(num: Seq<T::Native>)
    ensures
        null_count(raw_column::<T>(num)) == num.filter(|val: T::Native| T::nan(val)).len(),
    decreases num.len(),
{
    reveal(Seq::filter);
    if num.len() > 0 {
        raw_column_null_count::<T>(num.drop_last());
        assert(raw_column::<T>(num).drop_last() =~= raw_column::<T>(num.drop_last()));
    }
}

/// A build of optional values has as many nulls as there are absent values and
/// NaNs among the values.
pub proof fn opt_column_null_count<T: FloatType>(num: Seq<Option<T::Native>>)
    ensures
        null_count(opt_column::<T>(num)) == num.filter(
            |val: Option<T::Native>| normalize_opt::<T>(val) is None,
        ).len(),
    decreases num.len(),
{
    reveal(Seq::filter);
    if num.len() > 0 {
        opt_column_null_count::<T>(num.drop_last());
        assert(opt_column::<T>(num).drop_last() =~= opt_column::<T>(num.drop_last()));
    }
}

/// Values that are all NaN give an array of nulls only, and values of which
/// none is a NaN give an array without a null.
pub proof fn raw_column_all_or_nothing<T: FloatType>(num: Seq<T::Native>)
    ensures
        (forall|i: int| 0 <= i < num.len() ==> T::nan(num[i])) ==> null_count(
            raw_column::<T>(num),
        ) == num.len(),
        (forall|i: int| 0 <= i < num.len() ==> !T::nan(num[i])) ==> null_count(
            raw_column::<T>(num),
        ) == 0,
{
    null_count_extremes(raw_column::<T>(num));
}

/// The capacity hint has no part in the result: two raw builds that are
/// handed the same values, each with a hint of its own, give arrays with the
/// same slots.
pub proof fn num2array_capacity_is_advisory<I, J, T>(
    num_a: I,
    cap_a: usize,
    arr_a: T::Array,
    num_b: J,
    cap_b: usize,
    arr_b: T::Array,
)
    where
        T: FloatType,
        I: Iterator<Item = T::Native>,
        J: Iterator<Item = T::Native>,
    requires
        num_a.remaining() == num_b.remaining(),
        call_ensures(num2array::<I, T>, (num_a, cap_a), arr_a),
        call_ensures(num2array::<J, T>, (num_b, cap_b), arr_b),
    ensures
        T::slots(&arr_a) == T::slots(&arr_b),
{
}

/// The capacity hint has no part in the result: two optional builds that are
/// handed the same values, each with a hint of its own, give arrays with the
/// same slots.
pub proof fn opt2array_capacity_is_advisory<I, J, T>(
    num_a: I,
    cap_a: usize,
    arr_a: T::Array,
    num_b: J,
    cap_b: usize,
    arr_b: T::Array,
)
    where
        T: FloatType,
        I: Iterator<Item = Option<T::Native>>,
        J: Iterator<Item = Option<T::Native>>,
    requires
        num_a.remaining() == num_b.remaining(),
        call_ensures(opt2array::<I, T>, (num_a, cap_a), arr_a),
        call_ensures(opt2array::<J, T>, (num_b, cap_b), arr_b),
    ensures
        T::slots(&arr_a) == T::slots(&arr_b),
{
}

/// A build with the default room gives the slots that a build of the same
/// values gives with any room.
pub proof fn default_capacity_is_advisory<I, J, T>(
    num_a: I,
    arr_a: T::Array,
    num_b: J,
    cap_b: usize,
    arr_b: T::Array,
)
    where
        T: FloatType,
        I: Iterator<Item = T::Native>,
        J: Iterator<Item = T::Native>,
    requires
        num_a.remaining() == num_b.remaining(),
        call_ensures(num2array_default::<I, T>, (num_a,), arr_a),
        call_ensures(num2array::<J, T>, (num_b, cap_b), arr_b),
    ensures
        T::slots(&arr_a) == T::slots(&arr_b),
{
}

} // verus!
