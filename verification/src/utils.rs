//! Arrays exchanged with the backend.
//!
//! The backend takes collections (integer values, variables, constraints,
//! search criteria) as arrays that live on its side: an array is created with
//! its length, then filled one index at a time.  Lengths and indices are
//! 32-bit integers there.

use vstd::prelude::*;

use crate::backend::{ArrayKind, Call, Handle};

verus! {

/// The length of a slice as the backend's 32-bit length.  A slice longer than
/// `i32::MAX` has no such length: `requires` leaves it out.
pub fn array_len(len: usize) -> (n: i32)
    requires
        len <= i32::MAX,
    ensures
        n == len,
{
    len as i32
}

/// The calls that store `values` into the integer array `array`, one per
/// index, in order.
pub open spec fn int_array_sets(array: Handle, values: Seq<i32>) -> Seq<Call> {
    Seq::new(values.len(), |i: int| Call::IntArraySet { array, value: values[i], index: i as i32 })
}

/// The calls that store `items` into the array of handles `array`, one per
/// index, in order.
pub open spec fn handle_array_sets(kind: ArrayKind, array: Handle, items: Seq<Handle>) -> Seq<Call> {
    Seq::new(items.len(), |i: int| Call::ArraySet { kind, array, item: items[i], index: i as i32 })
}

/// The calls that read the integer array `array` of length `len`, one per
/// index, in order.
pub open spec fn int_array_gets(array: Handle, len: nat) -> Seq<Call> {
    Seq::new(len, |i: int| Call::IntArrayGet { array, index: i as i32 })
}

/// The value that a run of `calls` leaves at `index` of the integer array
/// `array`, for a backend that stores what each call hands it: the value of
/// the last call that stores into that index, if any.
pub open spec fn value_stored(calls: Seq<Call>, array: Handle, index: i32) -> Option<i32>
    decreases calls.len(),
{
    if calls.len() == 0 {
        None
    } else {
        match calls.last() {
            Call::IntArraySet { array: a, value, index: j } => if a == array && j == index {
                Some(value)
            } else {
                value_stored(calls.drop_last(), array, index)
            },
            _ => value_stored(calls.drop_last(), array, index),
        }
    }
}

/// What the read calls `reads` give back after the calls `writes`, for a
/// backend that stores what each call hands it.
pub open spec fn values_read(writes: Seq<Call>, reads: Seq<Call>) -> Seq<Option<i32>> {
    reads.map_values(
        |r: Call|
            match r {
                Call::IntArrayGet { array, index } => value_stored(writes, array, index),
                _ => None,
            },
    )
}

/// After the calls that fill an array with `values`, index `i` holds
/// `values[i]` for every `i` written so far.
proof fn lemma_values_stored(array: Handle, values: Seq<i32>, k: int)
    requires
        values.len() <= i32::MAX,
        0 <= k <= values.len(),
    ensures
        forall|i: int|
            0 <= i < k ==> #[trigger] value_stored(int_array_sets(array, values.take(k)), array, i as i32)
                == Some(values[i]),
    decreases k,
{
    if k > 0 {
        lemma_values_stored(array, values, k - 1);
        let sets = int_array_sets(array, values.take(k));
        assert(sets.drop_last() =~= int_array_sets(array, values.take(k - 1)));
        assert forall|i: int| 0 <= i < k implies #[trigger] value_stored(sets, array, i as i32) == Some(
            values[i],
        ) by {
            if i < k - 1 {
                assert(value_stored(int_array_sets(array, values.take(k - 1)), array, i as i32) == Some(
                    values[i],
                ));
            }
        }
    }
}

/// Reading back an integer array gives what was written into it: the reads
/// made for a length of `values.len()` address exactly the indices `0` to
/// `values.len() - 1` that the values were written to, in the same order, and
/// a backend that stores what each call hands it answers them with `values`,
/// in order, duplicates and extreme values included.
pub proof fn lemma_int_array_round_trip(array: Handle, values: Seq<i32>)
    requires
        values.len() <= i32::MAX,
    ensures
        int_array_gets(array, values.len()).len() == int_array_sets(array, values).len(),
        forall|i: int|
            0 <= i < values.len() ==> (#[trigger] int_array_sets(array, values)[i] matches Call::IntArraySet {
                array: a,
                value,
                index,
            } && a == array && value == values[i] && index == i)
                && int_array_gets(array, values.len())[i] == (Call::IntArrayGet { array, index: i as i32 }),
        values_read(int_array_sets(array, values), int_array_gets(array, values.len())) == values.map_values(
            |v: i32| Some(v),
        ),
{
    lemma_values_stored(array, values, values.len() as int);
    assert(values.take(values.len() as int) =~= values);
    let read = values_read(int_array_sets(array, values), int_array_gets(array, values.len()));
    assert forall|i: int| 0 <= i < values.len() implies read[i] == Some(values[i]) by {
        assert(value_stored(int_array_sets(array, values.take(values.len() as int)), array, i as i32)
            == Some(values[i]));
    }
    assert(read =~= values.map_values(|v: i32| Some(v)));
}

/// The handle that a run of `calls` leaves at `index` of the array `array`
/// of `kind` handles, for a backend that stores what each call hands it: the
/// item of the last call that stores into that index, if any.
pub open spec fn handle_stored(calls: Seq<Call>, kind: ArrayKind, array: Handle, index: i32) -> Option<Handle>
    decreases calls.len(),
{
    if calls.len() == 0 {
        None
    } else {
        match calls.last() {
            Call::ArraySet { kind: k, array: a, item, index: j } => if k == kind && a == array && j == index {
                Some(item)
            } else {
                handle_stored(calls.drop_last(), kind, array, index)
            },
            _ => handle_stored(calls.drop_last(), kind, array, index),
        }
    }
}

proof fn lemma_handles_stored(kind: ArrayKind, array: Handle, items: Seq<Handle>, k: int)
    requires
        items.len() <= i32::MAX,
        0 <= k <= items.len(),
    ensures
        forall|i: int|
            0 <= i < k ==> #[trigger] handle_stored(handle_array_sets(kind, array, items.take(k)), kind, array, i as i32)
                == Some(items[i]),
        forall|index: i32|
            (index < 0 || index >= k) ==> #[trigger] handle_stored(
                handle_array_sets(kind, array, items.take(k)),
                kind,
                array,
                index,
            ) is None,
    decreases k,
{
    if k > 0 {
        lemma_handles_stored(kind, array, items, k - 1);
        let sets = handle_array_sets(kind, array, items.take(k));
        assert(sets.drop_last() =~= handle_array_sets(kind, array, items.take(k - 1)));
        assert forall|i: int| 0 <= i < k implies #[trigger] handle_stored(sets, kind, array, i as i32) == Some(
            items[i],
        ) by {
            if i < k - 1 {
                assert(handle_stored(handle_array_sets(kind, array, items.take(k - 1)), kind, array, i as i32)
                    == Some(items[i]));
            }
        }
        assert forall|index: i32| (index < 0 || index >= k) implies #[trigger] handle_stored(
            sets,
            kind,
            array,
            index,
        ) is None by {
            assert(handle_stored(handle_array_sets(kind, array, items.take(k - 1)), kind, array, index) is None);
        }
    }
}

/// Filling an array of handles stores every item at its own index: call `i`
/// stores `items[i]` at index `i` of `array`, and after all the calls a
/// backend that stores what each call hands it holds `items[i]` at every
/// index `i` below `items.len()` and nothing at any other index.
pub proof fn lemma_handle_array_round_trip(kind: ArrayKind, array: Handle, items: Seq<Handle>)
    requires
        items.len() <= i32::MAX,
    ensures
        handle_array_sets(kind, array, items).len() == items.len(),
        forall|i: int|
            0 <= i < items.len() ==> #[trigger] handle_array_sets(kind, array, items)[i] == (Call::ArraySet {
                kind,
                array,
                item: items[i],
                index: i as i32,
            }),
        forall|i: int|
            0 <= i < items.len() ==> #[trigger] handle_stored(handle_array_sets(kind, array, items), kind, array, i as i32)
                == Some(items[i]),
        forall|index: i32|
            (index < 0 || index >= items.len()) ==> #[trigger] handle_stored(
                handle_array_sets(kind, array, items),
                kind,
                array,
                index,
            ) is None,
{
    lemma_handles_stored(kind, array, items, items.len() as int);
    assert(items.take(items.len() as int) =~= items);
}

/// The call that creates an integer array with room for `len` values.
pub fn int_array_create_call(len: usize) -> (c: Call)
    requires
        len <= i32::MAX,
    ensures
        c == (Call::IntArrayCreate { len: len as i32 }),
{
    Call::IntArrayCreate { len: array_len(len) }
}

/// The calls that fill an integer array created for `values`: value `i` at
/// index `i`.
pub fn int_array_set_calls(array: Handle, values: &[i32]) -> (calls: Vec<Call>)
    requires
        values@.len() <= i32::MAX,
    ensures
        calls@ == int_array_sets(array, values@),
{
    let mut calls: Vec<Call> = Vec::new();
    let n = values.len();
    let mut i: usize = 0;
    while i < n
        invariant
            n == values@.len(),
            n <= i32::MAX,
            i <= n,
            calls@ =~= int_array_sets(array, values@.take(i as int)),
        decreases n - i,
    {
        calls.push(Call::IntArraySet { array, value: values[i], index: i as i32 });
        i = i + 1;
    }
    assert(values@.take(n as int) =~= values@);
    calls
}

/// The call that creates an array of `kind` handles with room for `len` items.
pub fn handle_array_create_call(kind: ArrayKind, len: usize) -> (c: Call)
    requires
        len <= i32::MAX,
    ensures
        c == (Call::ArrayCreate { kind, len: len as i32 }),
{
    Call::ArrayCreate { kind, len: array_len(len) }
}

/// The calls that fill an array of handles created for `items`: item `i` at
/// index `i`.
pub fn handle_array_set_calls(kind: ArrayKind, array: Handle, items: &[Handle]) -> (calls: Vec<Call>)
    requires
        items@.len() <= i32::MAX,
    ensures
        calls@ == handle_array_sets(kind, array, items@),
{
    let mut calls: Vec<Call> = Vec::new();
    let n = items.len();
    let mut i: usize = 0;
    while i < n
        invariant
            n == items@.len(),
            n <= i32::MAX,
            i <= n,
            calls@ =~= handle_array_sets(kind, array, items@.take(i as int)),
        decreases n - i,
    {
        calls.push(Call::ArraySet { kind, array, item: items[i], index: i as i32 });
        i = i + 1;
    }
    assert(items@.take(n as int) =~= items@);
    calls
}

/// The call that reads the length of an integer array.
pub fn int_array_length_call(array: Handle) -> (c: Call)
    ensures
        c == (Call::IntArrayLength { array }),
{
    Call::IntArrayLength { array }
}

/// The calls that read an integer array whose length the backend reported as
/// `len`: index `0` up to `len - 1`.  A negative length is a fault of the
/// backend, on which reading fails: `requires` leaves it out.
pub fn int_array_get_calls(array: Handle, len: i32) -> (calls: Vec<Call>)
    requires
        len >= 0,
    ensures
        calls@ == int_array_gets(array, len as nat),
{
    let mut calls: Vec<Call> = Vec::new();
    let mut i: i32 = 0;
    while i < len
        invariant
            0 <= i <= len,
            calls@ =~= int_array_gets(array, i as nat),
        decreases len - i,
    {
        calls.push(Call::IntArrayGet { array, index: i });
        i = i + 1;
    }
    calls
}

} // verus!
