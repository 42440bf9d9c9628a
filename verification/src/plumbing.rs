//! The rows of the selection table as types, and the storage that wraps an
//! inline buffer.

use crate::index::{spec_index_for_capacity, IndexKind, IndexType, PickIndexBreakpoints};
use crate::private::Sealed;
use generic_array::typenum::{False, True, B0, B1};
use std::marker::PhantomData;
use vstd::prelude::*;
use vstd::std_specs::convert::FromSpecImpl;

verus! {

/// `typenum`'s type-level bit 0, which it also calls `False`. The type is
/// only named, as a marker: nothing is claimed of it.
#[verifier::external_type_specification]
#[verifier::external_body]
pub struct ExB0(B0);

/// `typenum`'s type-level bit 1, which it also calls `True`. The type is
/// only named, as a marker: nothing is claimed of it.
#[verifier::external_type_specification]
#[verifier::external_body]
pub struct ExB1(B1);

/// Implemented by `True` and by no other type: a bound that asks for a
/// type-level comparison to hold.
pub trait IsTrue {
    fn _sealed(_token: Sealed);
}

impl IsTrue for True {
    fn _sealed(_token: Sealed) {
    }
}

/// One row of the selection table, as a type: the answers to the five
/// comparisons, each `True` or `False`, in a tuple. The six tuples that a
/// capacity can give implement it, and `Output` is the index type of the
/// row.
pub trait PickIndex {
    type Output: IndexType;

    /// The answers that the tuple stands for.
    spec fn spec_breakpoints() -> PickIndexBreakpoints;

    /// The answers that the tuple stands for. The table holds one row for
    /// them, and `Output` is the index type of that row.
    fn breakpoints() -> (breakpoints: PickIndexBreakpoints)
        ensures
            breakpoints == Self::spec_breakpoints(),
            breakpoints.spec_pick_index() == Some(<Self::Output as IndexType>::spec_kind()),
    ;

    fn _sealed(_token: Sealed);
}

/// The row for a capacity less than 1: the capacity is 0.
impl PickIndex for (True, True, True, True, True) {
    type Output = ();

    open spec fn spec_breakpoints() -> PickIndexBreakpoints {
        PickIndexBreakpoints {
            less_than_1: true,
            less_than_2: true,
            less_than_256: true,
            less_than_65536: true,
            less_than_4294967296: true,
        }
    }

    fn breakpoints() -> (breakpoints: PickIndexBreakpoints) {
        PickIndexBreakpoints {
            less_than_1: true,
            less_than_2: true,
            less_than_256: true,
            less_than_65536: true,
            less_than_4294967296: true,
        }
    }

    fn _sealed(_token: Sealed) {
    }
}

/// The row for a capacity not less than 1 but less than 2: the capacity is 1.
impl PickIndex for (False, True, True, True, True) {
    type Output = bool;

    open spec fn spec_breakpoints() -> PickIndexBreakpoints {
        PickIndexBreakpoints {
            less_than_1: false,
            less_than_2: true,
            less_than_256: true,
            less_than_65536: true,
            less_than_4294967296: true,
        }
    }

    fn breakpoints() -> (breakpoints: PickIndexBreakpoints) {
        PickIndexBreakpoints {
            less_than_1: false,
            less_than_2: true,
            less_than_256: true,
            less_than_65536: true,
            less_than_4294967296: true,
        }
    }

    fn _sealed(_token: Sealed) {
    }
}

/// The row for a capacity from 2 up to 255.
impl PickIndex for (False, False, True, True, True) {
    type Output = u8;

    open spec fn spec_breakpoints() -> PickIndexBreakpoints {
        PickIndexBreakpoints {
            less_than_1: false,
            less_than_2: false,
            less_than_256: true,
            less_than_65536: true,
            less_than_4294967296: true,
        }
    }

    fn breakpoints() -> (breakpoints: PickIndexBreakpoints) {
        PickIndexBreakpoints {
            less_than_1: false,
            less_than_2: false,
            less_than_256: true,
            less_than_65536: true,
            less_than_4294967296: true,
        }
    }

    fn _sealed(_token: Sealed) {
    }
}

/// The row for a capacity from 256 up to 65535.
impl PickIndex for (False, False, False, True, True) {
    type Output = u16;

    open spec fn spec_breakpoints() -> PickIndexBreakpoints {
        PickIndexBreakpoints {
            less_than_1: false,
            less_than_2: false,
            less_than_256: false,
            less_than_65536: true,
            less_than_4294967296: true,
        }
    }

    fn breakpoints() -> (breakpoints: PickIndexBreakpoints) {
        PickIndexBreakpoints {
            less_than_1: false,
            less_than_2: false,
            less_than_256: false,
            less_than_65536: true,
            less_than_4294967296: true,
        }
    }

    fn _sealed(_token: Sealed) {
    }
}

/// The row for a capacity from 65536 up to 4294967295.
impl PickIndex for (False, False, False, False, True) {
    type Output = u32;

    open spec fn spec_breakpoints() -> PickIndexBreakpoints {
        PickIndexBreakpoints {
            less_than_1: false,
            less_than_2: false,
            less_than_256: false,
            less_than_65536: false,
            less_than_4294967296: true,
        }
    }

    fn breakpoints() -> (breakpoints: PickIndexBreakpoints) {
        PickIndexBreakpoints {
            less_than_1: false,
            less_than_2: false,
            less_than_256: false,
            less_than_65536: false,
            less_than_4294967296: true,
        }
    }

    fn _sealed(_token: Sealed) {
    }
}

/// The row for a capacity 4294967296 and more.
impl PickIndex for (False, False, False, False, False) {
    type Output = usize;

    open spec fn spec_breakpoints() -> PickIndexBreakpoints {
        PickIndexBreakpoints {
            less_than_1: false,
            less_than_2: false,
            less_than_256: false,
            less_than_65536: false,
            less_than_4294967296: false,
        }
    }

    fn breakpoints() -> (breakpoints: PickIndexBreakpoints) {
        PickIndexBreakpoints {
            less_than_1: false,
            less_than_2: false,
            less_than_256: false,
            less_than_65536: false,
            less_than_4294967296: false,
        }
    }

    fn _sealed(_token: Sealed) {
    }
}

/// An inline buffer of `N` elements of `T`, wrapped so that it can back a
/// bounded vector or string that keeps its length in the index type `I`.
/// The wrapper adds nothing to the buffer: wrapping and unwrapping move it
/// and nothing else.
#[derive(Debug)]
pub struct ArrayvecStorageRaw<T, const N: usize, I>(pub [T; N], pub PhantomData<I>);

impl<T, const N: usize, I> View for ArrayvecStorageRaw<T, N, I> {
    type V = Seq<T>;

    /// The elements of the buffer, in order.
    open spec fn view(&self) -> Seq<T> {
        self.0@
    }
}

impl<T: Clone, const N: usize, I> Clone for ArrayvecStorageRaw<T, N, I> {
    /// A storage over a clone of the buffer.
    fn clone(&self) -> (copy: Self)
        ensures
            forall|i: int| 0 <= i < N ==> cloned::<T>(#[trigger] self@[i], copy@[i]),
    {
        ArrayvecStorageRaw(self.0.clone(), PhantomData)
    }
}

impl<T: Copy, const N: usize, I> Copy for ArrayvecStorageRaw<T, N, I> {
}

impl<T, const N: usize, I> ArrayvecStorageRaw<T, N, I> {
    /// The storage that wraps `arr`.
    pub open spec fn spec_new(arr: [T; N]) -> Self {
        ArrayvecStorageRaw(arr, PhantomData)
    }

    /// The buffer that the storage wraps.
    pub open spec fn spec_into_inner(self) -> [T; N] {
        self.0
    }

    /// Wraps the given buffer into a new storage.
    #[verifier::when_used_as_spec(spec_new)]
    pub fn new(arr: [T; N]) -> (storage: Self)
        ensures
            storage == Self::spec_new(arr),
            storage.0 == arr,
    {
        ArrayvecStorageRaw(arr, PhantomData)
    }

    /// Returns the buffer inside this storage.
    #[verifier::when_used_as_spec(spec_into_inner)]
    pub fn into_inner(self) -> (arr: [T; N])
        ensures
            arr == self.0,
    {
        self.0
    }
}

impl<T, const N: usize, I> From<[T; N]> for ArrayvecStorageRaw<T, N, I> {
    fn from(arr: [T; N]) -> (storage: Self) {
        ArrayvecStorageRaw(arr, PhantomData)
    }
}

impl<T, const N: usize, I> FromSpecImpl<[T; N]> for ArrayvecStorageRaw<T, N, I> {
    open spec fn obeys_from_spec() -> bool {
        true
    }

    open spec fn from_spec(arr: [T; N]) -> Self {
        ArrayvecStorageRaw(arr, PhantomData)
    }
}

impl<T, const N: usize, I> From<ArrayvecStorageRaw<T, N, I>> for [T; N] {
    fn from(storage: ArrayvecStorageRaw<T, N, I>) -> (arr: Self) {
        storage.0
    }
}

impl<T, const N: usize, I> FromSpecImpl<ArrayvecStorageRaw<T, N, I>> for [T; N] {
    open spec fn obeys_from_spec() -> bool {
        true
    }

    open spec fn from_spec(storage: ArrayvecStorageRaw<T, N, I>) -> Self {
        storage.0
    }
}

impl<T, const N: usize, I: IndexType> ArrayvecStorageRaw<T, N, I> {
    /// Whether the index type may go with the capacity. Only then is the
    /// storage one that a container can be built on.
    pub open spec fn spec_is_admissible() -> bool {
        I::spec_kind().spec_admits(N as nat)
    }

    /// Whether the index type may go with the capacity.
    pub fn is_admissible() -> (admissible: bool)
        ensures
            admissible == Self::spec_is_admissible(),
    {
        I::kind().admits(N)
    }

    /// The representation that a container built on this storage keeps its
    /// length in.
    pub fn index_kind() -> (kind: IndexKind)
        ensures
            kind == I::spec_kind(),
    {
        I::kind()
    }

    /// The number of elements that the storage holds.
    pub fn capacity(&self) -> (capacity: usize)
        requires
            Self::spec_is_admissible(),
        ensures
            capacity == N,
            capacity == self@.len(),
            I::spec_kind().spec_can_hold(capacity as nat),
    {
        N
    }

    /// The elements of the buffer, borrowed.
    pub fn as_slice(&self) -> (slice: &[T])
        requires
            Self::spec_is_admissible(),
        ensures
            slice@ == self@,
            slice@.len() == N,
    {
        self.0.as_slice()
    }

    /// The elements of the buffer, borrowed for writing. What is written to
    /// the slice is written to the buffer.
    pub fn as_mut_slice(&mut self) -> (slice: &mut [T])
        requires
            Self::spec_is_admissible(),
        ensures
            slice@ == old(self)@,
            final(self)@ == final(slice)@,
    {
        &mut self.0
    }
}

/// Wrapping a buffer and unwrapping the storage gives the buffer back.
pub proof fn lemma_into_inner_of_new<T, const N: usize, I>(arr: [T; N])
    ensures
        ArrayvecStorageRaw::<T, N, I>::new(arr).into_inner() == arr,
{
}

/// Unwrapping a storage and wrapping the buffer again gives the storage
/// back.
pub proof fn lemma_new_of_into_inner<T, const N: usize, I>(storage: ArrayvecStorageRaw<T, N, I>)
    ensures
        ArrayvecStorageRaw::<T, N, I>::new(storage.into_inner()) == storage,
{
}

/// A storage fresh from a buffer holds the `N` elements of the buffer, in
/// their order.
pub proof fn lemma_new_holds_the_buffer<T, const N: usize, I>(arr: [T; N])
    ensures
        ArrayvecStorageRaw::<T, N, I>::new(arr)@ == arr@,
        ArrayvecStorageRaw::<T, N, I>::new(arr)@.len() == N,
{
}

/// A storage that declares the index type chosen for its capacity is one
/// that a container can be built on, and its index type holds every length
/// of that container.
pub proof fn lemma_chosen_index_is_admissible<T, const N: usize, I: IndexType>()
    requires
        I::spec_kind() == spec_index_for_capacity(N as nat),
    ensures
        ArrayvecStorageRaw::<T, N, I>::spec_is_admissible(),
        forall|length: nat| length <= N ==> I::spec_kind().spec_can_hold(length),
{
}

} // verus!
