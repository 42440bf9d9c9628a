//! The index representations that a bounded container can keep its length
//! in, and the choice of the narrowest one for a capacity.

use crate::private::Sealed;
use vstd::arithmetic::power2::{lemma2_to64, pow2};
use vstd::layout::unsigned_int_max_values;
use vstd::prelude::*;

verus! {

/// The six index representations, from the narrowest to the widest.
#[derive(Clone, Copy, Debug, PartialEq, Eq, Structural)]
pub enum IndexKind {
    /// The zero-sized `()`: the only length is 0.
    Unit,
    /// `bool`: the length is 0 or 1.
    Bool,
    /// `u8`.
    U8,
    /// `u16`.
    U16,
    /// `u32`.
    U32,
    /// `usize`.
    Usize,
}

impl IndexKind {
    /// The width of the representation, in bits.
    pub open spec fn spec_bits(self) -> nat {
        match self {
            IndexKind::Unit => 0,
            IndexKind::Bool => 1,
            IndexKind::U8 => 8,
            IndexKind::U16 => 16,
            IndexKind::U32 => 32,
            IndexKind::Usize => usize::BITS as nat,
        }
    }

    /// The largest length that the representation can hold.
    pub open spec fn spec_max_value(self) -> nat {
        match self {
            IndexKind::Unit => 0,
            IndexKind::Bool => 1,
            IndexKind::U8 => 0xff,
            IndexKind::U16 => 0xffff,
            IndexKind::U32 => 0xffff_ffff,
            IndexKind::Usize => usize::MAX as nat,
        }
    }

    /// Whether the representation can hold `value`.
    pub open spec fn spec_can_hold(self, value: nat) -> bool {
        value <= self.spec_max_value()
    }

    /// Whether a storage of `capacity` elements may declare this
    /// representation: `()` goes with capacity 0 alone and `bool` with
    /// capacity 1 alone, `u8`, `u16` and `u32` with every capacity below two
    /// to the power of their width, and `usize` with every capacity.
    pub open spec fn spec_admits(self, capacity: nat) -> bool {
        match self {
            IndexKind::Unit => capacity == 0,
            IndexKind::Bool => capacity == 1,
            IndexKind::U8 => capacity < 0x100,
            IndexKind::U16 => capacity < 0x1_0000,
            IndexKind::U32 => capacity < 0x1_0000_0000,
            IndexKind::Usize => true,
        }
    }

    /// The width of the representation, in bits.
    pub fn bits(self) -> (bits: u32)
        ensures
            bits == self.spec_bits(),
    {
        match self {
            IndexKind::Unit => 0,
            IndexKind::Bool => 1,
            IndexKind::U8 => 8,
            IndexKind::U16 => 16,
            IndexKind::U32 => 32,
            IndexKind::Usize => usize::BITS,
        }
    }

    /// The largest length that the representation can hold.
    pub fn max_value(self) -> (max: usize)
        ensures
            max == self.spec_max_value(),
    {
        match self {
            IndexKind::Unit => 0,
            IndexKind::Bool => 1,
            IndexKind::U8 => 0xff,
            IndexKind::U16 => 0xffff,
            IndexKind::U32 => 0xffff_ffff,
            IndexKind::Usize => usize::MAX,
        }
    }

    /// Whether the representation can hold `value`.
    pub fn can_hold(self, value: usize) -> (held: bool)
        ensures
            held == self.spec_can_hold(value as nat),
    {
        value <= self.max_value()
    }

    /// Whether a storage of `capacity` elements may declare this
    /// representation.
    pub fn admits(self, capacity: usize) -> (admitted: bool)
        ensures
            admitted == self.spec_admits(capacity as nat),
    {
        match self {
            IndexKind::Unit => capacity == 0,
            IndexKind::Bool => capacity == 1,
            IndexKind::U8 => capacity < 0x100,
            IndexKind::U16 => capacity < 0x1_0000,
            IndexKind::U32 => capacity <= 0xffff_ffff,
            IndexKind::Usize => true,
        }
    }
}

/// A type that a bounded container can keep its length in. The crate
/// implements it for `()`, `bool`, `u8`, `u16`, `u32` and `usize`, and it is
/// sealed.
pub trait IndexType {
    /// The representation that the type stands for.
    spec fn spec_kind() -> IndexKind;

    /// The representation that the type stands for.
    fn kind() -> (kind: IndexKind)
        ensures
            kind == Self::spec_kind(),
    ;

    fn _sealed(_token: Sealed);
}

impl IndexType for () {
    open spec fn spec_kind() -> IndexKind {
        IndexKind::Unit
    }

    fn kind() -> (kind: IndexKind) {
        IndexKind::Unit
    }

    fn _sealed(_token: Sealed) {
    }
}

impl IndexType for bool {
    open spec fn spec_kind() -> IndexKind {
        IndexKind::Bool
    }

    fn kind() -> (kind: IndexKind) {
        IndexKind::Bool
    }

    fn _sealed(_token: Sealed) {
    }
}

impl IndexType for u8 {
    open spec fn spec_kind() -> IndexKind {
        IndexKind::U8
    }

    fn kind() -> (kind: IndexKind) {
        IndexKind::U8
    }

    fn _sealed(_token: Sealed) {
    }
}

impl IndexType for u16 {
    open spec fn spec_kind() -> IndexKind {
        IndexKind::U16
    }

    fn kind() -> (kind: IndexKind) {
        IndexKind::U16
    }

    fn _sealed(_token: Sealed) {
    }
}

impl IndexType for u32 {
    open spec fn spec_kind() -> IndexKind {
        IndexKind::U32
    }

    fn kind() -> (kind: IndexKind) {
        IndexKind::U32
    }

    fn _sealed(_token: Sealed) {
    }
}

impl IndexType for usize {
    open spec fn spec_kind() -> IndexKind {
        IndexKind::Usize
    }

    fn kind() -> (kind: IndexKind) {
        IndexKind::Usize
    }

    fn _sealed(_token: Sealed) {
    }
}

/// The answers to the five comparisons by which an index representation is
/// chosen: whether the capacity is less than 1, 2, 256, 65536 and
/// 4294967296.
#[derive(Clone, Copy, Debug, PartialEq, Eq, Structural)]
pub struct PickIndexBreakpoints {
    pub less_than_1: bool,
    pub less_than_2: bool,
    pub less_than_256: bool,
    pub less_than_65536: bool,
    pub less_than_4294967296: bool,
}

impl PickIndexBreakpoints {
    /// The answers for `capacity`.
    pub open spec fn spec_for_capacity(capacity: nat) -> PickIndexBreakpoints {
        PickIndexBreakpoints {
            less_than_1: capacity < 1,
            less_than_2: capacity < 2,
            less_than_256: capacity < 0x100,
            less_than_65536: capacity < 0x1_0000,
            less_than_4294967296: capacity < 0x1_0000_0000,
        }
    }

    /// Whether the answers can be those of a capacity: what is less than one
    /// bound is less than every larger bound.
    pub open spec fn spec_is_ordered(self) -> bool {
        &&& self.less_than_1 ==> self.less_than_2
        &&& self.less_than_2 ==> self.less_than_256
        &&& self.less_than_256 ==> self.less_than_65536
        &&& self.less_than_65536 ==> self.less_than_4294967296
    }

    /// The representation that goes with the answers: that of the first
    /// bound which the capacity is less than, and `usize` where it is less
    /// than none. Answers that no capacity gives have no representation.
    pub open spec fn spec_pick_index(self) -> Option<IndexKind> {
        if !self.spec_is_ordered() {
            None
        } else if self.less_than_1 {
            Some(IndexKind::Unit)
        } else if self.less_than_2 {
            Some(IndexKind::Bool)
        } else if self.less_than_256 {
            Some(IndexKind::U8)
        } else if self.less_than_65536 {
            Some(IndexKind::U16)
        } else if self.less_than_4294967296 {
            Some(IndexKind::U32)
        } else {
            Some(IndexKind::Usize)
        }
    }

    /// The answers for `capacity`.
    pub fn for_capacity(capacity: usize) -> (breakpoints: PickIndexBreakpoints)
        ensures
            breakpoints == PickIndexBreakpoints::spec_for_capacity(capacity as nat),
            breakpoints.spec_is_ordered(),
    {
        PickIndexBreakpoints {
            less_than_1: capacity < 1,
            less_than_2: capacity < 2,
            less_than_256: capacity < 0x100,
            less_than_65536: capacity < 0x1_0000,
            less_than_4294967296: capacity <= 0xffff_ffff,
        }
    }

    /// The representation that goes with the answers, one row of the table
    /// for each of the six sets of answers that a capacity can give, and
    /// `None` for every other set.
    pub fn pick_index(self) -> (picked: Option<IndexKind>)
        ensures
            picked == self.spec_pick_index(),
            picked is Some <==> self.spec_is_ordered(),
    {
        match (
            self.less_than_1,
            self.less_than_2,
            self.less_than_256,
            self.less_than_65536,
            self.less_than_4294967296,
        ) {
            (true, true, true, true, true) => Some(IndexKind::Unit),
            (false, true, true, true, true) => Some(IndexKind::Bool),
            (false, false, true, true, true) => Some(IndexKind::U8),
            (false, false, false, true, true) => Some(IndexKind::U16),
            (false, false, false, false, true) => Some(IndexKind::U32),
            (false, false, false, false, false) => Some(IndexKind::Usize),
            _ => None,
        }
    }
}

/// The narrowest representation that can hold every length of a container
/// of `capacity` elements, the full one included: the first row that
/// matches, each bound being one that the capacity must stay below.
pub open spec fn spec_index_for_capacity(capacity: nat) -> IndexKind {
    if capacity < 1 {
        IndexKind::Unit
    } else if capacity < 2 {
        IndexKind::Bool
    } else if capacity < 0x100 {
        IndexKind::U8
    } else if capacity < 0x1_0000 {
        IndexKind::U16
    } else if capacity < 0x1_0000_0000 {
        IndexKind::U32
    } else {
        IndexKind::Usize
    }
}

/// The narrowest representation that can hold every length of a container
/// of `capacity` elements. It is found as the row of the table that goes
/// with the capacity's answers to the five comparisons.
pub fn index_for_capacity(capacity: usize) -> (kind: IndexKind)
    ensures
        kind == spec_index_for_capacity(capacity as nat),
        kind.spec_admits(capacity as nat),
        forall|length: nat| length <= capacity ==> kind.spec_can_hold(length),
        forall|other: IndexKind| #[trigger]
            other.spec_can_hold(capacity as nat) ==> kind.spec_bits() <= other.spec_bits()
                && kind.spec_max_value() <= other.spec_max_value(),
{
    PickIndexBreakpoints::for_capacity(capacity).pick_index().unwrap()
}

/// The table agrees with the bounds: the answers of a capacity are ordered,
/// and the row that goes with them is the representation chosen for that
/// capacity.
pub proof fn lemma_pick_index_for_capacity(capacity: nat)
    ensures
        PickIndexBreakpoints::spec_for_capacity(capacity).spec_is_ordered(),
        PickIndexBreakpoints::spec_for_capacity(capacity).spec_pick_index() == Some(
            spec_index_for_capacity(capacity),
        ),
{
}

/// A storage may declare the representation chosen for its capacity.
pub proof fn lemma_index_for_capacity_is_admitted(capacity: nat)
    ensures
        spec_index_for_capacity(capacity).spec_admits(capacity),
{
}

/// The representation chosen for a capacity that fits in `usize` holds the
/// capacity and every length below it: its largest value is at least the
/// capacity.
pub proof fn lemma_index_for_capacity_holds_every_length(capacity: nat)
    requires
        capacity <= usize::MAX,
    ensures
        spec_index_for_capacity(capacity).spec_max_value() >= capacity,
        forall|length: nat|
            length <= capacity ==> spec_index_for_capacity(capacity).spec_can_hold(length),
{
}

/// No representation that holds the capacity is narrower than the chosen
/// one.
pub proof fn lemma_index_for_capacity_is_narrowest(capacity: nat, other: IndexKind)
    requires
        other.spec_can_hold(capacity),
    ensures
        spec_index_for_capacity(capacity).spec_bits() <= other.spec_bits(),
        spec_index_for_capacity(capacity).spec_max_value() <= other.spec_max_value(),
{
}

/// The largest value of a representation is the one whose bits are all set:
/// two to the power of the width, less one.
pub proof fn lemma_max_value_has_every_bit_set(kind: IndexKind)
    ensures
        kind.spec_max_value() + 1 == pow2(kind.spec_bits()),
{
    lemma2_to64();
    unsigned_int_max_values();
}

/// A wider representation holds every length that a narrower one holds.
pub proof fn lemma_wider_kind_holds_more(narrow: IndexKind, wide: IndexKind, length: nat)
    requires
        narrow.spec_bits() <= wide.spec_bits(),
        narrow.spec_can_hold(length),
    ensures
        wide.spec_can_hold(length),
{
}

/// A representation that a storage may declare holds every length of that
/// storage, as far as the capacity fits in `usize`.
pub proof fn lemma_admitted_kind_holds_every_length(kind: IndexKind, capacity: nat)
    requires
        kind.spec_admits(capacity),
        capacity <= usize::MAX,
    ensures
        forall|length: nat| length <= capacity ==> kind.spec_can_hold(length),
{
}

} // verus!
