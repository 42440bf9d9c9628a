use generic_arrayvec::index::{index_for_capacity, IndexKind, IndexType, PickIndexBreakpoints};

const KINDS: [IndexKind; 6] = [
    IndexKind::Unit,
    IndexKind::Bool,
    IndexKind::U8,
    IndexKind::U16,
    IndexKind::U32,
    IndexKind::Usize,
];

fn answers(b: [bool; 5]) -> PickIndexBreakpoints {
    PickIndexBreakpoints {
        less_than_1: b[0],
        less_than_2: b[1],
        less_than_256: b[2],
        less_than_65536: b[3],
        less_than_4294967296: b[4],
    }
}

#[test]
fn selects_the_row_of_the_table_at_each_boundary() {
    let table: [(u64, IndexKind); 9] = [
        (0, IndexKind::Unit),
        (1, IndexKind::Bool),
        (2, IndexKind::U8),
        (255, IndexKind::U8),
        (256, IndexKind::U16),
        (65535, IndexKind::U16),
        (65536, IndexKind::U32),
        (4294967295, IndexKind::U32),
        (4294967296, IndexKind::Usize),
    ];
    let mut checked = 0;
    for (capacity, expected) in table {
        // A capacity is a `usize`: the last row exists where `usize` is wider than 32 bits.
        if let Ok(capacity) = usize::try_from(capacity) {
            let kind = index_for_capacity(capacity);
            assert_eq!(kind, expected, "capacity {}", capacity);
            assert!(kind.max_value() >= capacity, "capacity {}", capacity);
            assert!(kind.can_hold(capacity));
            assert!(kind.admits(capacity));
            checked += 1;
        }
    }
    assert!(checked >= 8);
}

#[test]
fn capacity_256_selects_u16_not_u8() {
    assert_eq!(index_for_capacity(256), IndexKind::U16);
    assert_ne!(index_for_capacity(256), IndexKind::U8);
    assert_eq!(index_for_capacity(255), IndexKind::U8);
    assert!(!IndexKind::U8.can_hold(256));
    assert!(!IndexKind::U8.admits(256));
}

#[test]
fn three_elements_need_one_byte_and_a_hundred_thousand_need_four() {
    assert_eq!(index_for_capacity(3), IndexKind::U8);
    assert_eq!(index_for_capacity(3).bits(), 8);
    assert_eq!(index_for_capacity(100_000), IndexKind::U32);
    assert_eq!(index_for_capacity(100_000).bits(), 32);
}

#[test]
fn bits_are_those_of_the_type() {
    assert_eq!(IndexKind::Unit.bits(), 0);
    assert_eq!(IndexKind::Bool.bits(), 1);
    assert_eq!(IndexKind::U8.bits(), 8);
    assert_eq!(IndexKind::U16.bits(), 16);
    assert_eq!(IndexKind::U32.bits(), 32);
    assert_eq!(IndexKind::Usize.bits(), usize::BITS);
    assert_eq!(IndexKind::U8.bits(), u8::BITS);
    assert_eq!(IndexKind::U16.bits(), u16::BITS);
    assert_eq!(IndexKind::U32.bits(), u32::BITS);
}

#[test]
fn a_wider_kind_holds_what_a_narrower_one_holds() {
    for narrow in KINDS {
        for wide in KINDS {
            if narrow.bits() <= wide.bits() {
                assert!(narrow.max_value() <= wide.max_value());
            }
        }
    }
}

#[test]
fn max_value_is_that_of_the_type() {
    assert_eq!(IndexKind::Unit.max_value(), 0);
    assert_eq!(IndexKind::Bool.max_value(), 1);
    assert_eq!(IndexKind::U8.max_value(), 255);
    assert_eq!(IndexKind::U16.max_value(), 65535);
    assert_eq!(IndexKind::U32.max_value(), 4294967295);
    assert_eq!(IndexKind::Usize.max_value(), usize::MAX);
    assert_eq!(IndexKind::U8.max_value(), usize::from(u8::MAX));
    assert_eq!(IndexKind::U16.max_value(), usize::from(u16::MAX));
}

#[test]
fn can_hold_ends_at_the_max_value() {
    assert!(IndexKind::Unit.can_hold(0));
    assert!(!IndexKind::Unit.can_hold(1));
    assert!(IndexKind::Bool.can_hold(1));
    assert!(!IndexKind::Bool.can_hold(2));
    assert!(IndexKind::U8.can_hold(255));
    assert!(!IndexKind::U8.can_hold(256));
    assert!(IndexKind::U16.can_hold(65535));
    assert!(!IndexKind::U16.can_hold(65536));
    assert!(IndexKind::U32.can_hold(4294967295));
    assert!(IndexKind::Usize.can_hold(usize::MAX));
}

#[test]
fn admits_follows_the_rule_of_each_kind() {
    assert!(IndexKind::Unit.admits(0));
    assert!(!IndexKind::Unit.admits(1));
    assert!(!IndexKind::Bool.admits(0));
    assert!(IndexKind::Bool.admits(1));
    assert!(!IndexKind::Bool.admits(2));
    assert!(IndexKind::U8.admits(0));
    assert!(IndexKind::U8.admits(255));
    assert!(!IndexKind::U8.admits(256));
    assert!(IndexKind::U16.admits(256));
    assert!(IndexKind::U16.admits(65535));
    assert!(!IndexKind::U16.admits(65536));
    assert!(IndexKind::U32.admits(65536));
    assert!(IndexKind::U32.admits(4294967295));
    assert!(IndexKind::Usize.admits(0));
    assert!(IndexKind::Usize.admits(usize::MAX));
    if let Ok(capacity) = usize::try_from(4294967296u64) {
        assert!(!IndexKind::U32.admits(capacity));
        assert!(IndexKind::Usize.admits(capacity));
    }
}

#[test]
fn an_admitted_kind_holds_the_capacity() {
    for capacity in [0usize, 1, 2, 3, 100, 255, 256, 1000, 65535, 65536, 100_000] {
        for kind in KINDS {
            if kind.admits(capacity) {
                assert!(kind.can_hold(capacity), "{:?} at {}", kind, capacity);
            }
        }
    }
}

#[test]
fn chosen_kind_holds_every_length_up_to_the_capacity() {
    for capacity in [0usize, 1, 2, 3, 41, 255, 256, 257, 1000] {
        let kind = index_for_capacity(capacity);
        for length in 0..=capacity {
            assert!(kind.can_hold(length), "length {} of {}", length, capacity);
        }
    }
}

#[test]
fn no_kind_that_holds_the_capacity_is_narrower_than_the_chosen_one() {
    for capacity in [0usize, 1, 2, 255, 256, 65535, 65536, 100_000, 4294967295] {
        let chosen = index_for_capacity(capacity);
        for other in KINDS {
            if other.can_hold(capacity) {
                assert!(chosen.bits() <= other.bits());
                assert!(chosen.max_value() <= other.max_value());
            } else {
                assert!(other.max_value() < chosen.max_value());
            }
        }
    }
}

#[test]
fn breakpoints_of_a_capacity() {
    assert_eq!(PickIndexBreakpoints::for_capacity(0), answers([true, true, true, true, true]));
    assert_eq!(PickIndexBreakpoints::for_capacity(1), answers([false, true, true, true, true]));
    assert_eq!(PickIndexBreakpoints::for_capacity(2), answers([false, false, true, true, true]));
    assert_eq!(PickIndexBreakpoints::for_capacity(255), answers([false, false, true, true, true]));
    assert_eq!(PickIndexBreakpoints::for_capacity(256), answers([false, false, false, true, true]));
    assert_eq!(
        PickIndexBreakpoints::for_capacity(65535),
        answers([false, false, false, true, true])
    );
    assert_eq!(
        PickIndexBreakpoints::for_capacity(65536),
        answers([false, false, false, false, true])
    );
    assert_eq!(
        PickIndexBreakpoints::for_capacity(4294967295),
        answers([false, false, false, false, true])
    );
    if let Ok(capacity) = usize::try_from(4294967296u64) {
        assert_eq!(
            PickIndexBreakpoints::for_capacity(capacity),
            answers([false, false, false, false, false])
        );
    }
}

#[test]
fn pick_index_has_a_row_for_each_of_the_six_sets_of_answers() {
    assert_eq!(answers([true, true, true, true, true]).pick_index(), Some(IndexKind::Unit));
    assert_eq!(answers([false, true, true, true, true]).pick_index(), Some(IndexKind::Bool));
    assert_eq!(answers([false, false, true, true, true]).pick_index(), Some(IndexKind::U8));
    assert_eq!(answers([false, false, false, true, true]).pick_index(), Some(IndexKind::U16));
    assert_eq!(answers([false, false, false, false, true]).pick_index(), Some(IndexKind::U32));
    assert_eq!(answers([false, false, false, false, false]).pick_index(), Some(IndexKind::Usize));
}

#[test]
fn pick_index_has_no_row_for_answers_that_no_capacity_gives() {
    assert_eq!(answers([true, false, true, true, true]).pick_index(), None);
    assert_eq!(answers([false, true, false, true, true]).pick_index(), None);
    assert_eq!(answers([false, false, true, false, true]).pick_index(), None);
    assert_eq!(answers([false, false, false, true, false]).pick_index(), None);
    assert_eq!(answers([true, true, true, true, false]).pick_index(), None);
    let mut rows = 0;
    for bits in 0u8..32 {
        let b = [bits & 1 != 0, bits & 2 != 0, bits & 4 != 0, bits & 8 != 0, bits & 16 != 0];
        let ordered = (!b[0] || b[1]) && (!b[1] || b[2]) && (!b[2] || b[3]) && (!b[3] || b[4]);
        let picked = answers(b).pick_index();
        assert_eq!(picked.is_some(), ordered, "{:?}", b);
        if picked.is_some() {
            rows += 1;
        }
    }
    assert_eq!(rows, 6);
}

#[test]
fn the_row_of_a_capacity_is_the_chosen_kind() {
    for capacity in [0usize, 1, 2, 3, 254, 255, 256, 257, 65535, 65536, 65537, 4294967295] {
        assert_eq!(
            PickIndexBreakpoints::for_capacity(capacity).pick_index(),
            Some(index_for_capacity(capacity))
        );
    }
    assert_eq!(
        PickIndexBreakpoints::for_capacity(usize::MAX).pick_index(),
        Some(index_for_capacity(usize::MAX))
    );
}

#[test]
fn index_types_name_their_kind() {
    assert_eq!(<() as IndexType>::kind(), IndexKind::Unit);
    assert_eq!(<bool as IndexType>::kind(), IndexKind::Bool);
    assert_eq!(<u8 as IndexType>::kind(), IndexKind::U8);
    assert_eq!(<u16 as IndexType>::kind(), IndexKind::U16);
    assert_eq!(<u32 as IndexType>::kind(), IndexKind::U32);
    assert_eq!(<usize as IndexType>::kind(), IndexKind::Usize);
}
