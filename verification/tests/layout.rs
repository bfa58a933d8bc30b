use repr_c_wrapper::{capacity_for, check_layout, words_for_bytes, LayoutError, ReprCWrapper, WORD_BYTES};

#[test]
fn a_word_is_eight_bytes() {
    assert_eq!(WORD_BYTES, 8);
    assert_eq!(WORD_BYTES, std::mem::size_of::<u64>());
}

#[test]
fn words_round_up() {
    assert_eq!(words_for_bytes(0), 0);
    assert_eq!(words_for_bytes(1), 1);
    assert_eq!(words_for_bytes(3), 1);
    assert_eq!(words_for_bytes(7), 1);
    assert_eq!(words_for_bytes(8), 1);
    assert_eq!(words_for_bytes(9), 2);
    assert_eq!(words_for_bytes(16), 2);
    assert_eq!(words_for_bytes(24), 3);
    assert_eq!(words_for_bytes(256), 32);
    assert_eq!(words_for_bytes(257), 33);
}

#[test]
fn words_for_the_largest_size_do_not_overflow() {
    assert_eq!(words_for_bytes(usize::MAX), usize::MAX / 8 + 1);
    assert_eq!(words_for_bytes(usize::MAX - 7), usize::MAX / 8);
}

#[test]
fn words_are_the_least_cover() {
    for bytes in 0..200usize {
        let words = words_for_bytes(bytes);
        assert!(words * WORD_BYTES >= bytes);
        assert!(words * WORD_BYTES < bytes + WORD_BYTES);
    }
}

#[test]
fn capacity_of_a_three_byte_value_is_one_word() {
    assert_eq!(capacity_for::<[u8; 3]>(), 1);
    assert_eq!(std::mem::size_of::<ReprCWrapper<1, [u8; 3]>>(), 8);
}

#[test]
fn capacity_follows_the_size_of_the_type() {
    assert_eq!(capacity_for::<()>(), 0);
    assert_eq!(capacity_for::<u8>(), 1);
    assert_eq!(capacity_for::<u64>(), 1);
    assert_eq!(capacity_for::<[u8; 9]>(), 2);
    assert_eq!(capacity_for::<[u64; 4]>(), 4);
    assert_eq!(capacity_for::<String>(), (std::mem::size_of::<String>() + 7) / 8);
    assert_eq!(capacity_for::<Vec<usize>>(), (std::mem::size_of::<Vec<usize>>() + 7) / 8);
}

#[test]
fn rule_admits_a_matching_layout() {
    assert_eq!(check_layout(8, 8, 24, 3), Ok(()));
    assert_eq!(check_layout(1, 8, 3, 1), Ok(()));
    assert_eq!(check_layout(4, 8, 4, 1), Ok(()));
    assert_eq!(check_layout(1, 8, 0, 0), Ok(()));
    assert_eq!(check_layout(8, 8, 8, 1), Ok(()));
}

#[test]
fn rule_refuses_a_stricter_alignment() {
    assert_eq!(check_layout(256, 8, 256, 32), Err(LayoutError::AlignmentViolation));
    assert_eq!(check_layout(16, 8, 16, 2), Err(LayoutError::AlignmentViolation));
    assert_eq!(check_layout(8, 4, 8, 1), Err(LayoutError::AlignmentViolation));
}

#[test]
fn rule_refuses_a_wrong_capacity() {
    assert_eq!(check_layout(8, 8, 24, 2), Err(LayoutError::CapacityMismatch));
    assert_eq!(check_layout(8, 8, 24, 4), Err(LayoutError::CapacityMismatch));
    assert_eq!(check_layout(1, 8, 3, 0), Err(LayoutError::CapacityMismatch));
    assert_eq!(check_layout(1, 8, 0, 1), Err(LayoutError::CapacityMismatch));
}

#[test]
fn rule_judges_alignment_first() {
    assert_eq!(check_layout(256, 8, 256, 1), Err(LayoutError::AlignmentViolation));
}

#[test]
fn cell_types_are_checked_against_the_rule() {
    assert_eq!(ReprCWrapper::<1, u64>::check(), Ok(()));
    assert_eq!(ReprCWrapper::<1, [u8; 3]>::check(), Ok(()));
    assert_eq!(ReprCWrapper::<0, ()>::check(), Ok(()));
    assert_eq!(ReprCWrapper::<2, u64>::check(), Err(LayoutError::CapacityMismatch));
    assert_eq!(ReprCWrapper::<0, u64>::check(), Err(LayoutError::CapacityMismatch));
    assert_eq!(ReprCWrapper::<1, [u64; 2]>::check(), Err(LayoutError::CapacityMismatch));
    assert_eq!(ReprCWrapper::<2, u128>::check(), Err(LayoutError::AlignmentViolation));
}

#[test]
fn errors_can_be_copied_and_printed() {
    let fault = LayoutError::CapacityMismatch;
    let copy = fault;
    assert_eq!(fault, copy);
    assert_ne!(fault, LayoutError::AlignmentViolation);
    assert_eq!(format!("{:?}", fault), "CapacityMismatch");
    assert_eq!(format!("{:?}", LayoutError::AlignmentViolation), "AlignmentViolation");
}
