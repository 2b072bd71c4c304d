use secure_eraser::blocks::{verify_erase, VerificationResult, BLOCK_SIZE};
use secure_eraser::eraser::fill_buffer;

#[test]
fn fully_overwritten_target_verifies() {
    let expected = fill_buffer(0xAA);
    let target = vec![0xAAu8; 2 * BLOCK_SIZE];
    assert_eq!(verify_erase(&target, &expected, 10), VerificationResult::Verified);
}

#[test]
fn mismatch_in_first_block_reports_index_zero() {
    let expected = fill_buffer(0xAA);
    let mut target = vec![0xAAu8; 2 * BLOCK_SIZE];
    target[123] = 0x00;
    assert_eq!(verify_erase(&target, &expected, 10), VerificationResult::Mismatch(0));
}

#[test]
fn mismatch_in_second_block_reports_index_one() {
    let expected = fill_buffer(0xAA);
    let mut target = vec![0xAAu8; 2 * BLOCK_SIZE];
    target[BLOCK_SIZE + 5] = 0x00;
    assert_eq!(verify_erase(&target, &expected, 10), VerificationResult::Mismatch(1));
}

#[test]
fn empty_target_verifies_trivially() {
    let expected = fill_buffer(0xAA);
    let target: Vec<u8> = Vec::new();
    assert_eq!(verify_erase(&target, &expected, 10), VerificationResult::Verified);
}

#[test]
fn partial_trailing_block_is_not_sampled() {
    // One full block plus a tail: only the full block is compared, so a
    // differing tail does not fail verification.
    let expected = fill_buffer(0xAA);
    let mut target = vec![0xAAu8; BLOCK_SIZE + 17];
    for b in target[BLOCK_SIZE..].iter_mut() {
        *b = 0x00;
    }
    assert_eq!(verify_erase(&target, &expected, 10), VerificationResult::Verified);
}

#[test]
fn sample_count_bounds_the_blocks_read() {
    // A mismatch beyond the requested sample is never seen.
    let expected = fill_buffer(0xAA);
    let mut target = vec![0xAAu8; 3 * BLOCK_SIZE];
    target[2 * BLOCK_SIZE] = 0x00;
    assert_eq!(verify_erase(&target, &expected, 2), VerificationResult::Verified);
    assert_eq!(verify_erase(&target, &expected, 3), VerificationResult::Mismatch(2));
}
