use secure_eraser::blocks::{VerificationResult, WriteError, BLOCK_SIZE};
use secure_eraser::eraser::{SecureEraser, WriteFault};
use secure_eraser::policy::WipePattern;

#[test]
fn empty_target_completes_immediately() {
    let mut eraser = SecureEraser::new();
    let mut target: Vec<u8> = Vec::new();
    let rep = eraser
        .secure_erase(&mut target, WipePattern::Dod3Pass, true, None)
        .unwrap();
    assert_eq!(rep.passes_completed, 3);
    assert_eq!(rep.bytes_written, 0);
    assert_eq!(rep.verification, Some(VerificationResult::Verified));
    assert!(target.is_empty());
}

#[test]
fn dod3_on_block_plus_tail_writes_three_passes() {
    let len = BLOCK_SIZE + 17;
    let mut eraser = SecureEraser::new();
    let mut target = vec![0xEEu8; len];
    let rep = eraser
        .secure_erase(&mut target, WipePattern::Dod3Pass, false, None)
        .unwrap();
    assert_eq!(rep.passes_completed, 3);
    assert_eq!(rep.bytes_written, 3 * len as u128);
    assert_eq!(rep.verification, None);
    assert_eq!(target.len(), len);
}

#[test]
fn zeros_with_verification_succeeds_and_clears_target() {
    let len = BLOCK_SIZE + 17;
    let mut eraser = SecureEraser::new();
    let mut target = vec![0xEEu8; len];
    let rep = eraser
        .secure_erase(&mut target, WipePattern::Zeros, true, None)
        .unwrap();
    assert_eq!(rep.passes_completed, 1);
    assert_eq!(rep.bytes_written, len as u128);
    assert_eq!(rep.verification, Some(VerificationResult::Verified));
    assert!(target.iter().all(|&b| b == 0x00));
}

#[test]
fn gutmann35_leaves_its_final_fixed_pattern() {
    let len = BLOCK_SIZE + 17;
    let mut eraser = SecureEraser::new();
    let mut target = vec![0xEEu8; len];
    let rep = eraser
        .secure_erase(&mut target, WipePattern::Gutmann35, true, None)
        .unwrap();
    assert_eq!(rep.passes_completed, 9);
    assert_eq!(rep.bytes_written, 9 * len as u128);
    assert_eq!(rep.verification, Some(VerificationResult::Verified));
    assert!(target.iter().all(|&b| b == 0x24));
}

#[test]
fn fault_on_block_five_of_second_pass_aborts_there() {
    let len = 6 * BLOCK_SIZE;
    let mut eraser = SecureEraser::new();
    let mut target = vec![0xEEu8; len];
    let fault = WriteFault { pass_index: 1, block_index: 5 };
    let err = eraser
        .secure_erase(&mut target, WipePattern::Gutmann35, false, Some(fault))
        .unwrap_err();
    assert_eq!(err.error, WriteError::Io);
    assert_eq!(err.pass_index, 1);
    assert_eq!(err.blocks_written, 5);
    assert_eq!(err.bytes_written, (len + 5 * BLOCK_SIZE) as u128);
    assert_eq!(target.len(), len);
}

#[test]
fn fault_past_the_run_never_fires() {
    let len = BLOCK_SIZE + 17;
    let mut eraser = SecureEraser::new();
    let mut target = vec![0xEEu8; len];
    let fault = WriteFault { pass_index: 1, block_index: 0 };
    let rep = eraser
        .secure_erase(&mut target, WipePattern::Ones, false, Some(fault))
        .unwrap();
    assert_eq!(rep.passes_completed, 1);
    assert!(target.iter().all(|&b| b == 0xFF));
}
