//! Memos, staking decisions and membership handles.

use runtime_modules::handles::{get_byte, handle_from_id};
use runtime_modules::memo::{Error, Module, DEFAULT_MAX_MEMO_LENGTH};
use runtime_modules::staking::{unstaked, unstaked_for_member, Unstaked};

#[test]
fn memo_is_published_by_an_account_with_a_balance() {
    let mut module = Module::new();
    assert_eq!(module.max_memo_length(), 4096);
    assert_eq!(DEFAULT_MAX_MEMO_LENGTH, 4096);
    assert_eq!(module.memo(1), Vec::<u8>::new());

    assert_eq!(module.update_memo(1, 5, b"hello".to_vec()), Ok(()));
    assert_eq!(module.memo(1), b"hello".to_vec());
    assert_eq!(module.memo(2), Vec::<u8>::new());
    assert_eq!(module.update_memo(1, 1, b"again".to_vec()), Ok(()));
    assert_eq!(module.memo(1), b"again".to_vec());
    assert_eq!(module.update_memo(1, u64::MAX, vec![]), Ok(()));
    assert_eq!(module.memo(1), Vec::<u8>::new());
}

#[test]
fn memo_is_refused_for_each_reason() {
    let mut module = Module::new();
    module.update_memo(1, 5, b"kept".to_vec()).unwrap();

    assert_eq!(module.update_memo(1, 0, b"x".to_vec()), Err(Error::AccountMustHaveABalance));
    assert_eq!(module.update_memo(1, 5, vec![0u8; 4097]), Err(Error::MemoTooLong));
    // An account without a balance is told so before the length is looked at.
    assert_eq!(module.update_memo(1, 0, vec![0u8; 4097]), Err(Error::AccountMustHaveABalance));
    assert_eq!(module.memo(1), b"kept".to_vec());

    assert_eq!(module.update_memo(1, 5, vec![7u8; 4096]), Ok(()));
    assert_eq!(module.memo(1), vec![7u8; 4096]);

    assert_eq!(Error::AccountMustHaveABalance.message(), "account must have a balance");
    assert_eq!(Error::MemoTooLong.message(), "memo too long");
}

#[test]
fn released_stake_is_refunded_to_a_member_of_the_group() {
    assert_eq!(unstaked(None), Unstaked::PassOn);
    assert_eq!(unstaked(Some(17)), Unstaked::LookUpMember(17));
    assert_eq!(unstaked(Some(0)), Unstaked::LookUpMember(0));
    assert_eq!(unstaked_for_member(5, true), Unstaked::RefundWorkingGroupStake(5));
    assert_eq!(unstaked_for_member(5, false), Unstaked::PassOn);
}

#[test]
fn byte_is_taken_from_its_position() {
    assert_eq!(get_byte(0x0102_0304, 0), 0x04);
    assert_eq!(get_byte(0x0102_0304, 1), 0x03);
    assert_eq!(get_byte(0x0102_0304, 2), 0x02);
    assert_eq!(get_byte(0x0102_0304, 3), 0x01);
    assert_eq!(get_byte(0, 3), 0);
    assert_eq!(get_byte(u32::MAX, 0), 0xff);
    assert_eq!(get_byte(u32::MAX, 3), 0xff);
    assert_eq!(get_byte(256, 0), 0);
    assert_eq!(get_byte(256, 1), 1);
}

#[test]
fn handle_holds_the_bytes_of_the_index() {
    assert_eq!(handle_from_id(0), vec![0, 0, 0, 0]);
    assert_eq!(handle_from_id(1), vec![1, 0, 0, 0]);
    assert_eq!(handle_from_id(0x0102_0304), vec![4, 3, 2, 1]);
    assert_eq!(handle_from_id(u32::MAX), vec![255, 255, 255, 255]);
    assert_eq!(handle_from_id(70000), 70000u32.to_le_bytes().to_vec());
    assert_ne!(handle_from_id(1), handle_from_id(256));
}
