use shitpost_pro::pubkey::Pubkey;
use shitpost_pro::service::{
    settle, token_program, AccountMeta, Instruction, Receipt, ServiceCall, ServiceFailed,
    ServiceReply,
};

fn key(n: u8) -> Pubkey {
    Pubkey::new_from_array([n; 32])
}

fn receipt(calls: usize) -> Receipt<u32> {
    let mut list = Vec::new();
    for _ in 0..calls {
        list.push(ServiceCall::Transfer { from: key(1), to: key(2), lamports: 5 });
    }
    Receipt { calls: list, event: 77 }
}

#[test]
fn settle_keeps_the_new_state_when_every_call_was_done() {
    let outcome = settle(1u8, 2u8, receipt(2), &vec![ServiceReply::Done, ServiceReply::Done]);
    assert_eq!(outcome, (2, Ok(77)));
}

#[test]
fn settle_without_calls_commits() {
    let outcome = settle(1u8, 2u8, receipt(0), &vec![]);
    assert_eq!(outcome, (2, Ok(77)));
}

#[test]
fn settle_restores_the_old_state_when_a_call_failed() {
    let first = settle(1u8, 2u8, receipt(2), &vec![ServiceReply::Failed, ServiceReply::Done]);
    assert_eq!(first, (1, Err(ServiceFailed)));
    let last = settle(1u8, 2u8, receipt(2), &vec![ServiceReply::Done, ServiceReply::Failed]);
    assert_eq!(last, (1, Err(ServiceFailed)));
}

#[test]
fn settle_restores_the_old_state_when_replies_are_missing_or_too_many() {
    let missing = settle(1u8, 2u8, receipt(2), &vec![ServiceReply::Done]);
    assert_eq!(missing, (1, Err(ServiceFailed)));
    let too_many = settle(1u8, 2u8, receipt(1), &vec![ServiceReply::Done, ServiceReply::Done]);
    assert_eq!(too_many, (1, Err(ServiceFailed)));
}

#[test]
fn token_program_is_the_spl_token_program() {
    assert_eq!(token_program().to_bytes(), anchor_spl::token::ID.to_bytes());
}

#[test]
fn account_meta_and_instruction_from_parts() {
    let meta = AccountMeta::from_parts([9; 32], true, false);
    assert_eq!(meta.pubkey, key(9));
    assert!(meta.is_signer);
    assert!(!meta.is_writable);
    let ix = Instruction::from_parts([4; 32], vec![meta], vec![1, 2, 3]);
    assert_eq!(ix.program_id, key(4));
    assert_eq!(ix.accounts.len(), 1);
    assert_eq!(ix.data, vec![1, 2, 3]);
}
