use solana_sdk::hash;
use solana_sdk::instruction::AccountMeta;
use solana_sdk::pubkey::Pubkey;
use solana_sdk::signature::{Keypair, Signer};
use solana_sdk::system_instruction::SystemInstruction;
use solana_sdk::system_program;
use transfer_with::amount::select_amount;
use transfer_with::instruction::{transfer_amount_of, transfer_with};
use transfer_with::pipeline::{after, failure_class, failure_context, ErrorClass, Next, Stage};
use transfer_with::transaction::{sign_transaction, transfer_transaction};

#[test]
fn amount_is_zero_for_balances_below_two() {
    for _ in 0..100 {
        assert_eq!(select_amount(0), 0);
        assert_eq!(select_amount(1), 0);
    }
}

#[test]
fn amount_stays_below_half_the_balance() {
    for _ in 0..500 {
        assert!(select_amount(1_000_000) < 500_000);
        assert!(select_amount(3) < 1);
        assert!(select_amount(u64::MAX) < u64::MAX / 2);
    }
}

#[test]
fn amount_reaches_every_value_of_a_small_range() {
    let mut seen = [false; 5];
    for _ in 0..2000 {
        let a = select_amount(10);
        assert!(a < 5);
        seen[a as usize] = true;
    }
    assert!(seen.iter().all(|s| *s));
}

#[test]
fn transfer_without_extras_has_two_accounts() {
    let from = Pubkey::new_unique();
    let amount = select_amount(1_000_000);
    assert!(amount < 500_000);
    let ix = transfer_with(&from, &from, amount, &[]);
    assert_eq!(ix.accounts.len(), 2);
    assert_eq!(ix.accounts[0], AccountMeta::new(from, true));
    assert_eq!(ix.accounts[1], AccountMeta::new(from, false));
}

#[test]
fn transfer_keeps_extras_in_order_and_read_only() {
    let from = Pubkey::new_unique();
    let to = Pubkey::new_unique();
    let x = Pubkey::new_unique();
    let y = Pubkey::new_unique();
    let ix = transfer_with(&from, &to, 7, &[x, y]);
    assert_eq!(ix.accounts.len(), 4);
    assert_eq!(ix.accounts[0], AccountMeta { pubkey: from, is_signer: true, is_writable: true });
    assert_eq!(ix.accounts[1], AccountMeta { pubkey: to, is_signer: false, is_writable: true });
    assert_eq!(ix.accounts[2], AccountMeta { pubkey: x, is_signer: false, is_writable: false });
    assert_eq!(ix.accounts[3], AccountMeta { pubkey: y, is_signer: false, is_writable: false });
}

#[test]
fn transfer_passes_duplicate_keys_through() {
    let from = Pubkey::new_unique();
    let ix = transfer_with(&from, &from, 1, &[from, from]);
    assert_eq!(ix.accounts.len(), 4);
    assert_eq!(ix.accounts[2], AccountMeta::new_readonly(from, false));
    assert_eq!(ix.accounts[3], AccountMeta::new_readonly(from, false));
}

#[test]
fn transfer_targets_the_system_program() {
    let from = Pubkey::new_unique();
    let ix = transfer_with(&from, &from, 5, &[]);
    assert_eq!(ix.program_id, system_program::id());
}

#[test]
fn transfer_payload_bytes() {
    let from = Pubkey::new_unique();
    let ix = transfer_with(&from, &from, 42, &[]);
    assert_eq!(ix.data, vec![2, 0, 0, 0, 42, 0, 0, 0, 0, 0, 0, 0]);
    let ix = transfer_with(&from, &from, 0x0102_0304_0506_0708, &[]);
    assert_eq!(ix.data, vec![2, 0, 0, 0, 8, 7, 6, 5, 4, 3, 2, 1]);
    let decoded: SystemInstruction = solana_sdk::program_utils::limited_deserialize(&ix.data).unwrap();
    assert_eq!(decoded, SystemInstruction::Transfer { lamports: 0x0102_0304_0506_0708 });
}

#[test]
fn transfer_payload_round_trip() {
    let from = Pubkey::new_unique();
    for v in [0u64, 1, 255, 256, 500_000, u64::MAX - 1, u64::MAX] {
        let ix = transfer_with(&from, &from, v, &[]);
        assert_eq!(transfer_amount_of(&ix.data), Some(v));
    }
}

#[test]
fn transfer_amount_of_rejects_other_payloads() {
    assert_eq!(transfer_amount_of(&[]), None);
    assert_eq!(transfer_amount_of(&[2, 0, 0, 0, 1, 0, 0, 0, 0, 0, 0]), None);
    assert_eq!(transfer_amount_of(&[0, 0, 0, 0, 1, 0, 0, 0, 0, 0, 0, 0]), None);
    assert_eq!(transfer_amount_of(&[2, 0, 0, 1, 1, 0, 0, 0, 0, 0, 0, 0]), None);
    assert_eq!(transfer_amount_of(&[2, 0, 0, 0, 1, 0, 0, 0, 0, 0, 0, 0]), Some(1));
}

#[test]
fn zero_balance_still_builds_a_transaction() {
    let payer = Pubkey::new_unique();
    let amount = select_amount(0);
    assert_eq!(amount, 0);
    let tx = transfer_transaction(&payer, amount, &[]);
    assert_eq!(tx.message.account_keys[0], payer);
    assert_eq!(tx.message.header.num_required_signatures, 1);
    assert_eq!(tx.message.header.num_readonly_signed_accounts, 0);
    assert_eq!(tx.signatures.len(), 1);
    assert_eq!(tx.message.instructions.len(), 1);
    assert_eq!(transfer_amount_of(&tx.message.instructions[0].data), Some(0));
}

#[test]
fn transaction_keeps_extra_accounts_read_only() {
    let payer = Pubkey::new_unique();
    let x = Pubkey::new_unique();
    let y = Pubkey::new_unique();
    let tx = transfer_transaction(&payer, 9, &[x, y]);
    assert!(tx.message.account_keys.contains(&x));
    assert!(tx.message.account_keys.contains(&y));
    assert_eq!(tx.message.header.num_readonly_unsigned_accounts, 3);
    let ci = &tx.message.instructions[0];
    let key = |i: usize| tx.message.account_keys[ci.accounts[i] as usize];
    assert_eq!(ci.accounts.len(), 4);
    assert_eq!(key(0), payer);
    assert_eq!(key(1), payer);
    assert_eq!(key(2), x);
    assert_eq!(key(3), y);
    assert_eq!(tx.message.account_keys[ci.program_id_index as usize], system_program::id());
    assert!(!tx.message.is_writable(ci.accounts[2] as usize));
    assert_eq!(transfer_amount_of(&tx.message.instructions[0].data), Some(9));
}

#[test]
fn signing_sets_the_anchor_and_signs() {
    let kp = Keypair::new();
    let mut tx = transfer_transaction(&kp.pubkey(), 3, &[Pubkey::new_unique()]);
    let anchor = hash::Hash::new_unique();
    assert_eq!(sign_transaction(&mut tx, &[&kp], anchor), Ok(()));
    assert_eq!(tx.message.recent_blockhash, anchor);
    assert!(tx.is_signed());
    assert!(tx.verify().is_ok());
}

#[test]
fn signing_with_the_wrong_key_fails() {
    let kp = Keypair::new();
    let other = Keypair::new();
    let mut tx = transfer_transaction(&kp.pubkey(), 3, &[]);
    let r = sign_transaction(&mut tx, &[&other], hash::Hash::new_unique());
    assert!(!r.unwrap_err().is_empty());
    assert!(!tx.is_signed());
    assert_eq!(failure_class(Stage::Sign), ErrorClass::Signing);
}

#[test]
fn anchor_failure_halts_before_signing() {
    assert_eq!(after(Stage::QueryBalance, true), Next::Run(Stage::QueryAnchor));
    assert_eq!(after(Stage::QueryAnchor, false), Next::Halt(ErrorClass::Query));
    assert_eq!(after(Stage::QueryAnchor, true), Next::Run(Stage::Sign));
    assert_eq!(failure_context(Stage::QueryAnchor), "unable to get latest blockhash");
}

#[test]
fn submission_failure_is_reported_apart_from_query_failure() {
    assert_eq!(after(Stage::Sign, true), Next::Run(Stage::Submit));
    assert_eq!(after(Stage::Submit, false), Next::Halt(ErrorClass::Submission));
    assert_ne!(failure_class(Stage::Submit), failure_class(Stage::QueryAnchor));
    assert_ne!(failure_context(Stage::Submit), failure_context(Stage::QueryAnchor));
    assert_eq!(after(Stage::Submit, true), Next::Finished);
    assert_eq!(after(Stage::QueryBalance, false), Next::Halt(ErrorClass::Query));
    assert_eq!(after(Stage::Sign, false), Next::Halt(ErrorClass::Signing));
    assert_eq!(failure_context(Stage::QueryBalance), "unable to get balance");
    assert_eq!(failure_context(Stage::Sign), "failed to sign transaction");
    assert_eq!(failure_context(Stage::Submit), "send transaction");
}
