#![allow(deprecated)]

use payment::error::{PaymentError, ProcessError};
use payment::processor::{AccountView, ProcessEffects, Processor};
use payment::state::{STATUS_COMPLETED, STATUS_REFUNDED};
use spl_token::solana_program::program_option::COption;
use spl_token::solana_program::program_pack::Pack;
use spl_token::solana_program::pubkey::Pubkey as TokenPubkey;

fn key(b: u8) -> [u8; 32] {
    [b; 32]
}

fn acct(key: [u8; 32], is_signer: bool, data: Vec<u8>) -> AccountView {
    AccountView { key, is_signer, data }
}

fn token_account_bytes(mint: [u8; 32], amount: u64) -> Vec<u8> {
    let account = spl_token::state::Account {
        mint: TokenPubkey::new_from_array(mint),
        owner: TokenPubkey::new_from_array([9u8; 32]),
        amount,
        delegate: COption::None,
        state: spl_token::state::AccountState::Initialized,
        is_native: COption::None,
        delegated_amount: 0,
        close_authority: COption::None,
    };
    let mut data = vec![0u8; 165];
    spl_token::state::Account::pack(account, &mut data).unwrap();
    data
}

fn payment_accounts_with_fee(program_id: &[u8; 32], payer_balance: u64) -> Vec<AccountView> {
    let (payment_addr, _) =
        payment::pda::derive_payment_address(&key(1), &key(2), program_id).unwrap();
    vec![
        acct(key(1), true, vec![]),
        acct(payment_addr, false, vec![]),
        acct(key(4), false, token_account_bytes(key(3), payer_balance)),
        acct(key(5), false, token_account_bytes(key(3), 0)),
        acct(key(6), false, token_account_bytes(key(3), 0)),
        acct(key(2), false, vec![]),
        acct(key(3), false, vec![]),
        acct(key(10), false, vec![]),
        acct(key(11), false, vec![]),
        acct(key(12), false, vec![]),
    ]
}

fn payment_accounts_no_fee(program_id: &[u8; 32], payer_balance: u64) -> Vec<AccountView> {
    let (payment_addr, _) =
        payment::pda::derive_payment_address(&key(1), &key(2), program_id).unwrap();
    vec![
        acct(key(1), true, vec![]),
        acct(payment_addr, false, vec![]),
        acct(key(4), false, token_account_bytes(key(3), payer_balance)),
        acct(key(5), false, token_account_bytes(key(3), 0)),
        acct(key(2), false, vec![]),
        acct(key(3), false, vec![]),
        acct(key(10), false, vec![]),
        acct(key(11), false, vec![]),
        acct(key(12), false, vec![]),
    ]
}

#[test]
fn derived_config_address_matches_host_derivation() {
    let authority = key(1);
    let program_id = key(7);
    let (addr, bump) = payment::pda::derive_config_address(&authority, &program_id).unwrap();
    let pid = solana_program::pubkey::Pubkey::new_from_array(program_id);
    let (expected, expected_bump) = solana_program::pubkey::Pubkey::find_program_address(
        &[b"config", authority.as_ref()],
        &pid,
    );
    assert_eq!(addr, expected.to_bytes());
    assert_eq!(bump, expected_bump);
    assert_ne!(addr, authority);
}

#[test]
fn derived_payment_address_matches_host_derivation() {
    let payer = key(1);
    let recipient = key(2);
    let program_id = key(7);
    let (addr, bump) =
        payment::pda::derive_payment_address(&payer, &recipient, &program_id).unwrap();
    let pid = solana_program::pubkey::Pubkey::new_from_array(program_id);
    let (expected, expected_bump) = solana_program::pubkey::Pubkey::find_program_address(
        &[b"payment", payer.as_ref(), recipient.as_ref()],
        &pid,
    );
    assert_eq!(addr, expected.to_bytes());
    assert_eq!(bump, expected_bump);
}

#[test]
fn initialize_config_succeeds_at_derived_address() {
    let program_id = key(7);
    let authority = key(1);
    let (config_addr, bump) =
        payment::pda::derive_config_address(&authority, &program_id).unwrap();
    let accounts = vec![
        acct(authority, true, vec![]),
        acct(config_addr, false, vec![]),
        acct(key(3), false, vec![]),
        acct(key(8), false, vec![]),
        acct(key(11), false, vec![]),
    ];
    let e = Processor::process_initialize_config(&program_id, &accounts, 250).unwrap();
    assert_eq!(e.create.address, config_addr);
    assert_eq!(e.create.funder, authority);
    assert_eq!(e.create.space, 99);
    assert_eq!(e.create.bump, bump);
    assert_eq!(e.config.authority, authority);
    assert_eq!(e.config.accepted_mint, key(3));
    assert_eq!(e.config.fee_bps, 250);
    assert_eq!(e.config.fee_recipient, key(8));
    assert_eq!(e.config.bump, bump);
    assert_eq!(e.record_data.len(), 99);
    assert_eq!(&e.record_data[0..32], authority.as_ref());
    assert_eq!(&e.record_data[64..66], &[250u8, 0u8]);
    assert_eq!(e.record_data[98], bump);
}

#[test]
fn initialize_config_rejects_wrong_address() {
    let program_id = key(7);
    let accounts = vec![
        acct(key(1), true, vec![]),
        acct(key(99), false, vec![]),
        acct(key(3), false, vec![]),
        acct(key(8), false, vec![]),
        acct(key(11), false, vec![]),
    ];
    let err = Processor::process_initialize_config(&program_id, &accounts, 250).unwrap_err();
    assert_eq!(err, ProcessError::InvalidSeeds);
}

#[test]
fn initialize_config_requires_signer() {
    let program_id = key(7);
    let (config_addr, _) = payment::pda::derive_config_address(&key(1), &program_id).unwrap();
    let accounts = vec![
        acct(key(1), false, vec![]),
        acct(config_addr, false, vec![]),
        acct(key(3), false, vec![]),
        acct(key(8), false, vec![]),
        acct(key(11), false, vec![]),
    ];
    let err = Processor::process_initialize_config(&program_id, &accounts, 250).unwrap_err();
    assert_eq!(err, ProcessError::MissingRequiredSignature);
}

#[test]
fn initialize_config_requires_enough_accounts() {
    let program_id = key(7);
    let accounts = vec![acct(key(1), true, vec![])];
    let err = Processor::process_initialize_config(&program_id, &accounts, 0).unwrap_err();
    assert_eq!(err, ProcessError::NotEnoughAccountKeys);
}

#[test]
fn fee_payment_and_refund_scenario() {
    let program_id = key(7);
    let accounts = payment_accounts_with_fee(&program_id, 1000);
    let memo = b"invoice 42".to_vec();
    let e = Processor::process_payment(&program_id, &accounts, 500, &memo, 1_700_000_000).unwrap();
    assert_eq!(e.transfer.amount, 495);
    assert_eq!(e.transfer.source, key(4));
    assert_eq!(e.transfer.destination, key(5));
    assert_eq!(e.transfer.authority, key(1));
    let fee = e.fee_transfer.expect("fee transfer owed");
    assert_eq!(fee.amount, 5);
    assert_eq!(fee.source, key(4));
    assert_eq!(fee.destination, key(6));
    assert_eq!(e.payment.amount, 500);
    assert_eq!(e.payment.payer, key(1));
    assert_eq!(e.payment.recipient, key(2));
    assert_eq!(e.payment.mint, key(3));
    assert_eq!(e.payment.timestamp, 1_700_000_000);
    assert_eq!(e.payment.status, STATUS_COMPLETED);
    assert_eq!(e.create.space, 177);
    assert_eq!(e.record_data.len(), 177);

    let refund_accounts = vec![
        acct(key(20), true, vec![]),
        acct(accounts[1].key, false, e.record_data.clone()),
        acct(key(5), false, vec![]),
        acct(key(4), false, vec![]),
        acct(key(21), false, vec![]),
    ];
    let refund = Processor::process_refund(&program_id, &refund_accounts).unwrap();
    assert_eq!(refund.transfer.amount, 500);
    assert_eq!(refund.transfer.source, key(5));
    assert_eq!(refund.transfer.destination, key(4));
    assert_eq!(refund.transfer.authority, key(20));
    assert_eq!(refund.payment.status, STATUS_REFUNDED);
    assert_eq!(refund.payment.amount, 500);

    let refund_again = vec![
        acct(key(20), true, vec![]),
        acct(accounts[1].key, false, refund.record_data.clone()),
        acct(key(5), false, vec![]),
        acct(key(4), false, vec![]),
        acct(key(21), false, vec![]),
    ];
    let err = Processor::process_refund(&program_id, &refund_again).unwrap_err();
    assert_eq!(err, ProcessError::Payment(PaymentError::AlreadyProcessed));
}

#[test]
fn no_fee_payment_moves_full_amount() {
    let program_id = key(7);
    let accounts = payment_accounts_no_fee(&program_id, 1000);
    let e = Processor::process_payment(&program_id, &accounts, 500, &vec![], 5).unwrap();
    assert_eq!(e.transfer.amount, 500);
    assert!(e.fee_transfer.is_none());
    assert_eq!(e.payment.amount, 500);
    assert_eq!(e.payment.recipient, key(2));
    assert_eq!(e.payment.mint, key(3));
}

#[test]
fn small_amount_with_fee_account_owes_no_fee_transfer() {
    let program_id = key(7);
    let accounts = payment_accounts_with_fee(&program_id, 1000);
    let e = Processor::process_payment(&program_id, &accounts, 99, &vec![], 5).unwrap();
    assert_eq!(e.transfer.amount, 99);
    assert!(e.fee_transfer.is_none());
    let e2 = Processor::process_payment(&program_id, &accounts, 100, &vec![], 5).unwrap();
    assert_eq!(e2.transfer.amount, 99);
    assert_eq!(e2.fee_transfer.unwrap().amount, 1);
}

#[test]
fn payment_rejects_zero_amount() {
    let program_id = key(7);
    let accounts = payment_accounts_with_fee(&program_id, 1000);
    let err = Processor::process_payment(&program_id, &accounts, 0, &vec![], 5).unwrap_err();
    assert_eq!(err, ProcessError::Payment(PaymentError::InvalidAmount));
}

#[test]
fn payment_rejects_wrong_mint() {
    let program_id = key(7);
    let mut accounts = payment_accounts_with_fee(&program_id, 1000);
    accounts[2].data = token_account_bytes(key(33), 1000);
    let err = Processor::process_payment(&program_id, &accounts, 10, &vec![], 5).unwrap_err();
    assert_eq!(err, ProcessError::Payment(PaymentError::InvalidMint));
}

#[test]
fn payment_rejects_insufficient_funds() {
    let program_id = key(7);
    let accounts = payment_accounts_with_fee(&program_id, 499);
    let err = Processor::process_payment(&program_id, &accounts, 500, &vec![], 5).unwrap_err();
    assert_eq!(err, ProcessError::Payment(PaymentError::InsufficientFunds));
}

#[test]
fn payment_rejects_wrong_record_address() {
    let program_id = key(7);
    let mut accounts = payment_accounts_with_fee(&program_id, 1000);
    accounts[1].key = key(99);
    let err = Processor::process_payment(&program_id, &accounts, 500, &vec![], 5).unwrap_err();
    assert_eq!(err, ProcessError::InvalidSeeds);
}

#[test]
fn payment_rejects_uninitialized_asset_account() {
    let program_id = key(7);
    let mut accounts = payment_accounts_with_fee(&program_id, 1000);
    let mut data = accounts[2].data.clone();
    data[108] = 0;
    accounts[2].data = data;
    let err = Processor::process_payment(&program_id, &accounts, 500, &vec![], 5).unwrap_err();
    assert_eq!(err, ProcessError::UninitializedAccount);
}

#[test]
fn payment_rejects_malformed_asset_account() {
    let program_id = key(7);
    let mut accounts = payment_accounts_with_fee(&program_id, 1000);
    accounts[3].data = vec![1, 2, 3];
    let err = Processor::process_payment(&program_id, &accounts, 500, &vec![], 5).unwrap_err();
    assert_eq!(err, ProcessError::InvalidAccountData);
}

#[test]
fn payment_requires_signer() {
    let program_id = key(7);
    let mut accounts = payment_accounts_with_fee(&program_id, 1000);
    accounts[0].is_signer = false;
    let err = Processor::process_payment(&program_id, &accounts, 500, &vec![], 5).unwrap_err();
    assert_eq!(err, ProcessError::MissingRequiredSignature);
}

#[test]
fn memo_is_truncated_and_zero_padded() {
    let program_id = key(7);
    let accounts = payment_accounts_no_fee(&program_id, 1000);
    let long_memo: Vec<u8> = (0u8..70u8).collect();
    let e = Processor::process_payment(&program_id, &accounts, 1, &long_memo, 5).unwrap();
    assert_eq!(e.payment.memo.len(), 64);
    assert_eq!(&e.payment.memo[..], &long_memo[0..64]);

    let exact_memo: Vec<u8> = (0u8..64u8).collect();
    let e_exact = Processor::process_payment(&program_id, &accounts, 1, &exact_memo, 5).unwrap();
    assert_eq!(&e_exact.payment.memo[..], &exact_memo[..]);

    let short_memo = b"hi".to_vec();
    let e2 = Processor::process_payment(&program_id, &accounts, 1, &short_memo, 5).unwrap();
    assert_eq!(e2.payment.memo.len(), 64);
    assert_eq!(&e2.payment.memo[0..2], b"hi");
    assert!(e2.payment.memo[2..].iter().all(|b| *b == 0));
}

#[test]
fn refund_rejects_malformed_record() {
    let program_id = key(7);
    let accounts = vec![
        acct(key(20), true, vec![]),
        acct(key(30), false, vec![1, 2, 3]),
        acct(key(5), false, vec![]),
        acct(key(4), false, vec![]),
        acct(key(21), false, vec![]),
    ];
    let err = Processor::process_refund(&program_id, &accounts).unwrap_err();
    assert_eq!(err, ProcessError::InvalidAccountData);
}

#[test]
fn refund_requires_signer() {
    let program_id = key(7);
    let accounts = vec![
        acct(key(20), false, vec![]),
        acct(key(30), false, vec![]),
        acct(key(5), false, vec![]),
        acct(key(4), false, vec![]),
        acct(key(21), false, vec![]),
    ];
    let err = Processor::process_refund(&program_id, &accounts).unwrap_err();
    assert_eq!(err, ProcessError::MissingRequiredSignature);
}

#[test]
fn dispatcher_routes_payment_request() {
    let program_id = key(7);
    let accounts = payment_accounts_with_fee(&program_id, 1000);
    let mut data = vec![1u8];
    data.extend_from_slice(&500u64.to_le_bytes());
    let memo = b"invoice 42";
    data.extend_from_slice(&(memo.len() as u32).to_le_bytes());
    data.extend_from_slice(memo);
    let r = Processor::process(&program_id, &accounts, &data, 1_700_000_000).unwrap();
    match r {
        ProcessEffects::Payment(e) => {
            assert_eq!(e.transfer.amount, 495);
            assert_eq!(e.payment.amount, 500);
        }
        other => panic!("expected payment effects, got {:?}", other),
    }
}

#[test]
fn dispatcher_routes_config_and_refund_requests() {
    let program_id = key(7);
    let (config_addr, _) = payment::pda::derive_config_address(&key(1), &program_id).unwrap();
    let accounts = vec![
        acct(key(1), true, vec![]),
        acct(config_addr, false, vec![]),
        acct(key(3), false, vec![]),
        acct(key(8), false, vec![]),
        acct(key(11), false, vec![]),
    ];
    let r = Processor::process(&program_id, &accounts, &[0u8, 250, 0], 5).unwrap();
    match r {
        ProcessEffects::Config(e) => assert_eq!(e.config.fee_bps, 250),
        other => panic!("expected config effects, got {:?}", other),
    }

    let refund_accounts = vec![
        acct(key(20), true, vec![]),
        acct(key(30), false, vec![1, 2, 3]),
        acct(key(5), false, vec![]),
        acct(key(4), false, vec![]),
        acct(key(21), false, vec![]),
    ];
    let err = Processor::process(&program_id, &refund_accounts, &[2u8], 5).unwrap_err();
    assert_eq!(err, ProcessError::InvalidAccountData);
}

#[test]
fn dispatcher_rejects_unknown_opcode() {
    let program_id = key(7);
    let accounts: Vec<AccountView> = vec![];
    let err = Processor::process(&program_id, &accounts, &[9u8], 5).unwrap_err();
    assert_eq!(err, ProcessError::InvalidInstructionData);
    let err2 = Processor::process(&program_id, &accounts, &[], 5).unwrap_err();
    assert_eq!(err2, ProcessError::InvalidInstructionData);
}
