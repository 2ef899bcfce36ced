#![allow(deprecated)]

use amm_pool::error::AMMError;
use amm_pool::identity::Identity;
use amm_pool::ledger::{AccountView, LedgerOp, VaultAccount};
use amm_pool::processor::Processor;
use amm_pool::state::AMM;
use solana_program::program_option::COption;
use solana_program::program_pack::Pack;
use solana_program::pubkey::Pubkey;
use spl_token::state::{Account, AccountState};

fn id(b: u8) -> Identity {
    Identity::new(vec![b; 32])
}

fn signer(b: u8) -> AccountView {
    AccountView { identity: id(b), is_signer: true }
}

/// Packs a real ledger token account holding `balance` tokens.
fn token_data(balance: u64) -> Vec<u8> {
    let account = Account {
        mint: Pubkey::new_from_array([11; 32]),
        owner: Pubkey::new_from_array([12; 32]),
        amount: balance,
        delegate: COption::None,
        state: AccountState::Initialized,
        is_native: COption::None,
        delegated_amount: 0,
        close_authority: COption::None,
    };
    let mut data = vec![0u8; 165];
    Account::pack(account, &mut data).unwrap();
    data
}

fn vault(b: u8, balance: u64) -> VaultAccount {
    VaultAccount { identity: id(b), data: token_data(balance) }
}

/// An initialized record: initializer 1, vault A 2, vault B 3, receipt 4.
fn record() -> Vec<u8> {
    AMM {
        is_initialized: true,
        initializer_account_pubkey: id(1),
        busd_token_account_pubkey: id(2),
        bstock_token_account_pubkey: id(3),
        bstocklqdy_token_account_pubkey: id(4),
    }
    .pack()
}

fn uninitialized_record() -> Vec<u8> {
    let mut buf = record();
    buf[0] = 0;
    buf
}

fn expected_authority(program: u8) -> (Identity, u8) {
    let pk = Pubkey::new_from_array([program; 32]);
    let (addr, bump) = Pubkey::try_find_program_address(&[b"bravv"], &pk).unwrap();
    (Identity::new(addr.to_bytes().to_vec()), bump)
}

#[test]
fn init_writes_state_and_reassigns_vaults() {
    let outcome = Processor::process_init_amm(
        &signer(1),
        &id(2),
        &id(3),
        &id(4),
        &uninitialized_record(),
        true,
        &id(7),
    )
    .unwrap();
    assert!(outcome.state.is_initialized);
    assert_eq!(outcome.state.initializer_account_pubkey, id(1));
    assert_eq!(outcome.state.busd_token_account_pubkey, id(2));
    assert_eq!(outcome.state.bstock_token_account_pubkey, id(3));
    assert_eq!(outcome.state.bstocklqdy_token_account_pubkey, id(4));
    let (auth, bump) = expected_authority(7);
    assert_eq!(outcome.authority, auth);
    assert_eq!(outcome.bump, bump);
    assert_eq!(outcome.ops.len(), 3);
    for (i, vault_id) in [id(2), id(3), id(4)].into_iter().enumerate() {
        match &outcome.ops[i] {
            LedgerOp::SetOwner { account, new_owner, current_owner } => {
                assert_eq!(*account, vault_id);
                assert_eq!(*new_owner, auth);
                assert_eq!(*current_owner, id(1));
            },
            _ => panic!("expected an ownership change"),
        }
    }
}

#[test]
fn init_rejects_initialized_record() {
    let err = Processor::process_init_amm(
        &signer(1),
        &id(2),
        &id(3),
        &id(4),
        &record(),
        true,
        &id(7),
    )
    .err()
    .unwrap();
    assert_eq!(err, AMMError::AccountAlreadyInitialized);
}

#[test]
fn init_requires_signature() {
    let caller = AccountView { identity: id(1), is_signer: false };
    let err = Processor::process_init_amm(
        &caller,
        &id(2),
        &id(3),
        &id(4),
        &uninitialized_record(),
        true,
        &id(7),
    )
    .err()
    .unwrap();
    assert_eq!(err, AMMError::MissingRequiredSignature);
}

#[test]
fn init_requires_rent_exemption() {
    let err = Processor::process_init_amm(
        &signer(1),
        &id(2),
        &id(3),
        &id(4),
        &uninitialized_record(),
        false,
        &id(7),
    )
    .err()
    .unwrap();
    assert_eq!(err, AMMError::NotRentExempt);
}

#[test]
fn provide_liquidity_at_pool_ratio_succeeds() {
    // Pool ratio 100 / 10 = 10 and 50 / 5 = 10: accepted.
    let outcome = Processor::process_provide_liquidity(
        &signer(20),
        &id(21),
        &id(22),
        &id(23),
        &vault(2, 100),
        &vault(3, 10),
        &id(4),
        &record(),
        5,
        50,
        &id(7),
    )
    .unwrap();
    let (auth, _) = expected_authority(7);
    assert_eq!(outcome.ops.len(), 3);
    match &outcome.ops[0] {
        LedgerOp::Transfer { source, dest, authority, amount, pool_signed } => {
            assert_eq!(*source, id(21));
            assert_eq!(*dest, id(2));
            assert_eq!(*authority, id(20));
            assert_eq!(*amount, 5);
            assert!(!pool_signed);
        },
        _ => panic!("expected a transfer"),
    }
    match &outcome.ops[1] {
        LedgerOp::Transfer { source, dest, amount, pool_signed, .. } => {
            assert_eq!(*source, id(22));
            assert_eq!(*dest, id(3));
            assert_eq!(*amount, 50);
            assert!(!pool_signed);
        },
        _ => panic!("expected a transfer"),
    }
    // The receipt issued equals the asset-A deposit.
    match &outcome.ops[2] {
        LedgerOp::Transfer { source, dest, authority, amount, pool_signed } => {
            assert_eq!(*source, id(4));
            assert_eq!(*dest, id(23));
            assert_eq!(*authority, auth);
            assert_eq!(*amount, 5);
            assert!(pool_signed);
        },
        _ => panic!("expected a transfer"),
    }
}

#[test]
fn provide_liquidity_off_ratio_fails() {
    // 40 / 5 = 8 but the pool ratio is 10.
    let err = Processor::process_provide_liquidity(
        &signer(20),
        &id(21),
        &id(22),
        &id(23),
        &vault(2, 100),
        &vault(3, 10),
        &id(4),
        &record(),
        5,
        40,
        &id(7),
    )
    .err()
    .unwrap();
    assert_eq!(err, AMMError::InvalidRatio);
}

#[test]
fn provide_liquidity_guards_division_by_zero() {
    let err = Processor::process_provide_liquidity(
        &signer(20),
        &id(21),
        &id(22),
        &id(23),
        &vault(2, 100),
        &vault(3, 0),
        &id(4),
        &record(),
        5,
        50,
        &id(7),
    )
    .err()
    .unwrap();
    assert_eq!(err, AMMError::DivisionByZero);
    let err = Processor::process_provide_liquidity(
        &signer(20),
        &id(21),
        &id(22),
        &id(23),
        &vault(2, 100),
        &vault(3, 10),
        &id(4),
        &record(),
        0,
        50,
        &id(7),
    )
    .err()
    .unwrap();
    assert_eq!(err, AMMError::DivisionByZero);
}

#[test]
fn provide_liquidity_rejects_vault_mismatch() {
    // The presented asset-A vault is not the stored one.
    let err = Processor::process_provide_liquidity(
        &signer(20),
        &id(21),
        &id(22),
        &id(23),
        &vault(99, 100),
        &vault(3, 10),
        &id(4),
        &record(),
        5,
        50,
        &id(7),
    )
    .err()
    .unwrap();
    assert_eq!(err, AMMError::InvalidAccountData);
}

#[test]
fn vault_mismatch_beats_the_balance_arithmetic() {
    // The identity check comes before any balance is read, so a
    // mismatched vault is rejected as invalid account data even where the
    // ratio arithmetic would divide by zero or overflow.
    let err = Processor::process_provide_liquidity(
        &signer(20),
        &id(21),
        &id(22),
        &id(23),
        &vault(99, 100),
        &vault(3, 0),
        &id(4),
        &record(),
        5,
        50,
        &id(7),
    )
    .err()
    .unwrap();
    assert_eq!(err, AMMError::InvalidAccountData);
    let err = Processor::process_claim_liquidity(
        &signer(40),
        &id(41),
        &id(42),
        &id(43),
        &vault(2, 100),
        &vault(99, 0),
        &id(4),
        &record(),
        3,
        &id(7),
    )
    .err()
    .unwrap();
    assert_eq!(err, AMMError::InvalidAccountData);
    let err = Processor::process_trade_busd(
        &signer(30),
        &id(31),
        &id(32),
        &vault(99, 100),
        &vault(3, 0),
        &record(),
        5,
        &id(7),
    )
    .err()
    .unwrap();
    assert_eq!(err, AMMError::InvalidAccountData);
    let err = Processor::process_trade_bstock(
        &signer(30),
        &id(31),
        &id(32),
        &vault(99, 0),
        &vault(3, 30),
        &record(),
        4,
        &id(7),
    )
    .err()
    .unwrap();
    assert_eq!(err, AMMError::InvalidAccountData);
}

#[test]
fn trade_busd_pays_out_at_pool_ratio() {
    // Ratio 100 / 10 = 10: trading 5 of asset A yields 50 of asset B.
    let outcome = Processor::process_trade_busd(
        &signer(30),
        &id(31),
        &id(32),
        &vault(2, 100),
        &vault(3, 10),
        &record(),
        5,
        &id(7),
    )
    .unwrap();
    let (auth, _) = expected_authority(7);
    assert_eq!(outcome.ops.len(), 2);
    match &outcome.ops[0] {
        LedgerOp::Transfer { source, dest, authority, amount, pool_signed } => {
            assert_eq!(*source, id(31));
            assert_eq!(*dest, id(2));
            assert_eq!(*authority, id(30));
            assert_eq!(*amount, 5);
            assert!(!pool_signed);
        },
        _ => panic!("expected a transfer"),
    }
    match &outcome.ops[1] {
        LedgerOp::Transfer { source, dest, authority, amount, pool_signed } => {
            assert_eq!(*source, id(3));
            assert_eq!(*dest, id(32));
            assert_eq!(*authority, auth);
            assert_eq!(*amount, 50);
            assert!(pool_signed);
        },
        _ => panic!("expected a transfer"),
    }
}

#[test]
fn trade_busd_rejects_vault_mismatch() {
    let err = Processor::process_trade_busd(
        &signer(30),
        &id(31),
        &id(32),
        &vault(2, 100),
        &vault(99, 10),
        &record(),
        5,
        &id(7),
    )
    .err()
    .unwrap();
    assert_eq!(err, AMMError::InvalidAccountData);
}

#[test]
fn trade_busd_overflow_fails() {
    let err = Processor::process_trade_busd(
        &signer(30),
        &id(31),
        &id(32),
        &vault(2, u64::MAX),
        &vault(3, 1),
        &record(),
        2,
        &id(7),
    )
    .err()
    .unwrap();
    assert_eq!(err, AMMError::AmountOverflow);
}

#[test]
fn trade_bstock_mirrors_the_ratio() {
    // Swapped ratio 30 / 10 = 3: trading 4 of asset B yields 12 of asset A.
    let outcome = Processor::process_trade_bstock(
        &signer(30),
        &id(31),
        &id(32),
        &vault(2, 10),
        &vault(3, 30),
        &record(),
        4,
        &id(7),
    )
    .unwrap();
    assert_eq!(outcome.ops.len(), 2);
    match &outcome.ops[0] {
        LedgerOp::Transfer { source, dest, amount, pool_signed, .. } => {
            assert_eq!(*source, id(32));
            assert_eq!(*dest, id(3));
            assert_eq!(*amount, 4);
            assert!(!pool_signed);
        },
        _ => panic!("expected a transfer"),
    }
    match &outcome.ops[1] {
        LedgerOp::Transfer { source, dest, amount, pool_signed, .. } => {
            assert_eq!(*source, id(2));
            assert_eq!(*dest, id(31));
            assert_eq!(*amount, 12);
            assert!(pool_signed);
        },
        _ => panic!("expected a transfer"),
    }
}

#[test]
fn trade_bstock_guards_division_by_zero() {
    let err = Processor::process_trade_bstock(
        &signer(30),
        &id(31),
        &id(32),
        &vault(2, 0),
        &vault(3, 30),
        &record(),
        4,
        &id(7),
    )
    .err()
    .unwrap();
    assert_eq!(err, AMMError::DivisionByZero);
}

#[test]
fn trade_bstock_rejects_vault_mismatch() {
    let err = Processor::process_trade_bstock(
        &signer(30),
        &id(31),
        &id(32),
        &vault(99, 10),
        &vault(3, 30),
        &record(),
        4,
        &id(7),
    )
    .err()
    .unwrap();
    assert_eq!(err, AMMError::InvalidAccountData);
}

#[test]
fn claim_liquidity_returns_both_assets() {
    // Ratio 100 / 10 = 10: claiming 3 receipts returns 3 of asset A and
    // 30 of asset B.
    let outcome = Processor::process_claim_liquidity(
        &signer(40),
        &id(41),
        &id(42),
        &id(43),
        &vault(2, 100),
        &vault(3, 10),
        &id(4),
        &record(),
        3,
        &id(7),
    )
    .unwrap();
    let (auth, _) = expected_authority(7);
    assert_eq!(outcome.ops.len(), 3);
    match &outcome.ops[0] {
        LedgerOp::Transfer { source, dest, authority, amount, pool_signed } => {
            assert_eq!(*source, id(43));
            assert_eq!(*dest, id(4));
            assert_eq!(*authority, id(40));
            assert_eq!(*amount, 3);
            assert!(!pool_signed);
        },
        _ => panic!("expected a transfer"),
    }
    match &outcome.ops[1] {
        LedgerOp::Transfer { source, dest, authority, amount, pool_signed } => {
            assert_eq!(*source, id(2));
            assert_eq!(*dest, id(41));
            assert_eq!(*authority, auth);
            assert_eq!(*amount, 3);
            assert!(pool_signed);
        },
        _ => panic!("expected a transfer"),
    }
    match &outcome.ops[2] {
        LedgerOp::Transfer { source, dest, authority, amount, pool_signed } => {
            assert_eq!(*source, id(3));
            assert_eq!(*dest, id(42));
            assert_eq!(*authority, auth);
            assert_eq!(*amount, 30);
            assert!(pool_signed);
        },
        _ => panic!("expected a transfer"),
    }
}

#[test]
fn claim_liquidity_guards_division_by_zero() {
    let err = Processor::process_claim_liquidity(
        &signer(40),
        &id(41),
        &id(42),
        &id(43),
        &vault(2, 100),
        &vault(3, 0),
        &id(4),
        &record(),
        3,
        &id(7),
    )
    .err()
    .unwrap();
    assert_eq!(err, AMMError::DivisionByZero);
}

#[test]
fn claim_liquidity_rejects_vault_mismatch() {
    // The presented receipt vault is not the stored one.
    let err = Processor::process_claim_liquidity(
        &signer(40),
        &id(41),
        &id(42),
        &id(43),
        &vault(2, 100),
        &vault(3, 10),
        &id(99),
        &record(),
        3,
        &id(7),
    )
    .err()
    .unwrap();
    assert_eq!(err, AMMError::InvalidAccountData);
}

#[test]
fn close_reclaims_the_authority_balance() {
    let outcome = Processor::process_close_amm(
        &signer(1),
        &id(2),
        &id(3),
        &id(4),
        &record(),
        10,
        7,
        &id(7),
    )
    .unwrap();
    assert_eq!(outcome.new_initializer_lamports, 17);
    assert_eq!(outcome.ops.len(), 3);
    for (i, vault_id) in [id(2), id(3), id(4)].into_iter().enumerate() {
        match &outcome.ops[i] {
            LedgerOp::CloseAccount { account, dest } => {
                assert_eq!(*account, vault_id);
                assert_eq!(*dest, id(1));
            },
            _ => panic!("expected an account close"),
        }
    }
}

#[test]
fn close_overflow_fails() {
    let err = Processor::process_close_amm(
        &signer(1),
        &id(2),
        &id(3),
        &id(4),
        &record(),
        u64::MAX,
        1,
        &id(7),
    )
    .err()
    .unwrap();
    assert_eq!(err, AMMError::AmountOverflow);
}

#[test]
fn close_rejects_non_initializer() {
    let err = Processor::process_close_amm(
        &signer(55),
        &id(2),
        &id(3),
        &id(4),
        &record(),
        10,
        7,
        &id(7),
    )
    .err()
    .unwrap();
    assert_eq!(err, AMMError::InvalidInitializer);
}

#[test]
fn close_requires_signature() {
    let caller = AccountView { identity: id(1), is_signer: false };
    let err = Processor::process_close_amm(
        &caller,
        &id(2),
        &id(3),
        &id(4),
        &record(),
        10,
        7,
        &id(7),
    )
    .err()
    .unwrap();
    assert_eq!(err, AMMError::MissingRequiredSignature);
}

#[test]
fn close_rejects_uninitialized_record() {
    let err = Processor::process_close_amm(
        &signer(1),
        &id(2),
        &id(3),
        &id(4),
        &uninitialized_record(),
        10,
        7,
        &id(7),
    )
    .err()
    .unwrap();
    assert_eq!(err, AMMError::UninitializedAccount);
}

#[test]
fn malformed_vault_data_is_rejected() {
    // Wrong length.
    let bad = VaultAccount { identity: id(2), data: vec![0u8; 10] };
    let err = Processor::process_trade_busd(
        &signer(30),
        &id(31),
        &id(32),
        &bad,
        &vault(3, 10),
        &record(),
        5,
        &id(7),
    )
    .err()
    .unwrap();
    assert_eq!(err, AMMError::InvalidAccountData);
    // A well-formed but uninitialized token account.
    let uninit = VaultAccount { identity: id(2), data: vec![0u8; 165] };
    let err = Processor::process_trade_busd(
        &signer(30),
        &id(31),
        &id(32),
        &uninit,
        &vault(3, 10),
        &record(),
        5,
        &id(7),
    )
    .err()
    .unwrap();
    assert_eq!(err, AMMError::UninitializedAccount);
}
