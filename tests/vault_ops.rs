use anchor_lang::prelude::Pubkey;
use xdegen_demo::address::{derive_address, EntityKey};
use xdegen_demo::auth::{AuthorizationPolicy, SessionGrant, Signers};
use xdegen_demo::effects::Effect;
use xdegen_demo::error::ErrorCode;
use xdegen_demo::relocation::{delegate_config_handler, undelegate_config_handler};
use xdegen_demo::rules::{compute_claim_amount, is_allowed_amount};
use xdegen_demo::state::{Config, Key};
use xdegen_demo::vault::{claim_handler, deposit_handler, initialize_handler, withdraw_handler};

fn key(n: u64) -> Key {
    let mut bytes = [0u8; 32];
    bytes[..8].copy_from_slice(&n.to_le_bytes());
    bytes[31] = 0x5a;
    Key { bytes }
}

const ADMIN: u64 = 1;
const PROGRAM: u64 = 2;
const RESERVE: u64 = 3;
const TRADER: u64 = 10;

fn config() -> Config {
    initialize_handler(&key(PROGRAM), key(ADMIN), key(RESERVE), 6).unwrap()
}

fn direct(trader: u64) -> Signers {
    Signers { trader: key(trader), admin_cosigner: None, session: None }
}

#[test]
fn initialize_with_six_decimals_sets_claim_amount() {
    let c = config();
    assert_eq!(c.claim_amount, 50_000_000);
    assert_eq!(c.admin, key(ADMIN));
    assert_eq!(c.xdegen_mint, key(RESERVE));
    let program = Pubkey::new_from_array(key(PROGRAM).bytes);
    let reserve = key(RESERVE).bytes;
    let (vault, vault_bump) = Pubkey::find_program_address(&[b"vault", &reserve], &program);
    let (_, config_bump) = Pubkey::find_program_address(&[b"config"], &program);
    assert_eq!(c.vault.bytes, vault.to_bytes());
    assert_ne!(c.vault, key(RESERVE));
    assert_eq!(c.vault_bump, vault_bump);
    assert_eq!(c.bump, config_bump);
    assert_eq!(c.total_trades, 0);
    assert_eq!(c.total_buys, 0);
    assert_eq!(c.total_sells, 0);
    assert_eq!(c.total_claimed, 0);
}

#[test]
fn initialize_claim_amount_overflow() {
    let c = initialize_handler(&key(PROGRAM), key(ADMIN), key(RESERVE), 17).unwrap();
    assert_eq!(c.claim_amount, 5_000_000_000_000_000_000);
    assert_eq!(
        initialize_handler(&key(PROGRAM), key(ADMIN), key(RESERVE), 18),
        Err(ErrorCode::MathOverflow)
    );
    assert_eq!(
        initialize_handler(&key(PROGRAM), key(ADMIN), key(RESERVE), 255),
        Err(ErrorCode::MathOverflow)
    );
}

#[test]
fn claim_amount_values() {
    assert_eq!(compute_claim_amount(0), Ok(50));
    assert_eq!(compute_claim_amount(9), Ok(50_000_000_000));
    assert_eq!(compute_claim_amount(19), Err(ErrorCode::MathOverflow));
}

#[test]
fn allowed_amount_boundaries() {
    assert!(is_allowed_amount(500_000_000));
    assert!(is_allowed_amount(2_500_000_000));
    assert!(is_allowed_amount(5_000_000_000));
    assert!(!is_allowed_amount(0));
    assert!(!is_allowed_amount(499_999_999));
    assert!(!is_allowed_amount(500_000_001));
    assert!(!is_allowed_amount(750_000_000));
    assert!(!is_allowed_amount(4_999_999_999));
    assert!(!is_allowed_amount(5_000_000_001));
    assert!(!is_allowed_amount(5_500_000_000));
}

#[test]
fn deposit_then_claim_needs_enough_in_vault() {
    let mut c = config();
    let fx = deposit_handler(&c, key(ADMIN), key(RESERVE), key(RESERVE), 100_000_000, 10_000_000).unwrap();
    assert_eq!(
        fx,
        vec![Effect::Transfer { from: key(ADMIN), to: c.vault, amount: 10_000_000, vault_signed: false }]
    );
    let before = c;
    let policy = AuthorizationPolicy::SessionDelegated;
    assert_eq!(
        claim_handler(&mut c, policy, &direct(TRADER), key(RESERVE), 10_000_000),
        Err(ErrorCode::InsufficientFunds)
    );
    assert_eq!(c, before);
    deposit_handler(&c, key(ADMIN), key(RESERVE), key(RESERVE), 90_000_000, 40_000_000).unwrap();
    let fx = claim_handler(&mut c, policy, &direct(TRADER), key(RESERVE), 50_000_000).unwrap();
    assert_eq!(
        fx,
        vec![Effect::Transfer { from: c.vault, to: key(TRADER), amount: 50_000_000, vault_signed: true }]
    );
    assert_eq!(c.total_claimed, 50_000_000);
}

#[test]
fn claim_with_exact_balance_empties_vault() {
    let mut c = config();
    let vault_balance: u64 = 50_000_000;
    let fx = claim_handler(&mut c, AuthorizationPolicy::SessionDelegated, &direct(TRADER), key(RESERVE), vault_balance)
        .unwrap();
    let paid = match fx[0] {
        Effect::Transfer { amount, .. } => amount,
        _ => panic!("expected a transfer"),
    };
    assert_eq!(vault_balance - paid, 0);
    assert_eq!(
        claim_handler(&mut c, AuthorizationPolicy::SessionDelegated, &direct(TRADER), key(RESERVE), vault_balance - paid),
        Err(ErrorCode::InsufficientFunds)
    );
}

#[test]
fn claim_under_admin_policy_commits() {
    let mut c = config();
    let fx = claim_handler(&mut c, AuthorizationPolicy::AdminMediated, &direct(TRADER), key(RESERVE), 60_000_000)
        .unwrap();
    assert_eq!(
        fx,
        vec![
            Effect::Transfer { from: c.vault, to: key(TRADER), amount: 50_000_000, vault_signed: true },
            Effect::CommitConfig,
        ]
    );
}

#[test]
fn claim_through_session_pays_the_authority() {
    let mut c = config();
    let s = Signers {
        trader: key(40),
        admin_cosigner: None,
        session: Some(SessionGrant { signer: key(40), authority: key(TRADER) }),
    };
    let fx = claim_handler(&mut c, AuthorizationPolicy::SessionDelegated, &s, key(RESERVE), 50_000_000).unwrap();
    assert_eq!(
        fx,
        vec![Effect::Transfer { from: c.vault, to: key(TRADER), amount: 50_000_000, vault_signed: true }]
    );
    let before = c;
    assert_eq!(
        claim_handler(&mut c, AuthorizationPolicy::AdminMediated, &s, key(RESERVE), 50_000_000),
        Err(ErrorCode::Unauthorized)
    );
    assert_eq!(c, before);
}

#[test]
fn claim_errors() {
    let mut c = config();
    let before = c;
    assert_eq!(
        claim_handler(&mut c, AuthorizationPolicy::SessionDelegated, &direct(TRADER), key(99), 60_000_000),
        Err(ErrorCode::InvalidMint)
    );
    c.total_claimed = u64::MAX - 49_999_999;
    let full = c;
    assert_eq!(
        claim_handler(&mut c, AuthorizationPolicy::SessionDelegated, &direct(TRADER), key(RESERVE), 60_000_000),
        Err(ErrorCode::MathOverflow)
    );
    assert_eq!(c, full);
    assert_ne!(c, before);
}

#[test]
fn deposit_errors() {
    let c = config();
    assert_eq!(
        deposit_handler(&c, key(TRADER), key(RESERVE), key(RESERVE), 100, 10),
        Err(ErrorCode::Unauthorized)
    );
    assert_eq!(
        deposit_handler(&c, key(ADMIN), key(99), key(99), 100, 10),
        Err(ErrorCode::CustomError)
    );
    assert_eq!(
        deposit_handler(&c, key(ADMIN), key(RESERVE), key(RESERVE), 100, 0),
        Err(ErrorCode::InvalidAmount)
    );
    assert_eq!(
        deposit_handler(&c, key(ADMIN), key(RESERVE), key(99), 100, 10),
        Err(ErrorCode::InvalidMint)
    );
    assert_eq!(
        deposit_handler(&c, key(ADMIN), key(RESERVE), key(RESERVE), 9, 10),
        Err(ErrorCode::InsufficientFunds)
    );
    assert!(deposit_handler(&c, key(ADMIN), key(RESERVE), key(RESERVE), 10, 10).is_ok());
}

#[test]
fn withdraw_moves_funds_out_of_vault() {
    let c = config();
    assert_eq!(
        withdraw_handler(&c, key(ADMIN), key(RESERVE), 70, 70),
        Ok(vec![Effect::Transfer { from: c.vault, to: key(ADMIN), amount: 70, vault_signed: true }])
    );
    assert_eq!(withdraw_handler(&c, key(TRADER), key(RESERVE), 70, 70), Err(ErrorCode::Unauthorized));
    assert_eq!(withdraw_handler(&c, key(ADMIN), key(99), 70, 70), Err(ErrorCode::InvalidMint));
    assert_eq!(withdraw_handler(&c, key(ADMIN), key(RESERVE), 70, 0), Err(ErrorCode::InvalidAmount));
    assert_eq!(withdraw_handler(&c, key(ADMIN), key(RESERVE), 69, 70), Err(ErrorCode::InsufficientFunds));
}

#[test]
fn relocation_requests() {
    assert_eq!(delegate_config_handler(key(ADMIN)), vec![Effect::DelegateConfig { payer: key(ADMIN) }]);
    assert_eq!(
        undelegate_config_handler(key(ADMIN)),
        vec![Effect::CommitAndUndelegateConfig { payer: key(ADMIN) }]
    );
}

#[test]
fn derived_record_address_matches_program_derivation() {
    let program = key(PROGRAM);
    let (addr, bump) =
        derive_address(&program, &EntityKey::Record { owner: key(TRADER), position: key(4) }).unwrap();
    let (expected, expected_bump) = Pubkey::find_program_address(
        &[b"token_record", &key(TRADER).bytes, &key(4).bytes],
        &Pubkey::new_from_array(program.bytes),
    );
    assert_eq!(addr.bytes, expected.to_bytes());
    assert_eq!(bump, expected_bump);
    assert_ne!(addr, program);
    let (other, _) =
        derive_address(&program, &EntityKey::Record { owner: key(TRADER + 1), position: key(4) }).unwrap();
    assert_ne!(addr, other);
}
