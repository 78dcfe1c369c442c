use vstd::prelude::*;
use crate::address::{derive_address, derived, EntityKey};
use crate::auth::{acting_owner, resolve_actor, AuthorizationPolicy, Signers};
use crate::effects::Effect;
use crate::error::ErrorCode;
use crate::rules::{claim_amount_for, compute_claim_amount};
use crate::state::{Config, Key};
use crate::trade::{commit_effects, push_commit};

verus! {

/// A fresh configuration: the given identities, bump seeds and claim payout,
/// and every counter at zero.
pub open spec fn fresh_config(
    admin: Key,
    vault: Key,
    vault_bump: u8,
    reserve_mint: Key,
    claim_amount: u64,
    bump: u8,
) -> Config {
    Config {
        admin,
        vault,
        vault_bump,
        xdegen_mint: reserve_mint,
        total_trades: 0,
        claim_amount,
        total_buys: 0,
        total_sells: 0,
        total_claimed: 0,
        bump,
    }
}

/// Creates the configuration of a vault for a reserve asset with `decimals`
/// decimals. The configuration and the vault's holding account live at the
/// addresses `program` derives for them; the vault's address and both bump
/// seeds are recorded. `MathOverflow` where `50 × 10^decimals` does not fit in
/// a `u64`; `CustomError` where an address cannot be derived.
pub fn initialize_handler(program: &Key, admin: Key, reserve_mint: Key, decimals: u8) -> (r: Result<
    Config,
    ErrorCode,
>)
    ensures
        claim_amount_for(decimals as nat) > u64::MAX ==> r == Err::<Config, ErrorCode>(
            ErrorCode::MathOverflow,
        ),
        claim_amount_for(decimals as nat) <= u64::MAX ==> match (
            derived(*program, EntityKey::Config),
            derived(*program, EntityKey::Vault { reserve_mint }),
        ) {
            (Some((_, config_bump)), Some((vault, vault_bump))) => {
                &&& r matches Ok(c)
                &&& c.vault.bytes@ == vault
                &&& c == fresh_config(
                    admin,
                    c.vault,
                    vault_bump,
                    reserve_mint,
                    claim_amount_for(decimals as nat) as u64,
                    config_bump,
                )
            },
            _ => r == Err::<Config, ErrorCode>(ErrorCode::CustomError),
        },
        r matches Ok(c) ==> c.wf(),
{
    let claim_amount = match compute_claim_amount(decimals) {
        Ok(c) => c,
        Err(e) => {
            return Err(e);
        },
    };
    let bump = match derive_address(program, &EntityKey::Config) {
        Some((_, b)) => b,
        None => {
            return Err(ErrorCode::CustomError);
        },
    };
    let (vault, vault_bump) = match derive_address(program, &EntityKey::Vault { reserve_mint }) {
        Some(d) => d,
        None => {
            return Err(ErrorCode::CustomError);
        },
    };
    Ok(
        Config {
            admin,
            vault,
            vault_bump,
            xdegen_mint: reserve_mint,
            total_trades: 0,
            claim_amount,
            total_buys: 0,
            total_sells: 0,
            total_claimed: 0,
            bump,
        },
    )
}

/// The error a deposit reports, in the order the checks are made, or `None` where it goes through.
pub open spec fn deposit_rejection(
    config: Config,
    admin: Key,
    mint: Key,
    source_mint: Key,
    source_balance: u64,
    amount: u64,
) -> Option<ErrorCode> {
    if admin != config.admin {
        Some(ErrorCode::Unauthorized)
    } else if mint != config.xdegen_mint {
        Some(ErrorCode::CustomError)
    } else if amount == 0 {
        Some(ErrorCode::InvalidAmount)
    } else if source_mint != mint {
        Some(ErrorCode::InvalidMint)
    } else if source_balance < amount {
        Some(ErrorCode::InsufficientFunds)
    } else {
        None
    }
}

/// Moves `amount` of the reserve asset from the administrator into the vault.
/// `mint` is the reserve asset named by the caller, `source_mint` and
/// `source_balance` describe the administrator's holding. No counter changes.
pub fn deposit_handler(
    config: &Config,
    admin: Key,
    mint: Key,
    source_mint: Key,
    source_balance: u64,
    amount: u64,
) -> (r: Result<Vec<Effect>, ErrorCode>)
    ensures
        match deposit_rejection(*config, admin, mint, source_mint, source_balance, amount) {
            Some(e) => r == Err::<Vec<Effect>, ErrorCode>(e),
            None => r matches Ok(fx) && fx@ == seq![
                Effect::Transfer { from: admin, to: config.vault, amount, vault_signed: false },
            ],
        },
{
    if admin != config.admin {
        return Err(ErrorCode::Unauthorized);
    }
    if mint != config.xdegen_mint {
        return Err(ErrorCode::CustomError);
    }
    if amount == 0 {
        return Err(ErrorCode::InvalidAmount);
    }
    if source_mint != mint {
        return Err(ErrorCode::InvalidMint);
    }
    if source_balance < amount {
        return Err(ErrorCode::InsufficientFunds);
    }
    let fx = vec![Effect::Transfer { from: admin, to: config.vault, amount, vault_signed: false }];
    proof {
        assert(fx@ =~= seq![
            Effect::Transfer { from: admin, to: config.vault, amount, vault_signed: false },
        ]);
    }
    Ok(fx)
}

/// The error a withdrawal reports, in the order the checks are made, or `None` where it goes through.
pub open spec fn withdraw_rejection(
    config: Config,
    admin: Key,
    mint: Key,
    vault_balance: u64,
    amount: u64,
) -> Option<ErrorCode> {
    if admin != config.admin {
        Some(ErrorCode::Unauthorized)
    } else if mint != config.xdegen_mint {
        Some(ErrorCode::InvalidMint)
    } else if amount == 0 {
        Some(ErrorCode::InvalidAmount)
    } else if vault_balance < amount {
        Some(ErrorCode::InsufficientFunds)
    } else {
        None
    }
}

/// Moves `amount` of the reserve asset out of the vault, signed by the vault
/// authority, to the administrator. No counter changes.
pub fn withdraw_handler(
    config: &Config,
    admin: Key,
    mint: Key,
    vault_balance: u64,
    amount: u64,
) -> (r: Result<Vec<Effect>, ErrorCode>)
    ensures
        match withdraw_rejection(*config, admin, mint, vault_balance, amount) {
            Some(e) => r == Err::<Vec<Effect>, ErrorCode>(e),
            None => r matches Ok(fx) && fx@ == seq![
                Effect::Transfer { from: config.vault, to: admin, amount, vault_signed: true },
            ],
        },
{
    if admin != config.admin {
        return Err(ErrorCode::Unauthorized);
    }
    if mint != config.xdegen_mint {
        return Err(ErrorCode::InvalidMint);
    }
    if amount == 0 {
        return Err(ErrorCode::InvalidAmount);
    }
    if vault_balance < amount {
        return Err(ErrorCode::InsufficientFunds);
    }
    let fx = vec![Effect::Transfer { from: config.vault, to: admin, amount, vault_signed: true }];
    proof {
        assert(fx@ =~= seq![
            Effect::Transfer { from: config.vault, to: admin, amount, vault_signed: true },
        ]);
    }
    Ok(fx)
}

/// The error a claim reports, in the order the checks are made, or `None` where it goes through.
pub open spec fn claim_rejection(
    config: Config,
    policy: AuthorizationPolicy,
    s: Signers,
    reserve_mint: Key,
    vault_balance: u64,
) -> Option<ErrorCode> {
    if reserve_mint != config.xdegen_mint {
        Some(ErrorCode::InvalidMint)
    } else if acting_owner(policy, s) is None {
        Some(ErrorCode::Unauthorized)
    } else if vault_balance < config.claim_amount {
        Some(ErrorCode::InsufficientFunds)
    } else if config.total_claimed + config.claim_amount > u64::MAX {
        Some(ErrorCode::MathOverflow)
    } else {
        None
    }
}

/// The calls a claim makes: pay the claimer out of the vault, then commit
/// where the policy asks for it.
pub open spec fn claim_effects(config: Config, policy: AuthorizationPolicy, claimer: Key) -> Seq<
    Effect,
> {
    seq![
        Effect::Transfer {
            from: config.vault,
            to: claimer,
            amount: config.claim_amount,
            vault_signed: true,
        },
    ] + commit_effects(policy)
}

/// Pays the fixed claim amount out of the vault to the acting owner, and adds
/// it to the claimed total. The claim goes through exactly when the vault
/// holds at least the claim amount, once the reserve asset, the signer and the
/// claimed total are in order. On any error the configuration is left as it was.
pub fn claim_handler(
    config: &mut Config,
    policy: AuthorizationPolicy,
    signers: &Signers,
    reserve_mint: Key,
    vault_balance: u64,
) -> (r: Result<Vec<Effect>, ErrorCode>)
    ensures
        old(config).wf() ==> final(config).wf(),
        match claim_rejection(*old(config), policy, *signers, reserve_mint, vault_balance) {
            Some(e) => r == Err::<Vec<Effect>, ErrorCode>(e) && *final(config) == *old(config),
            None => {
                &&& r matches Ok(fx)
                &&& *final(config) == (Config {
                    total_claimed: (old(config).total_claimed + old(config).claim_amount) as u64,
                    ..*old(config)
                })
                &&& fx@ == claim_effects(
                    *old(config),
                    policy,
                    acting_owner(policy, *signers)->0,
                )
            },
        },
        reserve_mint == old(config).xdegen_mint && acting_owner(policy, *signers) is Some
            && old(config).total_claimed + old(config).claim_amount <= u64::MAX ==> (r is Ok
            <==> vault_balance >= old(config).claim_amount),
{
    if reserve_mint != config.xdegen_mint {
        return Err(ErrorCode::InvalidMint);
    }
    let claimer = match resolve_actor(policy, signers) {
        Ok(k) => k,
        Err(e) => {
            return Err(e);
        },
    };
    if vault_balance < config.claim_amount {
        return Err(ErrorCode::InsufficientFunds);
    }
    let total_claimed = match config.total_claimed.checked_add(config.claim_amount) {
        Some(t) => t,
        None => {
            return Err(ErrorCode::MathOverflow);
        },
    };
    let mut fx: Vec<Effect> = Vec::new();
    fx.push(
        Effect::Transfer {
            from: config.vault,
            to: claimer,
            amount: config.claim_amount,
            vault_signed: true,
        },
    );
    push_commit(policy, &mut fx);
    proof {
        assert(fx@ =~= claim_effects(*config, policy, claimer));
    }
    config.total_claimed = total_claimed;
    Ok(fx)
}

} // verus!
