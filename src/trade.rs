use vstd::prelude::*;
use crate::address::{address_matches, check_address, derived, EntityKey};
use crate::auth::{
    authorize_trade, commits_config, mint_authority, position_mint_authority, trade_owner,
    AuthorizationPolicy, Signers,
};
use crate::effects::Effect;
use crate::error::ErrorCode;
use crate::rules::{
    allowed_amount, byte_len, is_allowed_amount, MAX_NAME_BYTES, MAX_POSITION_DECIMALS,
    MAX_SYMBOL_BYTES, MAX_URI_BYTES,
};
use crate::state::{apply_flow, Config, Flow, Key, TokenMetadata, TokenParams, TokenRecord};

verus! {

/// The error a buy reports, in the order the checks are made, or `None` where it goes through.
pub open spec fn buy_rejection(
    config: Config,
    policy: AuthorizationPolicy,
    s: Signers,
    reserve_mint: Key,
    program: Key,
    position: Key,
    record_address: Key,
    data: TokenParams,
    amount: u64,
    trader_balance: u64,
) -> Option<ErrorCode> {
    if reserve_mint != config.xdegen_mint {
        Some(ErrorCode::InvalidMint)
    } else if trade_owner(policy, config, s) is None {
        Some(ErrorCode::Unauthorized)
    } else if !address_matches(
        program,
        EntityKey::Record { owner: trade_owner(policy, config, s)->0, position },
        record_address,
    ) {
        Some(ErrorCode::CustomError)
    } else if data.name@.len() == 0 {
        Some(ErrorCode::NameLengthZero)
    } else if data.symbol@.len() == 0 {
        Some(ErrorCode::SymbolLengthZero)
    } else if data.supply == 0 {
        Some(ErrorCode::InvalidSupply)
    } else if data.decimals > MAX_POSITION_DECIMALS {
        Some(ErrorCode::InvalidDecimals)
    } else if !allowed_amount(amount as int) {
        Some(ErrorCode::InvalidAmount)
    } else if trader_balance <= amount {
        Some(ErrorCode::InsufficientFunds)
    } else if byte_len(data.name@) > MAX_NAME_BYTES || byte_len(data.symbol@) > MAX_SYMBOL_BYTES
        || byte_len(data.uri@) > MAX_URI_BYTES {
        Some(ErrorCode::CustomError)
    } else if !config.buy_fits() {
        Some(ErrorCode::MathOverflow)
    } else {
        None
    }
}

/// The commit that follows a change of the configuration, where the policy asks for one.
pub open spec fn commit_effects(policy: AuthorizationPolicy) -> Seq<Effect> {
    if commits_config(policy) {
        seq![Effect::CommitConfig]
    } else {
        Seq::empty()
    }
}

/// The calls a buy makes: pay the vault, register the position, mint its supply.
pub open spec fn buy_effects(
    config: Config,
    policy: AuthorizationPolicy,
    owner: Key,
    position: Key,
    amount: u64,
    supply: u64,
) -> Seq<Effect> {
    let authority = mint_authority(policy, config, owner);
    seq![
        Effect::Transfer { from: owner, to: config.vault, amount, vault_signed: false },
        Effect::RegisterMetadata { position, payer: owner, authority },
        Effect::MintTo { position, to: owner, authority, amount: supply },
    ] + commit_effects(policy)
}

/// Appends the commit that the policy asks for after a change of the configuration.
pub(crate) fn push_commit(policy: AuthorizationPolicy, fx: &mut Vec<Effect>)
    ensures
        final(fx)@ == old(fx)@ + commit_effects(policy),
{
    if policy == AuthorizationPolicy::AdminMediated {
        fx.push(Effect::CommitConfig);
    }
    proof {
        assert(final(fx)@ =~= old(fx)@ + commit_effects(policy));
    }
}

/// Opens a new position: checks the descriptor (including that its name,
/// symbol and uri fit the record), the trade size, the trader's reserve
/// balance and that `record_address` is the address `program` derives
/// for the (owner, position) pair; counts the trade and returns the new record
/// with the calls to make. On any error the configuration is left as it was.
pub fn buy_handler(
    config: &mut Config,
    policy: AuthorizationPolicy,
    signers: &Signers,
    reserve_mint: Key,
    program: &Key,
    position: Key,
    record_address: Key,
    data: TokenParams,
    amount: u64,
    trader_balance: u64,
    created_at: i64,
) -> (r: Result<(TokenRecord, Vec<Effect>), ErrorCode>)
    ensures
        old(config).wf() ==> final(config).wf(),
        match buy_rejection(
            *old(config),
            policy,
            *signers,
            reserve_mint,
            *program,
            position,
            record_address,
            data,
            amount,
            trader_balance,
        ) {
            Some(e) => r == Err::<(TokenRecord, Vec<Effect>), ErrorCode>(e) && *final(config) == *old(config),
            None => {
                let owner = trade_owner(policy, *old(config), *signers)->0;
                &&& r matches Ok((rec, fx))
                &&& *final(config) == old(config).after_buy()
                &&& rec.mint == position
                &&& rec.owner == owner
                &&& rec.balance == data.supply
                &&& rec.metadata.name == data.name
                &&& rec.metadata.symbol == data.symbol
                &&& rec.metadata.uri == data.uri
                &&& rec.metadata.decimals == data.decimals
                &&& rec.created_at == created_at
                &&& derived(*program, EntityKey::Record { owner, position }) == Some(
                    (record_address.bytes@, rec.bump),
                )
                &&& fx@ == buy_effects(*old(config), policy, owner, position, amount, data.supply)
            },
        },
{
    if reserve_mint != config.xdegen_mint {
        return Err(ErrorCode::InvalidMint);
    }
    let owner = match authorize_trade(policy, config, signers) {
        Ok(k) => k,
        Err(e) => {
            return Err(e);
        },
    };
    let record_bump = match check_address(
        program,
        &EntityKey::Record { owner, position },
        &record_address,
    ) {
        Some(b) => b,
        None => {
            return Err(ErrorCode::CustomError);
        },
    };
    if data.name.as_str().is_empty() {
        return Err(ErrorCode::NameLengthZero);
    }
    if data.symbol.as_str().is_empty() {
        return Err(ErrorCode::SymbolLengthZero);
    }
    if data.supply == 0 {
        return Err(ErrorCode::InvalidSupply);
    }
    if data.decimals > MAX_POSITION_DECIMALS {
        return Err(ErrorCode::InvalidDecimals);
    }
    if !is_allowed_amount(amount) {
        return Err(ErrorCode::InvalidAmount);
    }
    if trader_balance <= amount {
        return Err(ErrorCode::InsufficientFunds);
    }
    if data.name.as_str().as_bytes().len() > MAX_NAME_BYTES
        || data.symbol.as_str().as_bytes().len() > MAX_SYMBOL_BYTES
        || data.uri.as_str().as_bytes().len() > MAX_URI_BYTES {
        return Err(ErrorCode::CustomError);
    }
    let total_trades = match config.total_trades.checked_add(1) {
        Some(t) => t,
        None => {
            return Err(ErrorCode::MathOverflow);
        },
    };
    let total_buys = match config.total_buys.checked_add(1) {
        Some(t) => t,
        None => {
            return Err(ErrorCode::MathOverflow);
        },
    };
    let authority = position_mint_authority(policy, config, owner);
    let mut fx: Vec<Effect> = Vec::new();
    fx.push(Effect::Transfer { from: owner, to: config.vault, amount, vault_signed: false });
    fx.push(Effect::RegisterMetadata { position, payer: owner, authority });
    fx.push(Effect::MintTo { position, to: owner, authority, amount: data.supply });
    push_commit(policy, &mut fx);
    proof {
        assert(fx@ =~= buy_effects(*config, policy, owner, position, amount, data.supply));
    }
    config.total_trades = total_trades;
    config.total_buys = total_buys;
    let rec = TokenRecord {
        mint: position,
        owner,
        balance: data.supply,
        metadata: TokenMetadata {
            name: data.name,
            symbol: data.symbol,
            uri: data.uri,
            decimals: data.decimals,
        },
        created_at,
        bump: record_bump,
    };
    Ok((rec, fx))
}

/// The error a trade on an existing position reports before its own checks:
/// the reserve asset, the position, the acting owner and the record's address.
pub open spec fn position_rejection(
    config: Config,
    record: TokenRecord,
    policy: AuthorizationPolicy,
    s: Signers,
    reserve_mint: Key,
    program: Key,
    position: Key,
    record_address: Key,
) -> Option<ErrorCode> {
    if reserve_mint != config.xdegen_mint {
        Some(ErrorCode::InvalidMint)
    } else if position != record.mint {
        Some(ErrorCode::CustomError)
    } else if trade_owner(policy, config, s) != Some(record.owner) {
        Some(ErrorCode::Unauthorized)
    } else if !address_matches(
        program,
        EntityKey::Record { owner: record.owner, position },
        record_address,
    ) {
        Some(ErrorCode::CustomError)
    } else {
        None
    }
}

fn check_position(
    config: &Config,
    record: &TokenRecord,
    policy: AuthorizationPolicy,
    signers: &Signers,
    reserve_mint: Key,
    program: &Key,
    position: Key,
    record_address: Key,
) -> (r: Result<(), ErrorCode>)
    ensures
        r == (match position_rejection(
            *config,
            *record,
            policy,
            *signers,
            reserve_mint,
            *program,
            position,
            record_address,
        ) {
            Some(e) => Err::<(), ErrorCode>(e),
            None => Ok(()),
        }),
{
    if reserve_mint != config.xdegen_mint {
        return Err(ErrorCode::InvalidMint);
    }
    if position != record.mint {
        return Err(ErrorCode::CustomError);
    }
    match authorize_trade(policy, config, signers) {
        Ok(k) => {
            if k != record.owner {
                return Err(ErrorCode::Unauthorized);
            }
        },
        Err(e) => {
            return Err(e);
        },
    }
    match check_address(
        program,
        &EntityKey::Record { owner: record.owner, position },
        &record_address,
    ) {
        Some(_) => Ok(()),
        None => Err(ErrorCode::CustomError),
    }
}

/// The error a sell reports, in the order the checks are made, or `None` where it goes through.
pub open spec fn sell_rejection(
    config: Config,
    record: TokenRecord,
    policy: AuthorizationPolicy,
    s: Signers,
    reserve_mint: Key,
    program: Key,
    position: Key,
    record_address: Key,
    sell_amount: u64,
    burn_amount: u64,
    trader_balance: u64,
) -> Option<ErrorCode> {
    if position_rejection(
        config,
        record,
        policy,
        s,
        reserve_mint,
        program,
        position,
        record_address,
    ) is Some {
        position_rejection(config, record, policy, s, reserve_mint, program, position, record_address)
    } else if !allowed_amount(sell_amount as int) {
        Some(ErrorCode::InvalidAmount)
    } else if trader_balance <= sell_amount {
        Some(ErrorCode::InsufficientFunds)
    } else if burn_amount == 0 {
        Some(ErrorCode::InvalidAmount)
    } else if apply_flow(record.balance as int, Flow::Burned(burn_amount)) is None {
        Some(ErrorCode::MathOverflow)
    } else if !config.sell_fits() {
        Some(ErrorCode::MathOverflow)
    } else {
        None
    }
}

/// The calls a sell makes: pay the vault, retire the burned units.
pub open spec fn sell_effects(
    config: Config,
    owner: Key,
    position: Key,
    sell_amount: u64,
    burn_amount: u64,
) -> Seq<Effect> {
    seq![
        Effect::Transfer { from: owner, to: config.vault, amount: sell_amount, vault_signed: false },
        Effect::Burn { position, from: owner, amount: burn_amount },
    ]
}

/// Retires `burn_amount` units of a position against a payment of
/// `sell_amount` to the vault, and counts the trade. `record_address` must be
/// the address `program` derives for the record's (owner, position) pair. On
/// any error the configuration and the record are left as they were.
pub fn sell_handler(
    config: &mut Config,
    record: &mut TokenRecord,
    policy: AuthorizationPolicy,
    signers: &Signers,
    reserve_mint: Key,
    program: &Key,
    position: Key,
    record_address: Key,
    sell_amount: u64,
    burn_amount: u64,
    trader_balance: u64,
) -> (r: Result<Vec<Effect>, ErrorCode>)
    ensures
        old(config).wf() ==> final(config).wf(),
        match sell_rejection(
            *old(config),
            *old(record),
            policy,
            *signers,
            reserve_mint,
            *program,
            position,
            record_address,
            sell_amount,
            burn_amount,
            trader_balance,
        ) {
            Some(e) => {
                &&& r == Err::<Vec<Effect>, ErrorCode>(e)
                &&& *final(config) == *old(config)
                &&& *final(record) == *old(record)
            },
            None => {
                &&& r matches Ok(fx)
                &&& *final(config) == old(config).after_sell()
                &&& apply_flow(old(record).balance as int, Flow::Burned(burn_amount)) == Some(
                    final(record).balance as int,
                )
                &&& *final(record) == old(record).with_balance(final(record).balance)
                &&& fx@ == sell_effects(*old(config), old(record).owner, position, sell_amount, burn_amount)
            },
        },
{
    match check_position(
        config,
        record,
        policy,
        signers,
        reserve_mint,
        program,
        position,
        record_address,
    ) {
        Ok(()) => {},
        Err(e) => {
            return Err(e);
        },
    }
    if !is_allowed_amount(sell_amount) {
        return Err(ErrorCode::InvalidAmount);
    }
    if trader_balance <= sell_amount {
        return Err(ErrorCode::InsufficientFunds);
    }
    if burn_amount == 0 {
        return Err(ErrorCode::InvalidAmount);
    }
    let balance = match record.balance.checked_sub(burn_amount) {
        Some(b) => b,
        None => {
            return Err(ErrorCode::MathOverflow);
        },
    };
    let total_trades = match config.total_trades.checked_add(1) {
        Some(t) => t,
        None => {
            return Err(ErrorCode::MathOverflow);
        },
    };
    let total_sells = match config.total_sells.checked_add(1) {
        Some(t) => t,
        None => {
            return Err(ErrorCode::MathOverflow);
        },
    };
    let owner = record.owner;
    let mut fx: Vec<Effect> = Vec::new();
    fx.push(Effect::Transfer { from: owner, to: config.vault, amount: sell_amount, vault_signed: false });
    fx.push(Effect::Burn { position, from: owner, amount: burn_amount });
    proof {
        assert(fx@ =~= sell_effects(*config, owner, position, sell_amount, burn_amount));
    }
    record.balance = balance;
    config.total_trades = total_trades;
    config.total_sells = total_sells;
    Ok(fx)
}

/// The error a mint-more reports, in the order the checks are made, or `None` where it goes through.
pub open spec fn mint_rejection(
    config: Config,
    record: TokenRecord,
    policy: AuthorizationPolicy,
    s: Signers,
    reserve_mint: Key,
    program: Key,
    position: Key,
    record_address: Key,
    buy_amount: u64,
    mint_amount: u64,
    trader_balance: u64,
) -> Option<ErrorCode> {
    if position_rejection(
        config,
        record,
        policy,
        s,
        reserve_mint,
        program,
        position,
        record_address,
    ) is Some {
        position_rejection(config, record, policy, s, reserve_mint, program, position, record_address)
    } else if mint_amount == 0 {
        Some(ErrorCode::InvalidAmount)
    } else if !allowed_amount(buy_amount as int) {
        Some(ErrorCode::InvalidAmount)
    } else if trader_balance == 0 {
        Some(ErrorCode::InsufficientFunds)
    } else if apply_flow(record.balance as int, Flow::Minted(mint_amount)) is None {
        Some(ErrorCode::MathOverflow)
    } else if !config.buy_fits() {
        Some(ErrorCode::MathOverflow)
    } else {
        None
    }
}

/// The calls a mint-more makes: pay the vault, mint the new units.
pub open spec fn mint_effects(
    config: Config,
    policy: AuthorizationPolicy,
    owner: Key,
    position: Key,
    buy_amount: u64,
    mint_amount: u64,
) -> Seq<Effect> {
    seq![
        Effect::Transfer { from: owner, to: config.vault, amount: buy_amount, vault_signed: false },
        Effect::MintTo {
            position,
            to: owner,
            authority: mint_authority(policy, config, owner),
            amount: mint_amount,
        },
    ]
}

/// Adds `mint_amount` units to an existing position against a payment of
/// `buy_amount` to the vault, and counts the trade as a buy. `record_address`
/// must be the address `program` derives for the record's (owner, position)
/// pair. On any error the configuration and the record are left as they were.
pub fn mint_token_handler(
    config: &mut Config,
    record: &mut TokenRecord,
    policy: AuthorizationPolicy,
    signers: &Signers,
    reserve_mint: Key,
    program: &Key,
    position: Key,
    record_address: Key,
    buy_amount: u64,
    mint_amount: u64,
    trader_balance: u64,
) -> (r: Result<Vec<Effect>, ErrorCode>)
    ensures
        old(config).wf() ==> final(config).wf(),
        match mint_rejection(
            *old(config),
            *old(record),
            policy,
            *signers,
            reserve_mint,
            *program,
            position,
            record_address,
            buy_amount,
            mint_amount,
            trader_balance,
        ) {
            Some(e) => {
                &&& r == Err::<Vec<Effect>, ErrorCode>(e)
                &&& *final(config) == *old(config)
                &&& *final(record) == *old(record)
            },
            None => {
                &&& r matches Ok(fx)
                &&& *final(config) == old(config).after_buy()
                &&& apply_flow(old(record).balance as int, Flow::Minted(mint_amount)) == Some(
                    final(record).balance as int,
                )
                &&& *final(record) == old(record).with_balance(final(record).balance)
                &&& fx@ == mint_effects(
                    *old(config),
                    policy,
                    old(record).owner,
                    position,
                    buy_amount,
                    mint_amount,
                )
            },
        },
{
    match check_position(
        config,
        record,
        policy,
        signers,
        reserve_mint,
        program,
        position,
        record_address,
    ) {
        Ok(()) => {},
        Err(e) => {
            return Err(e);
        },
    }
    if mint_amount == 0 {
        return Err(ErrorCode::InvalidAmount);
    }
    if !is_allowed_amount(buy_amount) {
        return Err(ErrorCode::InvalidAmount);
    }
    if trader_balance == 0 {
        return Err(ErrorCode::InsufficientFunds);
    }
    let balance = match record.balance.checked_add(mint_amount) {
        Some(b) => b,
        None => {
            return Err(ErrorCode::MathOverflow);
        },
    };
    let total_trades = match config.total_trades.checked_add(1) {
        Some(t) => t,
        None => {
            return Err(ErrorCode::MathOverflow);
        },
    };
    let total_buys = match config.total_buys.checked_add(1) {
        Some(t) => t,
        None => {
            return Err(ErrorCode::MathOverflow);
        },
    };
    let owner = record.owner;
    let authority = position_mint_authority(policy, config, owner);
    let mut fx: Vec<Effect> = Vec::new();
    fx.push(Effect::Transfer { from: owner, to: config.vault, amount: buy_amount, vault_signed: false });
    fx.push(Effect::MintTo { position, to: owner, authority, amount: mint_amount });
    proof {
        assert(fx@ =~= mint_effects(*config, policy, owner, position, buy_amount, mint_amount));
    }
    record.balance = balance;
    config.total_trades = total_trades;
    config.total_buys = total_buys;
    Ok(fx)
}

/// Minting `amount` more units of a position and then selling with a burn of
/// the same `amount` gives back the record as it was before the mint.
pub proof fn lemma_mint_then_sell_round_trip(
    before: TokenRecord,
    minted: TokenRecord,
    sold: TokenRecord,
    amount: u64,
)
    requires
        apply_flow(before.balance as int, Flow::Minted(amount)) == Some(minted.balance as int),
        minted == before.with_balance(minted.balance),
        apply_flow(minted.balance as int, Flow::Burned(amount)) == Some(sold.balance as int),
        sold == minted.with_balance(sold.balance),
    ensures
        sold == before,
{
}

} // verus!
