use vstd::prelude::*;
use crate::error::ErrorCode;

verus! {

/// The smallest trade size; every allowed size is a multiple of it.
pub const AMOUNT_STEP: u64 = 500_000_000;

/// The largest trade size.
pub const MAX_TRADE_AMOUNT: u64 = 5_000_000_000;

/// The payout of a claim in whole units of the reserve asset.
pub const CLAIM_UNITS: u64 = 50;

/// The largest number of decimals a new position may have.
pub const MAX_POSITION_DECIMALS: u8 = 9;

/// The room a position record has for the name, in bytes.
pub const MAX_NAME_BYTES: usize = 60;

/// The room a position record has for the symbol, in bytes.
pub const MAX_SYMBOL_BYTES: usize = 32;

/// The room a position record has for the uri, in bytes.
pub const MAX_URI_BYTES: usize = 250;

/// The length of a string in bytes of UTF-8.
pub open spec fn byte_len(s: Seq<char>) -> nat {
    vstd::utf8::encode_utf8(s).len()
}

/// The allowed trade sizes: 500_000_000, 1_000_000_000, ..., 5_000_000_000.
pub open spec fn allowed_amount(a: int) -> bool {
    0 < a <= MAX_TRADE_AMOUNT && a % (AMOUNT_STEP as int) == 0
}

/// Whether `amount` is one of the allowed trade sizes.
pub fn is_allowed_amount(amount: u64) -> (r: bool)
    ensures
        r == allowed_amount(amount as int),
{
    amount > 0 && amount <= MAX_TRADE_AMOUNT && amount % AMOUNT_STEP == 0
}

/// Ten to the power `n`.
pub open spec fn pow10(n: nat) -> nat
    decreases n,
{
    if n == 0 {
        1
    } else {
        10 * pow10((n - 1) as nat)
    }
}

/// The claim payout for a reserve asset with `decimals` decimals.
pub open spec fn claim_amount_for(decimals: nat) -> nat {
    (CLAIM_UNITS * pow10(decimals)) as nat
}

proof fn lemma_pow10_grows(a: nat, b: nat)
    requires
        a <= b,
    ensures
        pow10(a) <= pow10(b),
    decreases b,
{
    if a < b {
        lemma_pow10_grows(a, (b - 1) as nat);
    }
}

/// `50 × 10^decimals`, or `MathOverflow` where that does not fit in a `u64`.
pub fn compute_claim_amount(decimals: u8) -> (r: Result<u64, ErrorCode>)
    ensures
        claim_amount_for(decimals as nat) <= u64::MAX ==> r == Ok::<u64, ErrorCode>(
            claim_amount_for(decimals as nat) as u64,
        ),
        claim_amount_for(decimals as nat) > u64::MAX ==> r == Err::<u64, ErrorCode>(
            ErrorCode::MathOverflow,
        ),
{
    let mut p: u64 = 1;
    let mut i: u8 = 0;
    while i < decimals
        invariant
            i <= decimals,
            p as nat == pow10(i as nat),
        decreases decimals - i,
    {
        match p.checked_mul(10) {
            Some(q) => {
                p = q;
                i = i + 1;
            },
            None => {
                proof {
                    lemma_pow10_grows((i + 1) as nat, decimals as nat);
                }
                return Err(ErrorCode::MathOverflow);
            },
        }
    }
    match CLAIM_UNITS.checked_mul(p) {
        Some(c) => Ok(c),
        None => Err(ErrorCode::MathOverflow),
    }
}

} // verus!
