use vstd::prelude::*;

verus! {

/// The error kinds that an operation on the ledger can report.
#[derive(Clone, Copy, Debug, PartialEq, Eq, Structural)]
pub enum ErrorCode {
    /// A constraint on the supplied accounts does not hold.
    CustomError,
    /// An amount is zero or outside the allowed set.
    InvalidAmount,
    /// The reserve asset supplied is not the vault's reserve asset.
    InvalidMint,
    /// A new position was asked for with a supply of zero.
    InvalidSupply,
    /// A new position was asked for with more than nine decimals.
    InvalidDecimals,
    /// A new position was asked for with an empty name.
    NameLengthZero,
    /// A new position was asked for with an empty symbol.
    SymbolLengthZero,
    /// A balance does not cover the amount asked for.
    InsufficientFunds,
    /// The acting identity is not the one the operation demands.
    Unauthorized,
    /// A checked addition, subtraction or multiplication went out of range.
    MathOverflow,
}

} // verus!
