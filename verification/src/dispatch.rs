//! The plain values that a dispatched call carries in and out: who sent it,
//! and why it failed.

use vstd::prelude::*;

use crate::collectibles;

verus! {

/// An account of the runtime.
pub type AccountId = u64;

/// An amount of the runtime's currency.
pub type Balance = u128;

/// A block height.
pub type BlockNumber = u32;

/// The origin of a dispatched call.
#[derive(Clone, Copy, Debug, PartialEq, Eq, Structural)]
pub enum Origin {
    /// The root of the runtime.
    Root,
    /// An account that signed the call.
    Signed(AccountId),
    /// No origin: an unsigned call.
    Unsigned,
}

/// Reasons a token operation is refused.
#[derive(Clone, Copy, Debug, PartialEq, Eq, Structural)]
pub enum TokenError {
    FundsUnavailable,
    OnlyProvider,
    BelowMinimum,
    CannotCreate,
    UnknownAsset,
    Frozen,
    Unsupported,
    CannotCreateHold,
    NotExpendable,
    Blocked,
}

/// Arithmetic failures.
#[derive(Clone, Copy, Debug, PartialEq, Eq, Structural)]
pub enum ArithmeticError {
    Underflow,
    Overflow,
    DivisionByZero,
}

/// Why a dispatched call failed.
#[derive(Clone, Copy, Debug, PartialEq, Eq, Structural)]
pub enum DispatchError {
    /// Some other error.
    Other,
    /// The call was not made by an origin that may make it.
    BadOrigin,
    /// An error of the collectibles pallet.
    Module(collectibles::Error),
    /// A token operation failed.
    Token(TokenError),
    /// An arithmetic operation failed.
    Arithmetic(ArithmeticError),
}

/// The result of a dispatched call.
pub type DispatchResult = Result<(), DispatchError>;

/// The account that signed `origin`, or `BadOrigin` when no account did.
pub fn ensure_signed(origin: Origin) -> (r: Result<AccountId, DispatchError>)
    ensures
        match origin {
            Origin::Signed(who) => r == Ok::<AccountId, DispatchError>(who),
            _ => r == Err::<AccountId, DispatchError>(DispatchError::BadOrigin),
        },
{
    match origin {
        Origin::Signed(who) => Ok(who),
        _ => Err(DispatchError::BadOrigin),
    }
}

} // verus!
