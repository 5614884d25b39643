//! Who takes part in each operation, and what an operation asks of the
//! token ledger.

use crate::address::Address;
use vstd::prelude::*;

verus! {

/// Who sets the ledger up: the caller becomes its authority.
#[derive(Clone, Copy, Debug, PartialEq, Eq)]
pub struct Initialize {
    pub authority: Address,
    pub mint: Address,
}

/// Who asks for a batch of codes.
#[derive(Clone, Copy, Debug, PartialEq, Eq)]
pub struct GenerateQRCodes {
    pub authority: Address,
}

/// Who receives the token of a claimed code.
#[derive(Clone, Copy, Debug, PartialEq, Eq)]
pub struct ClaimTokens {
    pub claimer: Address,
}

/// Who sends tokens to which partner.
#[derive(Clone, Copy, Debug, PartialEq, Eq)]
pub struct TransferToPartner {
    pub authority: Address,
    pub partner: Address,
}

/// Who pauses or resumes the program.
#[derive(Clone, Copy, Debug, PartialEq, Eq)]
pub struct SetPauseState {
    pub authority: Address,
}

/// Who opens trading, and for which mint.
#[derive(Clone, Copy, Debug, PartialEq, Eq)]
pub struct InitializeTrading {
    pub authority: Address,
    pub usv_mint: Address,
}

/// Who buys.
#[derive(Clone, Copy, Debug, PartialEq, Eq)]
pub struct BuyTokensFixedPrice {
    pub buyer: Address,
}

/// Who changes the price.
#[derive(Clone, Copy, Debug, PartialEq, Eq)]
pub struct UpdateFixedPrice {
    pub authority: Address,
}

/// Who pauses or resumes trading.
#[derive(Clone, Copy, Debug, PartialEq, Eq)]
pub struct ToggleTrading {
    pub authority: Address,
}

/// An order to the token ledger to mint `amount` of `mint` to the balance
/// of `to`.
#[derive(Clone, Copy, Debug, PartialEq, Eq)]
pub struct TokenMint {
    pub mint: Address,
    pub to: Address,
    pub amount: u64,
}

/// An order to the token ledger to move `amount` of `mint` from the balance
/// of `from` to the balance of `to`.
#[derive(Clone, Copy, Debug, PartialEq, Eq)]
pub struct TokenTransfer {
    pub mint: Address,
    pub from: Address,
    pub to: Address,
    pub amount: u64,
}

/// An order to move `amount` base units of the native currency.
#[derive(Clone, Copy, Debug, PartialEq, Eq)]
pub struct NativeTransfer {
    pub from: Address,
    pub to: Address,
    pub amount: u64,
}

/// The two legs of a purchase: the buyer pays, the authority delivers.
#[derive(Clone, Copy, Debug, PartialEq, Eq)]
pub struct PurchaseLegs {
    pub payment: NativeTransfer,
    pub delivery: TokenTransfer,
}

} // verus!
