//! Why an operation is rejected.

use vstd::prelude::*;

verus! {

/// Why the ledger rejects an operation. A rejected operation changes
/// nothing.
#[derive(Clone, Copy, Debug, PartialEq, Eq, Structural)]
pub enum USVError {
    /// The program is paused.
    ProgramPaused,
    /// Trading is paused.
    TradingPaused,
    /// The caller is not the authority.
    Unauthorized,
    /// A batch holds between 1 and 1000 codes.
    InvalidQRCodeCount,
    /// A partner receives 1000 tokens or more.
    MinimumPartnerTransfer,
    /// The code's claim record exists.
    QRCodeAlreadyClaimed,
    /// The record that the operation creates exists.
    AlreadyInitialized,
    /// The batch's address is taken.
    DuplicateBatchAddress,
    /// The code names no claim address.
    InvalidQRCode,
    /// A price of zero, or an amount beyond what a counter holds: the codes
    /// issued are counted in 32 bits, the tokens of a purchase, the volume
    /// and the purchases in 64.
    InvalidAmount,
    /// The payment buys no token.
    InsufficientPayment,
    /// Nothing is left to hand out, or the token ledger found too little.
    InsufficientBalance,
    /// No record can stand at the address, or the token ledger knows no
    /// such account.
    InvalidAccount,
    /// The record that the operation works on does not exist yet.
    NotInitialized,
}

/// Why the token ledger refuses to mint or to transfer.
#[derive(Clone, Copy, Debug, PartialEq, Eq, Structural)]
pub enum TokenError {
    InsufficientBalance,
    InvalidAccount,
}

impl USVError {
    /// The rejection that a refusal of the token ledger becomes.
    pub open spec fn of_token(refusal: TokenError) -> USVError {
        match refusal {
            TokenError::InsufficientBalance => USVError::InsufficientBalance,
            TokenError::InvalidAccount => USVError::InvalidAccount,
        }
    }

    /// The rejection that a refusal of the token ledger becomes.
    pub fn from_token(refusal: TokenError) -> (r: USVError)
        ensures
            r == USVError::of_token(refusal),
    {
        match refusal {
            TokenError::InsufficientBalance => USVError::InsufficientBalance,
            TokenError::InvalidAccount => USVError::InvalidAccount,
        }
    }

    /// The sentence shown for a rejection.
    pub open spec fn message_text(self) -> Seq<char> {
        match self {
            USVError::ProgramPaused => "Program is currently paused"@,
            USVError::TradingPaused => "Trading is currently paused"@,
            USVError::Unauthorized => "Unauthorized access"@,
            USVError::InvalidQRCodeCount => "Invalid QR code count. Must be between 1 and 1000"@,
            USVError::MinimumPartnerTransfer => "Minimum partner transfer is 1000 tokens"@,
            USVError::QRCodeAlreadyClaimed => "QR code has already been claimed"@,
            USVError::AlreadyInitialized => "Already initialized"@,
            USVError::DuplicateBatchAddress => "Batch address is already in use"@,
            USVError::InvalidQRCode => "Invalid QR code provided"@,
            USVError::InvalidAmount => "Invalid amount specified"@,
            USVError::InsufficientPayment => "Insufficient payment for token purchase"@,
            USVError::InsufficientBalance => "Insufficient token balance"@,
            USVError::InvalidAccount => "Invalid account"@,
            USVError::NotInitialized => "Not initialized"@,
        }
    }

    /// The sentence shown for a rejection.
    pub fn message(&self) -> (r: &'static str)
        ensures
            r@ == self.message_text(),
    {
        match self {
            USVError::ProgramPaused => "Program is currently paused",
            USVError::TradingPaused => "Trading is currently paused",
            USVError::Unauthorized => "Unauthorized access",
            USVError::InvalidQRCodeCount => "Invalid QR code count. Must be between 1 and 1000",
            USVError::MinimumPartnerTransfer => "Minimum partner transfer is 1000 tokens",
            USVError::QRCodeAlreadyClaimed => "QR code has already been claimed",
            USVError::AlreadyInitialized => "Already initialized",
            USVError::DuplicateBatchAddress => "Batch address is already in use",
            USVError::InvalidQRCode => "Invalid QR code provided",
            USVError::InvalidAmount => "Invalid amount specified",
            USVError::InsufficientPayment => "Insufficient payment for token purchase",
            USVError::InsufficientBalance => "Insufficient token balance",
            USVError::InvalidAccount => "Invalid account",
            USVError::NotInitialized => "Not initialized",
        }
    }
}

} // verus!
