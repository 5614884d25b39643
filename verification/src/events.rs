//! What the operations report to the event sink.

use crate::address::Address;
use crate::error::USVError;
use vstd::prelude::*;

verus! {

/// A batch of codes was made.
#[derive(Clone, Debug, PartialEq, Eq)]
pub struct QRCodesGenerated {
    pub batch_id: String,
    pub count: u32,
    pub partner_id: Option<String>,
    pub authority: Address,
}

/// A code was claimed.
#[derive(Clone, Debug, PartialEq, Eq)]
pub struct TokensClaimed {
    pub qr_hash: String,
    pub claimer: Address,
    pub amount: u64,
    pub user_email: Option<String>,
    pub timestamp: i64,
}

/// Tokens were sent to a partner.
#[derive(Clone, Debug, PartialEq, Eq)]
pub struct PartnerTransfer {
    pub partner: Address,
    pub amount: u64,
    pub partner_info: String,
    pub timestamp: i64,
}

/// A snapshot of the issuance record.
#[derive(Clone, Copy, Debug, PartialEq, Eq)]
pub struct ProgramStats {
    pub total_supply: u64,
    pub tokens_claimed: u64,
    pub total_qr_codes: u32,
    pub is_paused: bool,
    pub authority: Address,
}

/// Tokens were bought at the fixed price.
#[derive(Clone, Copy, Debug, PartialEq, Eq)]
pub struct TokenPurchase {
    pub buyer: Address,
    pub sol_amount: u64,
    pub token_amount: u64,
    pub timestamp: i64,
}

/// The fixed price was changed.
#[derive(Clone, Copy, Debug, PartialEq, Eq)]
pub struct PriceUpdated {
    pub old_price: u64,
    pub new_price: u64,
    pub timestamp: i64,
}

/// A snapshot of the trading record.
#[derive(Clone, Copy, Debug, PartialEq, Eq)]
pub struct TradingStats {
    pub total_sales_volume: u64,
    pub total_purchases: u64,
    pub fixed_price_cents: u64,
    pub is_active: bool,
}

/// What a `QRCodesGenerated` event holds.
pub struct QRCodesGeneratedView {
    pub batch_id: Seq<char>,
    pub count: u32,
    pub partner_id: Option<Seq<char>>,
    pub authority: Address,
}

impl View for QRCodesGenerated {
    type V = QRCodesGeneratedView;

    open spec fn view(&self) -> QRCodesGeneratedView {
        QRCodesGeneratedView {
            batch_id: self.batch_id@,
            count: self.count,
            partner_id: crate::state::text_view(self.partner_id),
            authority: self.authority,
        }
    }
}

/// What a `TokensClaimed` event holds.
pub struct TokensClaimedView {
    pub qr_hash: Seq<char>,
    pub claimer: Address,
    pub amount: u64,
    pub user_email: Option<Seq<char>>,
    pub timestamp: i64,
}

impl View for TokensClaimed {
    type V = TokensClaimedView;

    open spec fn view(&self) -> TokensClaimedView {
        TokensClaimedView {
            qr_hash: self.qr_hash@,
            claimer: self.claimer,
            amount: self.amount,
            user_email: crate::state::text_view(self.user_email),
            timestamp: self.timestamp,
        }
    }
}

/// What a `PartnerTransfer` event holds.
pub struct PartnerTransferView {
    pub partner: Address,
    pub amount: u64,
    pub partner_info: Seq<char>,
    pub timestamp: i64,
}

impl View for PartnerTransfer {
    type V = PartnerTransferView;

    open spec fn view(&self) -> PartnerTransferView {
        PartnerTransferView {
            partner: self.partner,
            amount: self.amount,
            partner_info: self.partner_info@,
            timestamp: self.timestamp,
        }
    }
}

/// What an operation returned, with its event taken by its view.
pub open spec fn outcome_view<T: View>(outcome: Result<T, USVError>) -> Result<T::V, USVError> {
    match outcome {
        Ok(event) => Ok(event@),
        Err(e) => Err(e),
    }
}

} // verus!
