//! The records that the ledger keeps.

use crate::address::Address;
use vstd::prelude::*;

verus! {

/// Base units in one token: the token has six decimals.
pub const TOKEN_SCALE: u64 = 1_000_000;

/// The whole supply, minted once: one billion tokens.
pub const TOTAL_SUPPLY: u64 = 1_000_000_000_000_000;

/// What one redemption code is worth: one token.
pub const CLAIM_AMOUNT: u64 = 1_000_000;

/// The least that a partner is sent: a thousand tokens.
pub const MIN_PARTNER_TRANSFER: u64 = 1_000_000_000;

/// The most codes that one batch holds.
pub const MAX_BATCH_CODES: u32 = 1000;

/// The price of one token, in cents, when trading opens.
pub const DEFAULT_PRICE_CENTS: u64 = 20;

/// Base units in one unit of the native currency.
pub const NATIVE_SCALE: u64 = 1_000_000_000;

/// The issuance record: one for the whole ledger.
#[derive(Clone, Copy, Debug, PartialEq, Eq)]
pub struct USVState {
    pub authority: Address,
    pub mint: Address,
    pub total_supply: u64,
    pub tokens_claimed: u64,
    pub total_qr_codes: u32,
    pub is_paused: bool,
}

/// The trading record: one for the whole ledger.
#[derive(Clone, Copy, Debug, PartialEq, Eq)]
pub struct TradingState {
    pub authority: Address,
    pub usv_mint: Address,
    pub fixed_price_cents: u64,
    pub is_active: bool,
    pub total_sales_volume: u64,
    pub total_purchases: u64,
}

/// A batch of redemption codes, as it was made.
#[derive(Clone, Debug, PartialEq, Eq)]
pub struct QRBatch {
    pub batch_id: String,
    pub count: u32,
    pub partner_id: Option<String>,
    pub batch_info: String,
    pub qr_hashes: Vec<String>,
    pub created_at: i64,
    pub authority: Address,
}

/// The record that a code has been claimed. It exists from the claim on.
#[derive(Clone, Debug, PartialEq, Eq)]
pub struct QRClaim {
    pub qr_hash: String,
    pub claimer: Address,
    pub claimed_at: i64,
    pub user_email: Option<String>,
    pub is_claimed: bool,
}

/// The characters of a text that may be missing.
pub open spec fn text_view(text: Option<String>) -> Option<Seq<char>> {
    match text {
        Some(t) => Some(t@),
        None => None,
    }
}

/// The characters of each text of a list.
pub open spec fn texts_view(texts: Seq<String>) -> Seq<Seq<char>> {
    texts.map_values(|t: String| t@)
}

/// What a batch holds.
pub struct QRBatchView {
    pub batch_id: Seq<char>,
    pub count: u32,
    pub partner_id: Option<Seq<char>>,
    pub batch_info: Seq<char>,
    pub qr_hashes: Seq<Seq<char>>,
    pub created_at: i64,
    pub authority: Address,
}

impl View for QRBatch {
    type V = QRBatchView;

    open spec fn view(&self) -> QRBatchView {
        QRBatchView {
            batch_id: self.batch_id@,
            count: self.count,
            partner_id: text_view(self.partner_id),
            batch_info: self.batch_info@,
            qr_hashes: texts_view(self.qr_hashes@),
            created_at: self.created_at,
            authority: self.authority,
        }
    }
}

/// What a claim record holds.
pub struct QRClaimView {
    pub qr_hash: Seq<char>,
    pub claimer: Address,
    pub claimed_at: i64,
    pub user_email: Option<Seq<char>>,
    pub is_claimed: bool,
}

impl View for QRClaim {
    type V = QRClaimView;

    open spec fn view(&self) -> QRClaimView {
        QRClaimView {
            qr_hash: self.qr_hash@,
            claimer: self.claimer,
            claimed_at: self.claimed_at,
            user_email: text_view(self.user_email),
            is_claimed: self.is_claimed,
        }
    }
}

/// A copy of a text that may be missing.
pub fn copy_text(text: &Option<String>) -> (r: Option<String>)
    ensures
        text_view(r) == text_view(*text),
{
    match text {
        Some(t) => Some(t.clone()),
        None => None,
    }
}

} // verus!
