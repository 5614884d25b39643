//! Issuance: setting the ledger up, making batches of redemption codes,
//! claiming a code, sending tokens to a partner, pausing.
//!
//! Each operation is one atomic step. It either changes the ledger as its
//! step function says, or is rejected and changes nothing. Where an
//! operation moves tokens, the host has the token ledger carry out the
//! order that the matching `prepare_` function returns, inside the same
//! step, and hands the token ledger's answer to the operation.

use crate::address::{batch_address, batch_address_of, claim_address, claim_address_of, Address};
use crate::codes::{
    batch_name, batch_name_text, code_preimage, code_text, is_code, redemption_code,
};
use crate::error::{TokenError, USVError};
use crate::events::{
    outcome_view, PartnerTransfer, PartnerTransferView, ProgramStats, QRCodesGenerated,
    QRCodesGeneratedView, TokensClaimed, TokensClaimedView,
};
use crate::instruction::{
    ClaimTokens, GenerateQRCodes, Initialize, SetPauseState, TokenMint, TokenTransfer,
    TransferToPartner,
};
use crate::ledger::{BatchEntryView, ClaimEntryView, Ledger, LedgerView};
use crate::state::{
    copy_text, text_view, texts_view, QRBatch, QRBatchView, QRClaim, QRClaimView, USVState,
    CLAIM_AMOUNT, MAX_BATCH_CODES, MIN_PARTNER_TRANSFER, TOTAL_SUPPLY,
};
use vstd::prelude::*;

verus! {

/// The issuance record as `initialize` creates it: the whole supply, nothing
/// claimed, no code issued, not paused.
pub open spec fn initial_state(ctx: Initialize) -> USVState {
    USVState {
        authority: ctx.authority,
        mint: ctx.mint,
        total_supply: TOTAL_SUPPLY,
        tokens_claimed: 0,
        total_qr_codes: 0,
        is_paused: false,
    }
}

/// What `prepare_initialize` returns: the order to mint the whole supply to
/// the authority, unless the issuance record exists.
pub open spec fn initialize_order(s: LedgerView, ctx: Initialize) -> Result<TokenMint, USVError> {
    if s.usv_state is Some {
        Err(USVError::AlreadyInitialized)
    } else {
        Ok(TokenMint { mint: ctx.mint, to: ctx.authority, amount: TOTAL_SUPPLY })
    }
}

/// What `initialize` does: it creates the issuance record, unless the record
/// exists or the token ledger refused to mint.
pub open spec fn initialize_step(s: LedgerView, ctx: Initialize, minted: Result<(), TokenError>) -> (
    LedgerView,
    Result<(), USVError>,
) {
    match initialize_order(s, ctx) {
        Err(e) => (s, Err(e)),
        Ok(_) => match minted {
            Err(refusal) => (s, Err(USVError::of_token(refusal))),
            Ok(_) => (LedgerView { usv_state: Some(initial_state(ctx)), ..s }, Ok(())),
        },
    }
}

/// The order that `initialize` needs carried out, or why it would be
/// rejected.
pub fn prepare_initialize(ledger: &Ledger, ctx: &Initialize) -> (r: Result<TokenMint, USVError>)
    ensures
        r == initialize_order(ledger@, *ctx),
{
    if ledger.usv_state().is_some() {
        Err(USVError::AlreadyInitialized)
    } else {
        Ok(TokenMint { mint: ctx.mint, to: ctx.authority, amount: TOTAL_SUPPLY })
    }
}

/// Sets the ledger up: creates the issuance record with the caller as
/// authority. `minted` is what the token ledger answered to the order of
/// `prepare_initialize`.
pub fn initialize(ledger: &mut Ledger, ctx: &Initialize, minted: Result<(), TokenError>) -> (r: Result<
    (),
    USVError,
>)
    ensures
        (final(ledger)@, r) == initialize_step(old(ledger)@, *ctx, minted),
        final(ledger)@.wf(),
{
    proof {
        use_type_invariant(&*ledger);
    }
    let order = match prepare_initialize(ledger, ctx) {
        Err(e) => { return Err(e); },
        Ok(order) => order,
    };
    if let Err(refusal) = minted {
        return Err(USVError::from_token(refusal));
    }
    ledger.store_usv_state(
        USVState {
            authority: order.to,
            mint: order.mint,
            total_supply: order.amount,
            tokens_claimed: 0,
            total_qr_codes: 0,
            is_paused: false,
        },
    );
    Ok(())
}

/// The codes of a batch of `count` codes, made at time `now` when
/// `issued` codes had been issued: the code at index `i` is hashed from the
/// serial number `issued + i`, the time, the authority and `i`.
pub open spec fn batch_codes(issued: nat, now: int, authority: Address, count: nat) -> Seq<Seq<char>> {
    Seq::new(
        count,
        |i: int| code_text(code_preimage(issued + i as nat, now, authority, i as nat)),
    )
}

/// Why `generate_qr_codes` would be rejected, if it would. The first of
/// these that holds decides: the ledger is not set up; the program is
/// paused; the count is not between 1 and 1000; the caller is not the
/// authority; the batch has no address; a batch stands at the address; the
/// codes issued would no longer be counted in 32 bits.
pub open spec fn generate_rejection(s: LedgerView, ctx: GenerateQRCodes, count: u32) -> Option<
    USVError,
> {
    match s.usv_state {
        None => Some(USVError::NotInitialized),
        Some(state) => if state.is_paused {
            Some(USVError::ProgramPaused)
        } else if count < 1 || count > MAX_BATCH_CODES {
            Some(USVError::InvalidQRCodeCount)
        } else if ctx.authority != state.authority {
            Some(USVError::Unauthorized)
        } else {
            match batch_address_of(state.authority, state.total_qr_codes) {
                None => Some(USVError::InvalidAccount),
                Some(address) => if s.has_batch(address) {
                    Some(USVError::DuplicateBatchAddress)
                } else if state.total_qr_codes + count > u32::MAX {
                    Some(USVError::InvalidAmount)
                } else {
                    None
                },
            }
        },
    }
}

/// The batch that `generate_qr_codes` creates.
pub open spec fn generated_batch(
    state: USVState,
    count: u32,
    partner_id: Option<Seq<char>>,
    batch_info: Seq<char>,
    now: i64,
) -> QRBatchView {
    QRBatchView {
        batch_id: batch_name_text(now as int),
        count,
        partner_id,
        batch_info,
        qr_hashes: batch_codes(state.total_qr_codes as nat, now as int, state.authority, count as nat),
        created_at: now,
        authority: state.authority,
    }
}

/// What `generate_qr_codes` does: unless it is rejected, it creates the
/// batch at the address that the authority and the codes issued so far
/// name, and counts the new codes.
pub open spec fn generate_qr_codes_step(
    s: LedgerView,
    ctx: GenerateQRCodes,
    count: u32,
    partner_id: Option<Seq<char>>,
    batch_info: Seq<char>,
    now: i64,
) -> (LedgerView, Result<QRCodesGeneratedView, USVError>) {
    match generate_rejection(s, ctx, count) {
        Some(e) => (s, Err(e)),
        None => {
            let state = s.usv_state->0;
            let address = batch_address_of(state.authority, state.total_qr_codes)->0;
            let batch = generated_batch(state, count, partner_id, batch_info, now);
            (
                LedgerView {
                    usv_state: Some(
                        USVState { total_qr_codes: (state.total_qr_codes + count) as u32, ..state },
                    ),
                    batches: s.batches.push(BatchEntryView { address, batch }),
                    ..s
                },
                Ok(
                    QRCodesGeneratedView {
                        batch_id: batch.batch_id,
                        count,
                        partner_id,
                        authority: state.authority,
                    },
                ),
            )
        },
    }
}

fn make_codes(issued: u32, now: i64, authority: &Address, count: u32) -> (r: Vec<String>)
    requires
        issued + count <= u32::MAX,
    ensures
        texts_view(r@) == batch_codes(issued as nat, now as int, *authority, count as nat),
        forall|k: int| 0 <= k < count ==> is_code(#[trigger] texts_view(r@)[k]),
{
    let mut codes: Vec<String> = Vec::new();
    let mut i: u32 = 0;
    while i < count
        invariant
            i <= count,
            issued + count <= u32::MAX,
            codes@.len() == i,
            forall|k: int|
                0 <= k < i ==> (#[trigger] codes@[k])@ == code_text(
                    code_preimage(issued as nat + k as nat, now as int, *authority, k as nat),
                ),
            forall|k: int| 0 <= k < i ==> is_code((#[trigger] codes@[k])@),
        decreases count - i,
    {
        codes.push(redemption_code(issued + i, now, authority, i));
        i = i + 1;
    }
    assert(texts_view(codes@) =~= batch_codes(issued as nat, now as int, *authority, count as nat));
    codes
}

/// Makes a batch of `count` redemption codes for the authority. Each code
/// of the batch is sixteen lower-case hexadecimal digits.
pub fn generate_qr_codes(
    ledger: &mut Ledger,
    ctx: &GenerateQRCodes,
    count: u32,
    partner_id: Option<String>,
    batch_info: String,
    now: i64,
) -> (r: Result<QRCodesGenerated, USVError>)
    ensures
        (final(ledger)@, outcome_view(r)) == generate_qr_codes_step(
            old(ledger)@,
            *ctx,
            count,
            text_view(partner_id),
            batch_info@,
            now,
        ),
        final(ledger)@.wf(),
        r is Ok ==> forall|k: int|
            0 <= k < count ==> is_code(#[trigger] final(ledger)@.batches.last().batch.qr_hashes[k]),
{
    proof {
        use_type_invariant(&*ledger);
    }
    let state = match ledger.usv_state() {
        None => { return Err(USVError::NotInitialized); },
        Some(state) => state,
    };
    if state.is_paused {
        return Err(USVError::ProgramPaused);
    }
    if count < 1 || count > MAX_BATCH_CODES {
        return Err(USVError::InvalidQRCodeCount);
    }
    if ctx.authority != state.authority {
        return Err(USVError::Unauthorized);
    }
    let address = match batch_address(&state.authority, state.total_qr_codes) {
        None => { return Err(USVError::InvalidAccount); },
        Some(address) => address,
    };
    if ledger.has_batch(&address) {
        return Err(USVError::DuplicateBatchAddress);
    }
    if count > u32::MAX - state.total_qr_codes {
        return Err(USVError::InvalidAmount);
    }
    let batch_id = batch_name(now);
    let event = QRCodesGenerated {
        batch_id: batch_id.clone(),
        count,
        partner_id: copy_text(&partner_id),
        authority: state.authority,
    };
    let batch = QRBatch {
        batch_id,
        count,
        partner_id,
        batch_info,
        qr_hashes: make_codes(state.total_qr_codes, now, &state.authority, count),
        created_at: now,
        authority: state.authority,
    };
    ledger.create_batch(address, batch);
    ledger.store_usv_state(USVState { total_qr_codes: state.total_qr_codes + count, ..state });
    Ok(event)
}

/// Why `claim_tokens` would be rejected before the token ledger is asked,
/// if it would. The first of these that holds decides: the ledger is not
/// set up; the program is paused; the code has no claim address; a claim
/// record stands at the code's address; with one token more, more would be
/// claimed than was minted. Whether the code was ever issued in a batch is
/// not asked.
pub open spec fn claim_rejection(s: LedgerView, code: Seq<char>) -> Option<USVError> {
    match s.usv_state {
        None => Some(USVError::NotInitialized),
        Some(state) => if state.is_paused {
            Some(USVError::ProgramPaused)
        } else {
            match claim_address_of(code) {
                None => Some(USVError::InvalidQRCode),
                Some(address) => if s.has_claim(address) {
                    Some(USVError::QRCodeAlreadyClaimed)
                } else if state.tokens_claimed + CLAIM_AMOUNT > state.total_supply {
                    Some(USVError::InsufficientBalance)
                } else {
                    None
                },
            }
        },
    }
}

/// What `prepare_claim_tokens` returns: the order to move one token from
/// the authority to the claimer, unless the claim would be rejected.
pub open spec fn claim_order(s: LedgerView, ctx: ClaimTokens, code: Seq<char>) -> Result<
    TokenTransfer,
    USVError,
> {
    match claim_rejection(s, code) {
        Some(e) => Err(e),
        None => Ok(
            TokenTransfer {
                mint: s.usv_state->0.mint,
                from: s.usv_state->0.authority,
                to: ctx.claimer,
                amount: CLAIM_AMOUNT,
            },
        ),
    }
}

/// What `claim_tokens` does: unless it is rejected or the token ledger
/// refused the transfer, it creates the code's claim record and counts one
/// token more as claimed.
pub open spec fn claim_tokens_step(
    s: LedgerView,
    ctx: ClaimTokens,
    code: Seq<char>,
    user_email: Option<Seq<char>>,
    now: i64,
    transfer: Result<(), TokenError>,
) -> (LedgerView, Result<TokensClaimedView, USVError>) {
    match claim_rejection(s, code) {
        Some(e) => (s, Err(e)),
        None => match transfer {
            Err(refusal) => (s, Err(USVError::of_token(refusal))),
            Ok(_) => {
                let state = s.usv_state->0;
                let address = claim_address_of(code)->0;
                let claim = QRClaimView {
                    qr_hash: code,
                    claimer: ctx.claimer,
                    claimed_at: now,
                    user_email,
                    is_claimed: true,
                };
                (
                    LedgerView {
                        usv_state: Some(
                            USVState {
                                tokens_claimed: (state.tokens_claimed + CLAIM_AMOUNT) as u64,
                                ..state
                            },
                        ),
                        claims: s.claims.push(ClaimEntryView { address, claim }),
                        ..s
                    },
                    Ok(
                        TokensClaimedView {
                            qr_hash: code,
                            claimer: ctx.claimer,
                            amount: CLAIM_AMOUNT,
                            user_email,
                            timestamp: now,
                        },
                    ),
                )
            },
        },
    }
}

fn claim_slot(ledger: &Ledger, qr_hash: &str) -> (r: Result<(USVState, Address), USVError>)
    ensures
        match r {
            Ok((state, address)) => claim_rejection(ledger@, qr_hash@) is None && ledger@.usv_state
                == Some(state) && claim_address_of(qr_hash@) == Some(address),
            Err(e) => claim_rejection(ledger@, qr_hash@) == Some(e),
        },
{
    let state = match ledger.usv_state() {
        None => { return Err(USVError::NotInitialized); },
        Some(state) => state,
    };
    if state.is_paused {
        return Err(USVError::ProgramPaused);
    }
    let address = match claim_address(qr_hash) {
        None => { return Err(USVError::InvalidQRCode); },
        Some(address) => address,
    };
    if ledger.has_claim(&address) {
        return Err(USVError::QRCodeAlreadyClaimed);
    }
    if state.tokens_claimed > u64::MAX - CLAIM_AMOUNT || state.tokens_claimed + CLAIM_AMOUNT
        > state.total_supply {
        return Err(USVError::InsufficientBalance);
    }
    Ok((state, address))
}

/// The order that `claim_tokens` needs carried out for the code, or why the
/// claim would be rejected.
pub fn prepare_claim_tokens(ledger: &Ledger, ctx: &ClaimTokens, qr_hash: &str) -> (r: Result<
    TokenTransfer,
    USVError,
>)
    ensures
        r == claim_order(ledger@, *ctx, qr_hash@),
{
    match claim_slot(ledger, qr_hash) {
        Err(e) => Err(e),
        Ok((state, _)) => Ok(
            TokenTransfer {
                mint: state.mint,
                from: state.authority,
                to: ctx.claimer,
                amount: CLAIM_AMOUNT,
            },
        ),
    }
}

/// Claims a redemption code for the claimer. The claim record is created at
/// the code's address, where no record can be created twice: a code is
/// claimed at most once. `transfer` is what the token ledger answered to the
/// order of `prepare_claim_tokens`; where it refused, nothing is recorded
/// and the code can be claimed later.
pub fn claim_tokens(
    ledger: &mut Ledger,
    ctx: &ClaimTokens,
    qr_hash: String,
    user_email: Option<String>,
    now: i64,
    transfer: Result<(), TokenError>,
) -> (r: Result<TokensClaimed, USVError>)
    ensures
        (final(ledger)@, outcome_view(r)) == claim_tokens_step(
            old(ledger)@,
            *ctx,
            qr_hash@,
            text_view(user_email),
            now,
            transfer,
        ),
        final(ledger)@.wf(),
{
    proof {
        use_type_invariant(&*ledger);
    }
    let (state, address) = match claim_slot(ledger, qr_hash.as_str()) {
        Err(e) => { return Err(e); },
        Ok(found) => found,
    };
    if let Err(refusal) = transfer {
        return Err(USVError::from_token(refusal));
    }
    let event = TokensClaimed {
        qr_hash: qr_hash.clone(),
        claimer: ctx.claimer,
        amount: CLAIM_AMOUNT,
        user_email: copy_text(&user_email),
        timestamp: now,
    };
    let claim = QRClaim { qr_hash, claimer: ctx.claimer, claimed_at: now, user_email, is_claimed: true };
    ledger.create_claim(address, claim);
    ledger.store_usv_state(USVState { tokens_claimed: state.tokens_claimed + CLAIM_AMOUNT, ..state });
    Ok(event)
}

/// What `prepare_transfer_to_partner` returns: the order to move the amount
/// from the authority to the partner, unless the transfer would be
/// rejected. The first of these that holds decides: the ledger is not set
/// up; the program is paused; the caller is not the authority; the amount
/// is less than a thousand tokens.
pub open spec fn partner_order(s: LedgerView, ctx: TransferToPartner, amount: u64) -> Result<
    TokenTransfer,
    USVError,
> {
    match s.usv_state {
        None => Err(USVError::NotInitialized),
        Some(state) => if state.is_paused {
            Err(USVError::ProgramPaused)
        } else if ctx.authority != state.authority {
            Err(USVError::Unauthorized)
        } else if amount < MIN_PARTNER_TRANSFER {
            Err(USVError::MinimumPartnerTransfer)
        } else {
            Ok(TokenTransfer { mint: state.mint, from: state.authority, to: ctx.partner, amount })
        },
    }
}

/// What `transfer_to_partner` returns: the event, unless the transfer is
/// rejected or the token ledger refused it.
pub open spec fn transfer_to_partner_result(
    s: LedgerView,
    ctx: TransferToPartner,
    amount: u64,
    partner_info: Seq<char>,
    now: i64,
    transfer: Result<(), TokenError>,
) -> Result<PartnerTransferView, USVError> {
    match partner_order(s, ctx, amount) {
        Err(e) => Err(e),
        Ok(_) => match transfer {
            Err(refusal) => Err(USVError::of_token(refusal)),
            Ok(_) => Ok(
                PartnerTransferView { partner: ctx.partner, amount, partner_info, timestamp: now },
            ),
        },
    }
}

/// The order that `transfer_to_partner` needs carried out, or why the
/// transfer would be rejected.
pub fn prepare_transfer_to_partner(ledger: &Ledger, ctx: &TransferToPartner, amount: u64) -> (r:
    Result<TokenTransfer, USVError>)
    ensures
        r == partner_order(ledger@, *ctx, amount),
{
    let state = match ledger.usv_state() {
        None => { return Err(USVError::NotInitialized); },
        Some(state) => state,
    };
    if state.is_paused {
        Err(USVError::ProgramPaused)
    } else if ctx.authority != state.authority {
        Err(USVError::Unauthorized)
    } else if amount < MIN_PARTNER_TRANSFER {
        Err(USVError::MinimumPartnerTransfer)
    } else {
        Ok(TokenTransfer { mint: state.mint, from: state.authority, to: ctx.partner, amount })
    }
}

/// Sends tokens from the authority to a partner, a thousand tokens or more.
/// The ledger's records stay as they are. `transfer` is what the token
/// ledger answered to the order of `prepare_transfer_to_partner`.
pub fn transfer_to_partner(
    ledger: &Ledger,
    ctx: &TransferToPartner,
    amount: u64,
    partner_info: String,
    now: i64,
    transfer: Result<(), TokenError>,
) -> (r: Result<PartnerTransfer, USVError>)
    ensures
        outcome_view(r) == transfer_to_partner_result(
            ledger@,
            *ctx,
            amount,
            partner_info@,
            now,
            transfer,
        ),
{
    match prepare_transfer_to_partner(ledger, ctx, amount) {
        Err(e) => Err(e),
        Ok(_) => match transfer {
            Err(refusal) => Err(USVError::from_token(refusal)),
            Ok(_) => Ok(PartnerTransfer { partner: ctx.partner, amount, partner_info, timestamp: now }),
        },
    }
}

/// What `set_pause_state` does: the authority sets the pause flag.
pub open spec fn set_pause_state_step(s: LedgerView, ctx: SetPauseState, is_paused: bool) -> (
    LedgerView,
    Result<(), USVError>,
) {
    match s.usv_state {
        None => (s, Err(USVError::NotInitialized)),
        Some(state) => if ctx.authority != state.authority {
            (s, Err(USVError::Unauthorized))
        } else {
            (LedgerView { usv_state: Some(USVState { is_paused, ..state }), ..s }, Ok(()))
        },
    }
}

/// Pauses or resumes the program.
pub fn set_pause_state(ledger: &mut Ledger, ctx: &SetPauseState, is_paused: bool) -> (r: Result<
    (),
    USVError,
>)
    ensures
        (final(ledger)@, r) == set_pause_state_step(old(ledger)@, *ctx, is_paused),
        final(ledger)@.wf(),
{
    proof {
        use_type_invariant(&*ledger);
    }
    let state = match ledger.usv_state() {
        None => { return Err(USVError::NotInitialized); },
        Some(state) => state,
    };
    if ctx.authority != state.authority {
        return Err(USVError::Unauthorized);
    }
    ledger.store_usv_state(USVState { is_paused, ..state });
    Ok(())
}

/// What `get_stats` returns: a snapshot of the issuance record.
pub open spec fn stats_of(s: LedgerView) -> Result<ProgramStats, USVError> {
    match s.usv_state {
        None => Err(USVError::NotInitialized),
        Some(state) => Ok(
            ProgramStats {
                total_supply: state.total_supply,
                tokens_claimed: state.tokens_claimed,
                total_qr_codes: state.total_qr_codes,
                is_paused: state.is_paused,
                authority: state.authority,
            },
        ),
    }
}

/// A snapshot of the issuance record.
pub fn get_stats(ledger: &Ledger) -> (r: Result<ProgramStats, USVError>)
    ensures
        r == stats_of(ledger@),
{
    match ledger.usv_state() {
        None => Err(USVError::NotInitialized),
        Some(state) => Ok(
            ProgramStats {
                total_supply: state.total_supply,
                tokens_claimed: state.tokens_claimed,
                total_qr_codes: state.total_qr_codes,
                is_paused: state.is_paused,
                authority: state.authority,
            },
        ),
    }
}

} // verus!
