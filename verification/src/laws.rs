//! What holds of the ledger whatever is submitted to it, in whatever order.

use crate::address::{batch_address_of, claim_address_of, Address};
use crate::codes::{code_preimage, code_text};
use crate::error::{TokenError, USVError};
use crate::instruction::{
    BuyTokensFixedPrice, ClaimTokens, GenerateQRCodes, Initialize, InitializeTrading,
    SetPauseState, ToggleTrading, TransferToPartner, UpdateFixedPrice,
};
use crate::ledger::{BatchEntryView, LedgerView};
use crate::state::{CLAIM_AMOUNT, MAX_BATCH_CODES, TOTAL_SUPPLY};
use crate::usv_token::{
    batch_codes, claim_order, claim_rejection, claim_tokens_step, generate_qr_codes_step,
    initialize_order, initialize_step, partner_order, set_pause_state_step,
    transfer_to_partner_result,
};
use crate::usv_trading::{
    buy_tokens_fixed_price_step, initialize_trading_step, purchase_order, toggle_trading_step,
    update_fixed_price_step,
};
use vstd::prelude::*;

verus! {

/// One submitted operation, with all that it was handed.
#[allow(inconsistent_fields)]
pub enum Operation {
    Initialize { ctx: Initialize, minted: Result<(), TokenError> },
    GenerateQRCodes {
        ctx: GenerateQRCodes,
        count: u32,
        partner_id: Option<Seq<char>>,
        batch_info: Seq<char>,
        now: i64,
    },
    ClaimTokens {
        ctx: ClaimTokens,
        code: Seq<char>,
        user_email: Option<Seq<char>>,
        now: i64,
        transfer: Result<(), TokenError>,
    },
    TransferToPartner {
        ctx: TransferToPartner,
        amount: u64,
        partner_info: Seq<char>,
        now: i64,
        transfer: Result<(), TokenError>,
    },
    SetPauseState { ctx: SetPauseState, is_paused: bool },
    InitializeTrading { ctx: InitializeTrading },
    BuyTokensFixedPrice {
        ctx: BuyTokensFixedPrice,
        sol_amount: u64,
        reference_price_cents: u64,
        now: i64,
        settled: Result<(), TokenError>,
    },
    UpdateFixedPrice { ctx: UpdateFixedPrice, new_price_cents: u64, now: i64 },
    ToggleTrading { ctx: ToggleTrading, is_active: bool },
}

/// Why an operation was rejected, if it was.
pub open spec fn rejection_of<T>(outcome: Result<T, USVError>) -> Option<USVError> {
    match outcome {
        Ok(_) => None,
        Err(e) => Some(e),
    }
}

/// The ledger after an operation, and why the operation was rejected, if it
/// was.
pub open spec fn step(s: LedgerView, op: Operation) -> (LedgerView, Option<USVError>) {
    match op {
        Operation::Initialize { ctx, minted } => {
            let (t, r) = initialize_step(s, ctx, minted);
            (t, rejection_of(r))
        },
        Operation::GenerateQRCodes { ctx, count, partner_id, batch_info, now } => {
            let (t, r) = generate_qr_codes_step(s, ctx, count, partner_id, batch_info, now);
            (t, rejection_of(r))
        },
        Operation::ClaimTokens { ctx, code, user_email, now, transfer } => {
            let (t, r) = claim_tokens_step(s, ctx, code, user_email, now, transfer);
            (t, rejection_of(r))
        },
        Operation::TransferToPartner { ctx, amount, partner_info, now, transfer } => (
            s,
            rejection_of(transfer_to_partner_result(s, ctx, amount, partner_info, now, transfer)),
        ),
        Operation::SetPauseState { ctx, is_paused } => {
            let (t, r) = set_pause_state_step(s, ctx, is_paused);
            (t, rejection_of(r))
        },
        Operation::InitializeTrading { ctx } => {
            let (t, r) = initialize_trading_step(s, ctx);
            (t, rejection_of(r))
        },
        Operation::BuyTokensFixedPrice { ctx, sol_amount, reference_price_cents, now, settled } => {
            let (t, r) = buy_tokens_fixed_price_step(
                s,
                ctx,
                sol_amount,
                reference_price_cents,
                now,
                settled,
            );
            (t, rejection_of(r))
        },
        Operation::UpdateFixedPrice { ctx, new_price_cents, now } => {
            let (t, r) = update_fixed_price_step(s, ctx, new_price_cents, now);
            (t, rejection_of(r))
        },
        Operation::ToggleTrading { ctx, is_active } => {
            let (t, r) = toggle_trading_step(s, ctx, is_active);
            (t, rejection_of(r))
        },
    }
}

/// The ledger after a sequence of operations, one after the other.
pub open spec fn run(s: LedgerView, ops: Seq<Operation>) -> LedgerView
    decreases ops.len(),
{
    if ops.len() == 0 {
        s
    } else {
        run(step(s, ops[0]).0, ops.drop_first())
    }
}

/// Whether the operation is a claim of the code that goes through.
pub open spec fn claims_code(s: LedgerView, op: Operation, code: Seq<char>) -> bool {
    op matches Operation::ClaimTokens { code: claimed, .. } && claimed == code && step(s, op).1 is None
}

/// Whether the operation is a claim that goes through.
pub open spec fn claims_any(s: LedgerView, op: Operation) -> bool {
    op is ClaimTokens && step(s, op).1 is None
}

/// How many claims of the code go through in a sequence of operations.
pub open spec fn claims_of_code(s: LedgerView, ops: Seq<Operation>, code: Seq<char>) -> nat
    decreases ops.len(),
{
    if ops.len() == 0 {
        0
    } else {
        let here: nat = if claims_code(s, ops[0], code) {
            1
        } else {
            0
        };
        here + claims_of_code(step(s, ops[0]).0, ops.drop_first(), code)
    }
}

/// How many claims go through in a sequence of operations.
pub open spec fn claims_in(s: LedgerView, ops: Seq<Operation>) -> nat
    decreases ops.len(),
{
    if ops.len() == 0 {
        0
    } else {
        let here: nat = if claims_any(s, ops[0]) {
            1
        } else {
            0
        };
        here + claims_in(step(s, ops[0]).0, ops.drop_first())
    }
}

/// What is counted as claimed: nothing before the ledger is set up.
pub open spec fn claimed(s: LedgerView) -> nat {
    match s.usv_state {
        Some(state) => state.tokens_claimed as nat,
        None => 0,
    }
}

/// A rejected operation changes nothing.
pub proof fn lemma_rejected_changes_nothing(s: LedgerView, op: Operation)
    requires
        step(s, op).1 is Some,
    ensures
        step(s, op).0 == s,
{
}

/// Every operation leaves a sound ledger sound: no more is claimed than was
/// minted, and no two records stand at one address.
pub proof fn lemma_step_keeps_sound(s: LedgerView, op: Operation)
    requires
        s.wf(),
    ensures
        step(s, op).0.wf(),
{
    let t = step(s, op).0;
    if step(s, op).1 is None {
        match op {
            Operation::ClaimTokens { ctx, code, user_email, now, transfer } => {
                let address = claim_address_of(code)->0;
                assert(!s.has_claim(address));
                assert forall|i: int, j: int| 0 <= i < j < t.claims.len() implies (
                #[trigger] t.claims[i]).address != (#[trigger] t.claims[j]).address by {
                    if j == s.claims.len() {
                        assert(s.claims[i].address != address);
                    }
                }
            },
            Operation::GenerateQRCodes { ctx, count, partner_id, batch_info, now } => {
                let state = s.usv_state->0;
                let address = batch_address_of(state.authority, state.total_qr_codes)->0;
                assert(!s.has_batch(address));
                assert forall|i: int, j: int| 0 <= i < j < t.batches.len() implies (
                #[trigger] t.batches[i]).address != (#[trigger] t.batches[j]).address by {
                    if j == s.batches.len() {
                        assert(s.batches[i].address != address);
                    }
                }
            },
            _ => {},
        }
    }
}

/// Every sequence of operations leaves a sound ledger sound.
pub proof fn lemma_run_keeps_sound(s: LedgerView, ops: Seq<Operation>)
    requires
        s.wf(),
    ensures
        run(s, ops).wf(),
    decreases ops.len(),
{
    if ops.len() > 0 {
        lemma_step_keeps_sound(s, ops[0]);
        lemma_run_keeps_sound(step(s, ops[0]).0, ops.drop_first());
    }
}

/// No operation removes or rewrites a record: the batches and claim
/// records that were there stay, in their order, and new ones come after
/// them.
pub proof fn lemma_records_stay(s: LedgerView, op: Operation)
    ensures
        s.claims.is_prefix_of(step(s, op).0.claims),
        s.batches.is_prefix_of(step(s, op).0.batches),
        forall|address: Address| s.has_claim(address) ==> step(s, op).0.has_claim(address),
        forall|address: Address| s.has_batch(address) ==> step(s, op).0.has_batch(address),
{
    let t = step(s, op).0;
    assert(s.claims.is_prefix_of(t.claims));
    assert(s.batches.is_prefix_of(t.batches));
    assert forall|address: Address| s.has_claim(address) implies t.has_claim(address) by {
        let i = choose|i: int| 0 <= i < s.claims.len() && (#[trigger] s.claims[i]).address == address;
        assert(t.claims[i] == s.claims[i]);
    }
    assert forall|address: Address| s.has_batch(address) implies t.has_batch(address) by {
        let i = choose|i: int| 0 <= i < s.batches.len() && (#[trigger] s.batches[i]).address == address;
        assert(t.batches[i] == s.batches[i]);
    }
}

/// A claim that goes through leaves the code claimed.
pub proof fn lemma_claim_marks_code(s: LedgerView, op: Operation, code: Seq<char>)
    requires
        claims_code(s, op, code),
    ensures
        step(s, op).0.is_claimed(code),
{
    let t = step(s, op).0;
    let address = claim_address_of(code)->0;
    assert(t.claims[s.claims.len() as int].address == address);
}

/// A claim of a code that is claimed is rejected, whoever submits it and
/// whatever the token ledger answered.
pub proof fn lemma_claimed_code_is_rejected(
    s: LedgerView,
    ctx: ClaimTokens,
    code: Seq<char>,
    user_email: Option<Seq<char>>,
    now: i64,
    transfer: Result<(), TokenError>,
)
    requires
        s.is_claimed(code),
    ensures
        claim_tokens_step(s, ctx, code, user_email, now, transfer).0 == s,
        claim_tokens_step(s, ctx, code, user_email, now, transfer).1 is Err,
        s.usv_state matches Some(state) && !state.is_paused ==> claim_tokens_step(
            s,
            ctx,
            code,
            user_email,
            now,
            transfer,
        ).1 == Err::<crate::events::TokensClaimedView, USVError>(USVError::QRCodeAlreadyClaimed),
{
}

/// Exactly once: in any sequence of operations, on any sound ledger, at
/// most one claim of a code goes through, and none where the code is
/// claimed already.
pub proof fn lemma_claimed_at_most_once(s: LedgerView, ops: Seq<Operation>, code: Seq<char>)
    requires
        s.wf(),
    ensures
        claims_of_code(s, ops, code) <= 1,
        s.is_claimed(code) ==> claims_of_code(s, ops, code) == 0,
    decreases ops.len(),
{
    if ops.len() > 0 {
        let op = ops[0];
        let t = step(s, op).0;
        lemma_step_keeps_sound(s, op);
        lemma_records_stay(s, op);
        lemma_claimed_at_most_once(t, ops.drop_first(), code);
        if claims_code(s, op, code) {
            lemma_claim_marks_code(s, op, code);
        }
    }
}

/// Each claim that goes through counts one token more as claimed, and no
/// other operation changes what is counted.
pub proof fn lemma_step_counts_claim(s: LedgerView, op: Operation)
    requires
        s.wf(),
    ensures
        claimed(step(s, op).0) == claimed(s) + if claims_any(s, op) {
            CLAIM_AMOUNT as nat
        } else {
            0
        },
{
}

/// After any sequence of operations, what is counted as claimed has grown
/// by the claim amount for each claim that went through, and is no more
/// than the supply.
pub proof fn lemma_claimed_total(s: LedgerView, ops: Seq<Operation>)
    requires
        s.wf(),
    ensures
        claimed(run(s, ops)) == claimed(s) + claims_in(s, ops) * CLAIM_AMOUNT,
        run(s, ops).usv_state matches Some(state) ==> state.tokens_claimed <= state.total_supply,
    decreases ops.len(),
{
    if ops.len() > 0 {
        let op = ops[0];
        let t = step(s, op).0;
        lemma_step_keeps_sound(s, op);
        lemma_step_counts_claim(s, op);
        lemma_claimed_total(t, ops.drop_first());
        assert((1 + claims_in(t, ops.drop_first())) * CLAIM_AMOUNT == CLAIM_AMOUNT + claims_in(
            t,
            ops.drop_first(),
        ) * CLAIM_AMOUNT) by (nonlinear_arith);
    }
}

/// On a ledger on which nothing has been created yet, after any sequence
/// of operations, what is counted as claimed is the claim amount times the
/// number of claims that went through.
pub proof fn lemma_claimed_from_start(ops: Seq<Operation>)
    ensures
        claimed(run(LedgerView::empty(), ops)) == claims_in(LedgerView::empty(), ops) * CLAIM_AMOUNT,
{
    lemma_claimed_total(LedgerView::empty(), ops);
}

/// The supply, the authority and the mint are set when the ledger is set
/// up, and no operation changes them afterwards.
pub proof fn lemma_supply_is_fixed(s: LedgerView, ops: Seq<Operation>)
    requires
        s.usv_state is Some,
    ensures
        run(s, ops).usv_state is Some,
        run(s, ops).usv_state->0.total_supply == s.usv_state->0.total_supply,
        run(s, ops).usv_state->0.authority == s.usv_state->0.authority,
        run(s, ops).usv_state->0.mint == s.usv_state->0.mint,
    decreases ops.len(),
{
    if ops.len() > 0 {
        lemma_supply_is_fixed(step(s, ops[0]).0, ops.drop_first());
    }
}

/// How many codes the batches hold, all together.
pub open spec fn codes_in(batches: Seq<BatchEntryView>) -> nat
    decreases batches.len(),
{
    if batches.len() == 0 {
        0
    } else {
        codes_in(batches.drop_last()) + batches.last().batch.count as nat
    }
}

/// Whether the issuance record agrees with the records beside it: before
/// the ledger is set up there is no batch and no claim record; afterwards
/// the supply is the whole supply, one token is counted as claimed for each
/// claim record, and the codes issued are the codes of all batches.
pub open spec fn counted(s: LedgerView) -> bool {
    match s.usv_state {
        None => s.claims.len() == 0 && s.batches.len() == 0,
        Some(state) => {
            &&& state.total_supply == TOTAL_SUPPLY
            &&& state.tokens_claimed == s.claims.len() * CLAIM_AMOUNT
            &&& state.total_qr_codes == codes_in(s.batches)
        },
    }
}

/// Every operation keeps the issuance record in agreement with the records
/// beside it.
pub proof fn lemma_step_keeps_counted(s: LedgerView, op: Operation)
    requires
        counted(s),
    ensures
        counted(step(s, op).0),
{
    let t = step(s, op).0;
    if step(s, op).1 is None {
        match op {
            Operation::ClaimTokens { .. } => {
                assert((s.claims.len() + 1) * CLAIM_AMOUNT == s.claims.len() * CLAIM_AMOUNT
                    + CLAIM_AMOUNT) by (nonlinear_arith);
            },
            Operation::GenerateQRCodes { .. } => {
                assert(t.batches.drop_last() =~= s.batches);
            },
            Operation::Initialize { .. } => {
                assert(s.claims.len() * CLAIM_AMOUNT == 0) by (nonlinear_arith)
                    requires
                        s.claims.len() == 0,
                ;
            },
            _ => {},
        }
    }
}

/// On a ledger on which nothing has been created yet, after any sequence
/// of operations, the issuance record agrees with the records beside it:
/// what is counted as claimed is the claim amount times the number of claim
/// records, and the codes issued are the codes of all batches.
pub proof fn lemma_counted_from_start(ops: Seq<Operation>)
    ensures
        counted(run(LedgerView::empty(), ops)),
{
    lemma_run_keeps_counted(LedgerView::empty(), ops);
}

/// Every sequence of operations keeps the issuance record in agreement
/// with the records beside it.
pub proof fn lemma_run_keeps_counted(s: LedgerView, ops: Seq<Operation>)
    requires
        counted(s),
    ensures
        counted(run(s, ops)),
    decreases ops.len(),
{
    if ops.len() > 0 {
        lemma_step_keeps_counted(s, ops[0]);
        lemma_run_keeps_counted(step(s, ops[0]).0, ops.drop_first());
    }
}

/// A batch of no code, or of more than a thousand codes, is rejected for
/// its count, whoever asks for it.
pub proof fn lemma_batch_count_limits(
    s: LedgerView,
    ctx: GenerateQRCodes,
    count: u32,
    partner_id: Option<Seq<char>>,
    batch_info: Seq<char>,
    now: i64,
)
    requires
        s.usv_state matches Some(state) && !state.is_paused,
        count == 0 || count > MAX_BATCH_CODES,
    ensures
        generate_qr_codes_step(s, ctx, count, partner_id, batch_info, now) == (
            s,
            Err::<crate::events::QRCodesGeneratedView, USVError>(USVError::InvalidQRCodeCount),
        ),
{
}

/// A batch of 1 to 1000 codes that another than the authority asks for is
/// rejected as unauthorized, however many codes have been issued.
pub proof fn lemma_batch_is_for_the_authority(
    s: LedgerView,
    ctx: GenerateQRCodes,
    count: u32,
    partner_id: Option<Seq<char>>,
    batch_info: Seq<char>,
    now: i64,
)
    requires
        s.usv_state matches Some(state) && !state.is_paused && ctx.authority != state.authority,
        1 <= count <= MAX_BATCH_CODES,
    ensures
        generate_qr_codes_step(s, ctx, count, partner_id, batch_info, now) == (
            s,
            Err::<crate::events::QRCodesGeneratedView, USVError>(USVError::Unauthorized),
        ),
{
}

/// A batch of 1 to 1000 codes that the authority asks for where a batch
/// stands at its address is rejected for the address, however many codes
/// have been issued, and the batch that stands there stays.
pub proof fn lemma_taken_batch_address(
    s: LedgerView,
    ctx: GenerateQRCodes,
    count: u32,
    partner_id: Option<Seq<char>>,
    batch_info: Seq<char>,
    now: i64,
)
    requires
        s.usv_state matches Some(state) && !state.is_paused && ctx.authority == state.authority
            && s.has_batch(batch_address_of(state.authority, state.total_qr_codes)->0)
            && batch_address_of(state.authority, state.total_qr_codes) is Some,
        1 <= count <= MAX_BATCH_CODES,
    ensures
        generate_qr_codes_step(s, ctx, count, partner_id, batch_info, now) == (
            s,
            Err::<crate::events::QRCodesGeneratedView, USVError>(USVError::DuplicateBatchAddress),
        ),
{
}

/// While the program is paused, making a batch, claiming a code and sending
/// tokens to a partner are rejected as paused, and change nothing.
pub proof fn lemma_paused_program_rejects(s: LedgerView, op: Operation)
    requires
        s.usv_state matches Some(state) && state.is_paused,
        op is GenerateQRCodes || op is ClaimTokens || op is TransferToPartner,
    ensures
        step(s, op) == (s, Some(USVError::ProgramPaused)),
{
}

/// While trading is paused, a purchase is rejected as paused, and changes
/// nothing.
pub proof fn lemma_paused_trading_rejects(s: LedgerView, op: Operation)
    requires
        s.trading_state matches Some(state) && !state.is_active,
        op is BuyTokensFixedPrice,
    ensures
        step(s, op) == (s, Some(USVError::TradingPaused)),
{
}

/// Setting up a ledger that is set up is rejected, and leaves the issuance
/// record as it is.
pub proof fn lemma_initialize_once(s: LedgerView, ctx: Initialize, minted: Result<(), TokenError>)
    requires
        s.usv_state is Some,
    ensures
        initialize_step(s, ctx, minted) == (s, Err::<(), USVError>(USVError::AlreadyInitialized)),
{
}

/// Opening trading that is open is rejected, and leaves the trading record
/// as it is.
pub proof fn lemma_initialize_trading_once(s: LedgerView, ctx: InitializeTrading)
    requires
        s.trading_state is Some,
    ensures
        initialize_trading_step(s, ctx) == (s, Err::<(), USVError>(USVError::AlreadyInitialized)),
{
}

/// A claim that the token ledger refused leaves the code unclaimed: the
/// same claim goes through later, once the token ledger accepts the
/// transfer.
pub proof fn lemma_refused_claim_can_be_retried(
    s: LedgerView,
    ctx: ClaimTokens,
    code: Seq<char>,
    user_email: Option<Seq<char>>,
    now: i64,
    later: i64,
    refusal: TokenError,
)
    requires
        claim_rejection(s, code) is None,
    ensures
        claim_tokens_step(s, ctx, code, user_email, now, Err(refusal)).0 == s,
        claim_tokens_step(s, ctx, code, user_email, later, Ok(())).1 is Ok,
{
}

/// An operation that moves tokens goes through exactly where its order was
/// given and the token ledger accepted it.
pub proof fn lemma_order_and_answer_decide(s: LedgerView, op: Operation)
    ensures
        op matches Operation::Initialize { ctx, minted } ==> (step(s, op).1 is None <==> initialize_order(
            s,
            ctx,
        ) is Ok && minted is Ok),
        op matches Operation::ClaimTokens { ctx, code, transfer, .. } ==> (step(s, op).1 is None
            <==> claim_order(s, ctx, code) is Ok && transfer is Ok),
        op matches Operation::TransferToPartner { ctx, amount, transfer, .. } ==> (step(s, op).1
            is None <==> partner_order(s, ctx, amount) is Ok && transfer is Ok),
        op matches Operation::BuyTokensFixedPrice {
            ctx,
            sol_amount,
            reference_price_cents,
            settled,
            ..
        } ==> (step(s, op).1 is None <==> purchase_order(s, ctx, sol_amount, reference_price_cents)
            is Ok && settled is Ok),
{
}

/// Whether the data is what is hashed for one of the codes of a batch.
pub open spec fn is_batch_preimage(data: Seq<u8>, issued: nat, now: int, authority: Address, count: nat) -> bool {
    exists|i: nat| i < count && data == #[trigger] code_preimage(issued + i, now, authority, i)
}

/// A batch holds as many codes as were asked for. They are pairwise
/// different wherever the digest gives different codes for what is hashed
/// for different indices.
pub proof fn lemma_batch_codes_distinct(issued: nat, now: int, authority: Address, count: nat)
    requires
        forall|a: Seq<u8>, b: Seq<u8>|
            a != b && is_batch_preimage(a, issued, now, authority, count) && is_batch_preimage(
                b,
                issued,
                now,
                authority,
                count,
            ) ==> #[trigger] code_text(a) != #[trigger] code_text(b),
    ensures
        batch_codes(issued, now, authority, count).len() == count,
        forall|i: int, j: int|
            0 <= i < j < count ==> #[trigger] batch_codes(issued, now, authority, count)[i]
                != #[trigger] batch_codes(issued, now, authority, count)[j],
{
    let codes = batch_codes(issued, now, authority, count);
    assert forall|i: int, j: int| 0 <= i < j < count implies #[trigger] codes[i] != #[trigger] codes[j] by {
        let a = code_preimage(issued + i as nat, now, authority, i as nat);
        let b = code_preimage(issued + j as nat, now, authority, j as nat);
        crate::codes::lemma_code_preimages_differ(
            issued + i as nat,
            issued + j as nat,
            now,
            authority,
            i as nat,
            j as nat,
        );
        assert(is_batch_preimage(a, issued, now, authority, count));
        assert(is_batch_preimage(b, issued, now, authority, count));
    }
}

} // verus!
