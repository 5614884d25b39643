//! Trading: selling tokens at a fixed price against the native currency.
//!
//! The price of the native currency is handed in with each purchase, in
//! cents of a dollar for one unit: the host reads it where it trusts it.

use crate::error::{TokenError, USVError};
use crate::events::{PriceUpdated, TokenPurchase, TradingStats};
use crate::instruction::{
    BuyTokensFixedPrice, InitializeTrading, NativeTransfer, PurchaseLegs, TokenTransfer,
    ToggleTrading, UpdateFixedPrice,
};
use crate::ledger::{Ledger, LedgerView};
use crate::state::{TradingState, DEFAULT_PRICE_CENTS, NATIVE_SCALE, TOKEN_SCALE};
use vstd::arithmetic::div_mod::lemma_div_multiples_vanish_quotient;
use vstd::prelude::*;

verus! {

/// The trading record as `initialize_trading` creates it: twenty cents a
/// token, trading open, nothing sold.
pub open spec fn initial_trading_state(ctx: InitializeTrading) -> TradingState {
    TradingState {
        authority: ctx.authority,
        usv_mint: ctx.usv_mint,
        fixed_price_cents: DEFAULT_PRICE_CENTS,
        is_active: true,
        total_sales_volume: 0,
        total_purchases: 0,
    }
}

/// What `initialize_trading` does: it creates the trading record, unless
/// the record exists.
pub open spec fn initialize_trading_step(s: LedgerView, ctx: InitializeTrading) -> (
    LedgerView,
    Result<(), USVError>,
) {
    if s.trading_state is Some {
        (s, Err(USVError::AlreadyInitialized))
    } else {
        (LedgerView { trading_state: Some(initial_trading_state(ctx)), ..s }, Ok(()))
    }
}

/// Opens trading: creates the trading record with the caller as authority.
pub fn initialize_trading(ledger: &mut Ledger, ctx: &InitializeTrading) -> (r: Result<(), USVError>)
    ensures
        (final(ledger)@, r) == initialize_trading_step(old(ledger)@, *ctx),
        final(ledger)@.wf(),
{
    proof {
        use_type_invariant(&*ledger);
    }
    if ledger.trading_state().is_some() {
        return Err(USVError::AlreadyInitialized);
    }
    ledger.store_trading_state(
        TradingState {
            authority: ctx.authority,
            usv_mint: ctx.usv_mint,
            fixed_price_cents: DEFAULT_PRICE_CENTS,
            is_active: true,
            total_sales_volume: 0,
            total_purchases: 0,
        },
    );
    Ok(())
}

/// The base units of the token that a payment buys. The payment is
/// `sol_amount / NATIVE_SCALE` units of the native currency, worth
/// `reference_price_cents` cents each; a token, which is `TOKEN_SCALE` base
/// units, costs `fixed_price_cents` cents; what is left of a base unit is
/// dropped.
pub open spec fn token_amount_for(sol_amount: nat, reference_price_cents: nat, fixed_price_cents: nat) -> nat {
    (sol_amount * reference_price_cents * TOKEN_SCALE as nat) / (NATIVE_SCALE as nat
        * fixed_price_cents)
}

/// What `quote_tokens` returns: the base units that a payment buys, where
/// the price is not zero, the payment buys at least one, and their number
/// fits in 64 bits.
pub open spec fn quoted_amount(sol_amount: u64, reference_price_cents: u64, fixed_price_cents: u64) -> Result<
    u64,
    USVError,
> {
    let tokens = token_amount_for(
        sol_amount as nat,
        reference_price_cents as nat,
        fixed_price_cents as nat,
    );
    if fixed_price_cents == 0 {
        Err(USVError::InvalidAmount)
    } else if tokens == 0 {
        Err(USVError::InsufficientPayment)
    } else if tokens > u64::MAX {
        Err(USVError::InvalidAmount)
    } else {
        Ok(tokens as u64)
    }
}

/// The base units of the token that a payment of `sol_amount` base units of
/// the native currency buys.
pub fn quote_tokens(sol_amount: u64, reference_price_cents: u64, fixed_price_cents: u64) -> (r: Result<
    u64,
    USVError,
>)
    ensures
        r == quoted_amount(sol_amount, reference_price_cents, fixed_price_cents),
{
    if fixed_price_cents == 0 {
        return Err(USVError::InvalidAmount);
    }
    assert(sol_amount as int * reference_price_cents as int <= u64::MAX as int * u64::MAX as int)
        by (nonlinear_arith)
        requires
            0 <= sol_amount as int <= u64::MAX as int,
            0 <= reference_price_cents as int <= u64::MAX as int,
    ;
    let value: u128 = sol_amount as u128 * reference_price_cents as u128;
    let divisor: u128 = 1000 * fixed_price_cents as u128;
    let tokens: u128 = value / divisor;
    proof {
        let a = sol_amount as int * reference_price_cents as int;
        let d = 1000 * fixed_price_cents as int;
        assert(0 <= a) by (nonlinear_arith)
            requires
                a == sol_amount as int * reference_price_cents as int,
                0 <= sol_amount as int,
                0 <= reference_price_cents as int,
        ;
        lemma_div_multiples_vanish_quotient(1_000_000, a, d);
        assert(sol_amount as nat * reference_price_cents as nat * TOKEN_SCALE as nat == 1_000_000
            * a) by (nonlinear_arith)
            requires
                a == sol_amount as int * reference_price_cents as int,
                TOKEN_SCALE == 1_000_000,
        ;
        assert(NATIVE_SCALE as nat * fixed_price_cents as nat == 1_000_000 * d) by (nonlinear_arith)
            requires
                d == 1000 * fixed_price_cents as int,
                NATIVE_SCALE == 1_000_000_000,
        ;
        assert(tokens == token_amount_for(
            sol_amount as nat,
            reference_price_cents as nat,
            fixed_price_cents as nat,
        ));
    }
    if tokens == 0 {
        Err(USVError::InsufficientPayment)
    } else if tokens > u64::MAX as u128 {
        Err(USVError::InvalidAmount)
    } else {
        Ok(tokens as u64)
    }
}

/// What `prepare_buy_tokens_fixed_price` returns: the two legs of the
/// purchase, unless it would be rejected. The first of these that holds
/// decides: trading is not open; trading is paused; the payment cannot be
/// quoted; the volume or the number of purchases would no longer fit in 64
/// bits.
pub open spec fn purchase_order(
    s: LedgerView,
    ctx: BuyTokensFixedPrice,
    sol_amount: u64,
    reference_price_cents: u64,
) -> Result<PurchaseLegs, USVError> {
    match s.trading_state {
        None => Err(USVError::NotInitialized),
        Some(state) => if !state.is_active {
            Err(USVError::TradingPaused)
        } else {
            match quoted_amount(sol_amount, reference_price_cents, state.fixed_price_cents) {
                Err(e) => Err(e),
                Ok(tokens) => if state.total_sales_volume + sol_amount > u64::MAX
                    || state.total_purchases + 1 > u64::MAX {
                    Err(USVError::InvalidAmount)
                } else {
                    Ok(
                        PurchaseLegs {
                            payment: NativeTransfer {
                                from: ctx.buyer,
                                to: state.authority,
                                amount: sol_amount,
                            },
                            delivery: TokenTransfer {
                                mint: state.usv_mint,
                                from: state.authority,
                                to: ctx.buyer,
                                amount: tokens,
                            },
                        },
                    )
                },
            }
        },
    }
}

/// What `buy_tokens_fixed_price` does: unless it is rejected or a leg was
/// refused, it adds the payment to the volume and counts one purchase more.
pub open spec fn buy_tokens_fixed_price_step(
    s: LedgerView,
    ctx: BuyTokensFixedPrice,
    sol_amount: u64,
    reference_price_cents: u64,
    now: i64,
    settled: Result<(), TokenError>,
) -> (LedgerView, Result<TokenPurchase, USVError>) {
    match purchase_order(s, ctx, sol_amount, reference_price_cents) {
        Err(e) => (s, Err(e)),
        Ok(legs) => match settled {
            Err(refusal) => (s, Err(USVError::of_token(refusal))),
            Ok(_) => {
                let state = s.trading_state->0;
                (
                    LedgerView {
                        trading_state: Some(
                            TradingState {
                                total_sales_volume: (state.total_sales_volume + sol_amount) as u64,
                                total_purchases: (state.total_purchases + 1) as u64,
                                ..state
                            },
                        ),
                        ..s
                    },
                    Ok(
                        TokenPurchase {
                            buyer: ctx.buyer,
                            sol_amount,
                            token_amount: legs.delivery.amount,
                            timestamp: now,
                        },
                    ),
                )
            },
        },
    }
}

fn purchase_plan(
    ledger: &Ledger,
    ctx: &BuyTokensFixedPrice,
    sol_amount: u64,
    reference_price_cents: u64,
) -> (r: Result<(TradingState, PurchaseLegs), USVError>)
    ensures
        match r {
            Ok((state, legs)) => ledger@.trading_state == Some(state) && purchase_order(
                ledger@,
                *ctx,
                sol_amount,
                reference_price_cents,
            ) == Ok::<PurchaseLegs, USVError>(legs),
            Err(e) => purchase_order(ledger@, *ctx, sol_amount, reference_price_cents) == Err::<
                PurchaseLegs,
                USVError,
            >(e),
        },
{
    let state = match ledger.trading_state() {
        None => { return Err(USVError::NotInitialized); },
        Some(state) => state,
    };
    if !state.is_active {
        return Err(USVError::TradingPaused);
    }
    let tokens = match quote_tokens(sol_amount, reference_price_cents, state.fixed_price_cents) {
        Err(e) => { return Err(e); },
        Ok(tokens) => tokens,
    };
    if sol_amount > u64::MAX - state.total_sales_volume || state.total_purchases == u64::MAX {
        return Err(USVError::InvalidAmount);
    }
    Ok(
        (
            state,
            PurchaseLegs {
                payment: NativeTransfer { from: ctx.buyer, to: state.authority, amount: sol_amount },
                delivery: TokenTransfer {
                    mint: state.usv_mint,
                    from: state.authority,
                    to: ctx.buyer,
                    amount: tokens,
                },
            },
        ),
    )
}

/// The two legs that `buy_tokens_fixed_price` needs carried out, or why the
/// purchase would be rejected.
pub fn prepare_buy_tokens_fixed_price(
    ledger: &Ledger,
    ctx: &BuyTokensFixedPrice,
    sol_amount: u64,
    reference_price_cents: u64,
) -> (r: Result<PurchaseLegs, USVError>)
    ensures
        r == purchase_order(ledger@, *ctx, sol_amount, reference_price_cents),
{
    match purchase_plan(ledger, ctx, sol_amount, reference_price_cents) {
        Err(e) => Err(e),
        Ok((_, legs)) => Ok(legs),
    }
}

/// Buys tokens at the fixed price with `sol_amount` base units of the
/// native currency, worth `reference_price_cents` cents a unit. `settled`
/// is what the host's ledgers answered to the two legs of
/// `prepare_buy_tokens_fixed_price`: `Ok` where both went through.
pub fn buy_tokens_fixed_price(
    ledger: &mut Ledger,
    ctx: &BuyTokensFixedPrice,
    sol_amount: u64,
    reference_price_cents: u64,
    now: i64,
    settled: Result<(), TokenError>,
) -> (r: Result<TokenPurchase, USVError>)
    ensures
        (final(ledger)@, r) == buy_tokens_fixed_price_step(
            old(ledger)@,
            *ctx,
            sol_amount,
            reference_price_cents,
            now,
            settled,
        ),
        final(ledger)@.wf(),
{
    proof {
        use_type_invariant(&*ledger);
    }
    let (state, legs) = match purchase_plan(ledger, ctx, sol_amount, reference_price_cents) {
        Err(e) => { return Err(e); },
        Ok(plan) => plan,
    };
    if let Err(refusal) = settled {
        return Err(USVError::from_token(refusal));
    }
    ledger.store_trading_state(
        TradingState {
            total_sales_volume: state.total_sales_volume + sol_amount,
            total_purchases: state.total_purchases + 1,
            ..state
        },
    );
    Ok(
        TokenPurchase {
            buyer: ctx.buyer,
            sol_amount,
            token_amount: legs.delivery.amount,
            timestamp: now,
        },
    )
}

/// What `update_fixed_price` does: the authority sets the price.
pub open spec fn update_fixed_price_step(
    s: LedgerView,
    ctx: UpdateFixedPrice,
    new_price_cents: u64,
    now: i64,
) -> (LedgerView, Result<PriceUpdated, USVError>) {
    match s.trading_state {
        None => (s, Err(USVError::NotInitialized)),
        Some(state) => if ctx.authority != state.authority {
            (s, Err(USVError::Unauthorized))
        } else {
            (
                LedgerView {
                    trading_state: Some(TradingState { fixed_price_cents: new_price_cents, ..state }),
                    ..s
                },
                Ok(
                    PriceUpdated {
                        old_price: state.fixed_price_cents,
                        new_price: new_price_cents,
                        timestamp: now,
                    },
                ),
            )
        },
    }
}

/// Sets the price of a token, in cents.
pub fn update_fixed_price(ledger: &mut Ledger, ctx: &UpdateFixedPrice, new_price_cents: u64, now: i64) -> (r:
    Result<PriceUpdated, USVError>)
    ensures
        (final(ledger)@, r) == update_fixed_price_step(old(ledger)@, *ctx, new_price_cents, now),
        final(ledger)@.wf(),
{
    proof {
        use_type_invariant(&*ledger);
    }
    let state = match ledger.trading_state() {
        None => { return Err(USVError::NotInitialized); },
        Some(state) => state,
    };
    if ctx.authority != state.authority {
        return Err(USVError::Unauthorized);
    }
    ledger.store_trading_state(TradingState { fixed_price_cents: new_price_cents, ..state });
    Ok(PriceUpdated { old_price: state.fixed_price_cents, new_price: new_price_cents, timestamp: now })
}

/// What `toggle_trading` does: the authority sets the trading flag.
pub open spec fn toggle_trading_step(s: LedgerView, ctx: ToggleTrading, is_active: bool) -> (
    LedgerView,
    Result<(), USVError>,
) {
    match s.trading_state {
        None => (s, Err(USVError::NotInitialized)),
        Some(state) => if ctx.authority != state.authority {
            (s, Err(USVError::Unauthorized))
        } else {
            (LedgerView { trading_state: Some(TradingState { is_active, ..state }), ..s }, Ok(()))
        },
    }
}

/// Pauses or resumes trading.
pub fn toggle_trading(ledger: &mut Ledger, ctx: &ToggleTrading, is_active: bool) -> (r: Result<
    (),
    USVError,
>)
    ensures
        (final(ledger)@, r) == toggle_trading_step(old(ledger)@, *ctx, is_active),
        final(ledger)@.wf(),
{
    proof {
        use_type_invariant(&*ledger);
    }
    let state = match ledger.trading_state() {
        None => { return Err(USVError::NotInitialized); },
        Some(state) => state,
    };
    if ctx.authority != state.authority {
        return Err(USVError::Unauthorized);
    }
    ledger.store_trading_state(TradingState { is_active, ..state });
    Ok(())
}

/// What `get_trading_stats` returns: a snapshot of the trading record.
pub open spec fn trading_stats_of(s: LedgerView) -> Result<TradingStats, USVError> {
    match s.trading_state {
        None => Err(USVError::NotInitialized),
        Some(state) => Ok(
            TradingStats {
                total_sales_volume: state.total_sales_volume,
                total_purchases: state.total_purchases,
                fixed_price_cents: state.fixed_price_cents,
                is_active: state.is_active,
            },
        ),
    }
}

/// A snapshot of the trading record.
pub fn get_trading_stats(ledger: &Ledger) -> (r: Result<TradingStats, USVError>)
    ensures
        r == trading_stats_of(ledger@),
{
    match ledger.trading_state() {
        None => Err(USVError::NotInitialized),
        Some(state) => Ok(
            TradingStats {
                total_sales_volume: state.total_sales_volume,
                total_purchases: state.total_purchases,
                fixed_price_cents: state.fixed_price_cents,
                is_active: state.is_active,
            },
        ),
    }
}

} // verus!
