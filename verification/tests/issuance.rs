use usv_ledger::address::{batch_address, claim_address, Address};
use usv_ledger::error::{TokenError, USVError};
use usv_ledger::events::{PartnerTransfer, ProgramStats, QRCodesGenerated, TokensClaimed};
use usv_ledger::instruction::{
    ClaimTokens, GenerateQRCodes, Initialize, SetPauseState, TokenMint, TokenTransfer,
    TransferToPartner,
};
use usv_ledger::ledger::Ledger;
use usv_ledger::state::{USVState, CLAIM_AMOUNT, MIN_PARTNER_TRANSFER, TOKEN_SCALE, TOTAL_SUPPLY};
use usv_ledger::usv_token::{
    claim_tokens, generate_qr_codes, get_stats, initialize, prepare_claim_tokens,
    prepare_initialize, prepare_transfer_to_partner, set_pause_state, transfer_to_partner,
};

const NOW: i64 = 1_700_000_000;

fn authority() -> Address {
    Address::new([7u8; 32])
}

fn mint() -> Address {
    Address::new([9u8; 32])
}

fn stranger() -> Address {
    Address::new([66u8; 32])
}

fn claimer() -> Address {
    Address::new([21u8; 32])
}

fn set_up() -> Ledger {
    let mut ledger = Ledger::new();
    let ctx = Initialize { authority: authority(), mint: mint() };
    assert_eq!(initialize(&mut ledger, &ctx, Ok(())), Ok(()));
    ledger
}

fn fresh_state() -> USVState {
    USVState {
        authority: authority(),
        mint: mint(),
        total_supply: 1_000_000_000_000_000,
        tokens_claimed: 0,
        total_qr_codes: 0,
        is_paused: false,
    }
}

fn pause(ledger: &mut Ledger, is_paused: bool) {
    let ctx = SetPauseState { authority: authority() };
    assert_eq!(set_pause_state(ledger, &ctx, is_paused), Ok(()));
}

#[test]
fn the_amounts_are_scaled_by_six_decimals() {
    assert_eq!(TOKEN_SCALE, 10u64.pow(6));
    assert_eq!(TOTAL_SUPPLY, 1_000_000_000 * 10u64.pow(6));
    assert_eq!(CLAIM_AMOUNT, 10u64.pow(6));
    assert_eq!(MIN_PARTNER_TRANSFER, 1000 * 10u64.pow(6));
}

#[test]
fn initialize_creates_the_issuance_record() {
    let ledger = set_up();
    assert_eq!(ledger.usv_state(), Some(fresh_state()));
    assert_eq!(ledger.trading_state(), None);
    assert_eq!(ledger.claim_count(), 0);
    assert_eq!(ledger.batch_count(), 0);
}

#[test]
fn initialize_asks_for_the_whole_supply_to_be_minted_to_the_authority() {
    let ledger = Ledger::new();
    let ctx = Initialize { authority: authority(), mint: mint() };
    assert_eq!(
        prepare_initialize(&ledger, &ctx),
        Ok(TokenMint { mint: mint(), to: authority(), amount: 1_000_000_000_000_000 })
    );
    assert_eq!(prepare_initialize(&set_up(), &ctx), Err(USVError::AlreadyInitialized));
}

#[test]
fn initialize_twice_is_rejected_and_changes_nothing() {
    let mut ledger = set_up();
    let who = GenerateQRCodes { authority: authority() };
    generate_qr_codes(&mut ledger, &who, 2, None, String::from("first"), NOW).unwrap();
    let before = ledger.usv_state();
    let other = Initialize { authority: stranger(), mint: stranger() };
    assert_eq!(initialize(&mut ledger, &other, Ok(())), Err(USVError::AlreadyInitialized));
    assert_eq!(ledger.usv_state(), before);
    assert_eq!(ledger.usv_state().unwrap().authority, authority());
    assert_eq!(ledger.usv_state().unwrap().total_qr_codes, 2);
    assert_eq!(ledger.batch_count(), 1);
}

#[test]
fn initialize_creates_nothing_where_the_mint_was_refused() {
    let mut ledger = Ledger::new();
    let ctx = Initialize { authority: authority(), mint: mint() };
    assert_eq!(
        initialize(&mut ledger, &ctx, Err(TokenError::InvalidAccount)),
        Err(USVError::InvalidAccount)
    );
    assert_eq!(ledger.usv_state(), None);
    assert_eq!(initialize(&mut ledger, &ctx, Ok(())), Ok(()));
    assert_eq!(ledger.usv_state(), Some(fresh_state()));
}

#[test]
fn operations_on_a_ledger_that_is_not_set_up_are_rejected() {
    let mut ledger = Ledger::new();
    let who = GenerateQRCodes { authority: authority() };
    assert_eq!(
        generate_qr_codes(&mut ledger, &who, 1, None, String::new(), NOW),
        Err(USVError::NotInitialized)
    );
    let ctx = ClaimTokens { claimer: claimer() };
    assert_eq!(
        claim_tokens(&mut ledger, &ctx, String::from("5cc694a89694f457"), None, NOW, Ok(())),
        Err(USVError::NotInitialized)
    );
    let ctx = TransferToPartner { authority: authority(), partner: stranger() };
    assert_eq!(
        transfer_to_partner(&ledger, &ctx, MIN_PARTNER_TRANSFER, String::new(), NOW, Ok(())),
        Err(USVError::NotInitialized)
    );
    let ctx = SetPauseState { authority: authority() };
    assert_eq!(set_pause_state(&mut ledger, &ctx, true), Err(USVError::NotInitialized));
    assert_eq!(get_stats(&ledger), Err(USVError::NotInitialized));
    assert_eq!(ledger.usv_state(), None);
}

#[test]
fn generate_makes_a_batch_of_codes() {
    let mut ledger = set_up();
    let who = GenerateQRCodes { authority: authority() };
    let event = generate_qr_codes(
        &mut ledger,
        &who,
        3,
        Some(String::from("pharmacy-12")),
        String::from("spring campaign"),
        NOW,
    );
    assert_eq!(
        event,
        Ok(QRCodesGenerated {
            batch_id: String::from("BATCH_1700000000"),
            count: 3,
            partner_id: Some(String::from("pharmacy-12")),
            authority: authority(),
        })
    );
    assert_eq!(ledger.usv_state().unwrap().total_qr_codes, 3);
    assert_eq!(ledger.usv_state().unwrap().tokens_claimed, 0);
    assert_eq!(ledger.batch_count(), 1);
    let address = batch_address(&authority(), 0).unwrap();
    let batch = ledger.batch_at(&address).unwrap();
    assert_eq!(batch.batch_id, "BATCH_1700000000");
    assert_eq!(batch.count, 3);
    assert_eq!(batch.partner_id, Some(String::from("pharmacy-12")));
    assert_eq!(batch.batch_info, "spring campaign");
    assert_eq!(batch.created_at, NOW);
    assert_eq!(batch.authority, authority());
    assert_eq!(batch.qr_hashes, vec!["5cc694a89694f457", "c07d436b81b12c1d", "8e5e320bc2e40170"]);
    assert_eq!(ledger.batches()[0].address, address);
}

#[test]
fn the_next_batch_goes_on_where_the_last_one_ended() {
    let mut ledger = set_up();
    let who = GenerateQRCodes { authority: authority() };
    generate_qr_codes(&mut ledger, &who, 3, None, String::new(), NOW).unwrap();
    generate_qr_codes(&mut ledger, &who, 2, None, String::new(), NOW).unwrap();
    assert_eq!(ledger.usv_state().unwrap().total_qr_codes, 5);
    assert_eq!(ledger.batch_count(), 2);
    let address = batch_address(&authority(), 3).unwrap();
    assert_eq!(address.to_base58(), "4zK3PNjMXLKe76H37enhUdWaWCN88wc83Fc2LQs1RYgk");
    let batch = ledger.batch_at(&address).unwrap();
    assert_eq!(batch.qr_hashes, vec!["4bd405dc884b80fe", "95c30844af1d61cc"]);
    assert!(ledger.batch_at(&batch_address(&authority(), 5).unwrap()).is_none());
}

#[test]
fn generate_rejects_a_count_of_zero_and_of_1001() {
    let mut ledger = set_up();
    let who = GenerateQRCodes { authority: authority() };
    assert_eq!(
        generate_qr_codes(&mut ledger, &who, 0, None, String::new(), NOW),
        Err(USVError::InvalidQRCodeCount)
    );
    assert_eq!(
        generate_qr_codes(&mut ledger, &who, 1001, None, String::new(), NOW),
        Err(USVError::InvalidQRCodeCount)
    );
    assert_eq!(ledger.usv_state(), Some(fresh_state()));
    assert_eq!(ledger.batch_count(), 0);
}

#[test]
fn generate_takes_a_count_of_one_and_of_1000() {
    let mut ledger = set_up();
    let who = GenerateQRCodes { authority: authority() };
    assert!(generate_qr_codes(&mut ledger, &who, 1, None, String::new(), NOW).is_ok());
    assert!(generate_qr_codes(&mut ledger, &who, 1000, None, String::new(), NOW).is_ok());
    assert_eq!(ledger.usv_state().unwrap().total_qr_codes, 1001);
    let batch = ledger.batch_at(&batch_address(&authority(), 1).unwrap()).unwrap();
    assert_eq!(batch.qr_hashes.len(), 1000);
}

#[test]
fn generate_is_for_the_authority_only() {
    let mut ledger = set_up();
    let who = GenerateQRCodes { authority: stranger() };
    assert_eq!(
        generate_qr_codes(&mut ledger, &who, 5, None, String::new(), NOW),
        Err(USVError::Unauthorized)
    );
    assert_eq!(ledger.usv_state(), Some(fresh_state()));
    assert_eq!(ledger.batch_count(), 0);
}

#[test]
fn generate_checks_the_count_before_the_caller() {
    let mut ledger = set_up();
    let who = GenerateQRCodes { authority: stranger() };
    assert_eq!(
        generate_qr_codes(&mut ledger, &who, 0, None, String::new(), NOW),
        Err(USVError::InvalidQRCodeCount)
    );
}

#[test]
fn generate_rejects_a_count_that_the_counter_cannot_hold() {
    let state = USVState { total_qr_codes: u32::MAX - 999, ..fresh_state() };
    let mut ledger = Ledger::restore(Some(state), None, Vec::new(), Vec::new()).unwrap();
    let who = GenerateQRCodes { authority: authority() };
    assert_eq!(
        generate_qr_codes(&mut ledger, &who, 1000, None, String::new(), NOW),
        Err(USVError::InvalidAmount)
    );
    assert_eq!(ledger.usv_state(), Some(state));
    assert_eq!(ledger.batch_count(), 0);
    assert!(generate_qr_codes(&mut ledger, &who, 999, None, String::new(), NOW).is_ok());
    assert_eq!(ledger.usv_state().unwrap().total_qr_codes, u32::MAX);
    assert_eq!(
        generate_qr_codes(&mut ledger, &who, 1, None, String::new(), NOW),
        Err(USVError::InvalidAmount)
    );
}

#[test]
fn a_full_counter_does_not_hide_a_wrong_count() {
    let state = USVState { total_qr_codes: u32::MAX, ..fresh_state() };
    let mut ledger = Ledger::restore(Some(state), None, Vec::new(), Vec::new()).unwrap();
    let who = GenerateQRCodes { authority: authority() };
    assert_eq!(
        generate_qr_codes(&mut ledger, &who, 0, None, String::new(), NOW),
        Err(USVError::InvalidQRCodeCount)
    );
    assert_eq!(
        generate_qr_codes(&mut ledger, &who, 1001, None, String::new(), NOW),
        Err(USVError::InvalidQRCodeCount)
    );
}

#[test]
fn a_full_counter_does_not_hide_a_wrong_caller() {
    let state = USVState { total_qr_codes: u32::MAX, ..fresh_state() };
    let mut ledger = Ledger::restore(Some(state), None, Vec::new(), Vec::new()).unwrap();
    let who = GenerateQRCodes { authority: stranger() };
    assert_eq!(
        generate_qr_codes(&mut ledger, &who, 1, None, String::new(), NOW),
        Err(USVError::Unauthorized)
    );
    assert_eq!(
        generate_qr_codes(&mut ledger, &who, 1000, None, String::new(), NOW),
        Err(USVError::Unauthorized)
    );
    assert_eq!(ledger.usv_state(), Some(state));
    assert_eq!(ledger.batch_count(), 0);
}

#[test]
fn a_full_counter_does_not_hide_a_taken_address() {
    let state = USVState { total_qr_codes: u32::MAX, ..fresh_state() };
    let taken = usv_ledger::ledger::BatchEntry {
        address: batch_address(&authority(), u32::MAX).unwrap(),
        batch: usv_ledger::state::QRBatch {
            batch_id: String::from("BATCH_1"),
            count: 1,
            partner_id: None,
            batch_info: String::from("stands there"),
            qr_hashes: vec![String::from("0123456789abcdef")],
            created_at: 1,
            authority: authority(),
        },
    };
    let mut ledger = Ledger::restore(Some(state), None, vec![taken], Vec::new()).unwrap();
    let who = GenerateQRCodes { authority: authority() };
    assert_eq!(
        generate_qr_codes(&mut ledger, &who, 1, None, String::new(), NOW),
        Err(USVError::DuplicateBatchAddress)
    );
    assert_eq!(ledger.usv_state(), Some(state));
    assert_eq!(ledger.batch_count(), 1);
    let stands = ledger.batch_at(&batch_address(&authority(), u32::MAX).unwrap()).unwrap();
    assert_eq!(stands.batch_info, "stands there");
    assert_eq!(stands.qr_hashes, vec!["0123456789abcdef"]);
}

#[test]
fn generate_rejects_a_batch_address_that_is_taken() {
    let mut first = set_up();
    let who = GenerateQRCodes { authority: authority() };
    generate_qr_codes(&mut first, &who, 2, None, String::new(), NOW).unwrap();
    let stored = Ledger::restore(Some(fresh_state()), None, first_batches(first), Vec::new());
    let mut ledger = stored.unwrap();
    assert_eq!(
        generate_qr_codes(&mut ledger, &who, 2, None, String::new(), NOW + 1),
        Err(USVError::DuplicateBatchAddress)
    );
    assert_eq!(ledger.usv_state(), Some(fresh_state()));
    assert_eq!(ledger.batch_count(), 1);
}

fn first_batches(ledger: Ledger) -> Vec<usv_ledger::ledger::BatchEntry> {
    ledger
        .batches()
        .iter()
        .map(|entry| usv_ledger::ledger::BatchEntry {
            address: entry.address,
            batch: entry.batch.clone(),
        })
        .collect()
}

#[test]
fn claim_records_the_claim_and_counts_one_token() {
    let mut ledger = set_up();
    let ctx = ClaimTokens { claimer: claimer() };
    let event = claim_tokens(
        &mut ledger,
        &ctx,
        String::from("5cc694a89694f457"),
        Some(String::from("ann@example.org")),
        NOW + 60,
        Ok(()),
    );
    assert_eq!(
        event,
        Ok(TokensClaimed {
            qr_hash: String::from("5cc694a89694f457"),
            claimer: claimer(),
            amount: 1_000_000,
            user_email: Some(String::from("ann@example.org")),
            timestamp: NOW + 60,
        })
    );
    assert_eq!(ledger.usv_state().unwrap().tokens_claimed, 1_000_000);
    assert_eq!(ledger.usv_state().unwrap().total_qr_codes, 0);
    assert_eq!(ledger.claim_count(), 1);
    assert!(ledger.is_claimed("5cc694a89694f457"));
    assert!(!ledger.is_claimed("5cc694a89694f458"));
    let address = claim_address("5cc694a89694f457").unwrap();
    assert!(ledger.has_claim(&address));
    let claim = ledger.claim_at(&address).unwrap();
    assert_eq!(claim.qr_hash, "5cc694a89694f457");
    assert_eq!(claim.claimer, claimer());
    assert_eq!(claim.claimed_at, NOW + 60);
    assert_eq!(claim.user_email, Some(String::from("ann@example.org")));
    assert!(claim.is_claimed);
    assert_eq!(ledger.claims()[0].address, address);
}

#[test]
fn claim_asks_for_one_token_from_the_authority_to_the_claimer() {
    let ledger = set_up();
    let ctx = ClaimTokens { claimer: claimer() };
    assert_eq!(
        prepare_claim_tokens(&ledger, &ctx, "5cc694a89694f457"),
        Ok(TokenTransfer { mint: mint(), from: authority(), to: claimer(), amount: 1_000_000 })
    );
}

#[test]
fn a_code_is_claimed_once() {
    let mut ledger = set_up();
    let first = ClaimTokens { claimer: claimer() };
    let second = ClaimTokens { claimer: stranger() };
    let code = String::from("5cc694a89694f457");
    assert!(claim_tokens(&mut ledger, &first, code.clone(), None, NOW, Ok(())).is_ok());
    assert_eq!(
        claim_tokens(&mut ledger, &second, code.clone(), None, NOW + 1, Ok(())),
        Err(USVError::QRCodeAlreadyClaimed)
    );
    assert_eq!(
        claim_tokens(&mut ledger, &first, code.clone(), None, NOW + 2, Ok(())),
        Err(USVError::QRCodeAlreadyClaimed)
    );
    assert_eq!(prepare_claim_tokens(&ledger, &second, &code), Err(USVError::QRCodeAlreadyClaimed));
    assert_eq!(ledger.claim_count(), 1);
    assert_eq!(ledger.usv_state().unwrap().tokens_claimed, 1_000_000);
    let claim = ledger.claim_at(&claim_address(&code).unwrap()).unwrap();
    assert_eq!(claim.claimer, claimer());
    assert_eq!(claim.claimed_at, NOW);
}

#[test]
fn a_code_that_no_batch_holds_can_be_claimed() {
    let mut ledger = set_up();
    let ctx = ClaimTokens { claimer: claimer() };
    assert!(claim_tokens(&mut ledger, &ctx, String::from("never issued"), None, NOW, Ok(())).is_ok());
    assert!(ledger.is_claimed("never issued"));
}

#[test]
fn a_claim_that_the_token_ledger_refused_can_be_made_again() {
    let mut ledger = set_up();
    let ctx = ClaimTokens { claimer: claimer() };
    let code = String::from("5cc694a89694f457");
    assert_eq!(
        claim_tokens(&mut ledger, &ctx, code.clone(), None, NOW, Err(TokenError::InsufficientBalance)),
        Err(USVError::InsufficientBalance)
    );
    assert_eq!(ledger.claim_count(), 0);
    assert!(!ledger.is_claimed(&code));
    assert_eq!(ledger.usv_state(), Some(fresh_state()));
    assert_eq!(
        claim_tokens(&mut ledger, &ctx, code.clone(), None, NOW, Err(TokenError::InvalidAccount)),
        Err(USVError::InvalidAccount)
    );
    assert!(claim_tokens(&mut ledger, &ctx, code.clone(), None, NOW + 5, Ok(())).is_ok());
    assert!(ledger.is_claimed(&code));
}

#[test]
fn a_code_without_a_claim_address_is_rejected() {
    let mut ledger = set_up();
    let ctx = ClaimTokens { claimer: claimer() };
    let long = "c".repeat(33);
    assert_eq!(
        claim_tokens(&mut ledger, &ctx, long.clone(), None, NOW, Ok(())),
        Err(USVError::InvalidQRCode)
    );
    assert_eq!(prepare_claim_tokens(&ledger, &ctx, &long), Err(USVError::InvalidQRCode));
    assert_eq!(ledger.claim_count(), 0);
    assert!(!ledger.is_claimed(&long));
}

#[test]
fn no_more_is_claimed_than_was_minted() {
    let state = USVState { tokens_claimed: 1_000_000_000_000_000 - 1_500_000, ..fresh_state() };
    let mut ledger = Ledger::restore(Some(state), None, Vec::new(), Vec::new()).unwrap();
    let ctx = ClaimTokens { claimer: claimer() };
    assert!(claim_tokens(&mut ledger, &ctx, String::from("a"), None, NOW, Ok(())).is_ok());
    assert_eq!(
        claim_tokens(&mut ledger, &ctx, String::from("b"), None, NOW, Ok(())),
        Err(USVError::InsufficientBalance)
    );
    assert_eq!(prepare_claim_tokens(&ledger, &ctx, "b"), Err(USVError::InsufficientBalance));
    assert_eq!(ledger.usv_state().unwrap().tokens_claimed, 1_000_000_000_000_000 - 500_000);
    assert!(!ledger.is_claimed("b"));
}

#[test]
fn partner_transfer_below_a_thousand_tokens_is_rejected() {
    let ledger = set_up();
    let ctx = TransferToPartner { authority: authority(), partner: stranger() };
    assert_eq!(
        transfer_to_partner(&ledger, &ctx, 999 * TOKEN_SCALE, String::from("p"), NOW, Ok(())),
        Err(USVError::MinimumPartnerTransfer)
    );
    assert_eq!(
        transfer_to_partner(&ledger, &ctx, 1000 * TOKEN_SCALE - 1, String::from("p"), NOW, Ok(())),
        Err(USVError::MinimumPartnerTransfer)
    );
    assert_eq!(
        prepare_transfer_to_partner(&ledger, &ctx, 999 * TOKEN_SCALE),
        Err(USVError::MinimumPartnerTransfer)
    );
}

#[test]
fn partner_transfer_of_a_thousand_tokens_goes_through() {
    let mut ledger = set_up();
    let who = GenerateQRCodes { authority: authority() };
    generate_qr_codes(&mut ledger, &who, 4, None, String::new(), NOW).unwrap();
    let claim = ClaimTokens { claimer: claimer() };
    claim_tokens(&mut ledger, &claim, String::from("5cc694a89694f457"), None, NOW, Ok(())).unwrap();
    let before = ledger.usv_state();
    let ctx = TransferToPartner { authority: authority(), partner: stranger() };
    assert_eq!(
        prepare_transfer_to_partner(&ledger, &ctx, 1000 * TOKEN_SCALE),
        Ok(TokenTransfer { mint: mint(), from: authority(), to: stranger(), amount: 1_000_000_000 })
    );
    assert_eq!(
        transfer_to_partner(
            &ledger,
            &ctx,
            1000 * TOKEN_SCALE,
            String::from("north pharmacy"),
            NOW + 9,
            Ok(())
        ),
        Ok(PartnerTransfer {
            partner: stranger(),
            amount: 1_000_000_000,
            partner_info: String::from("north pharmacy"),
            timestamp: NOW + 9,
        })
    );
    assert_eq!(ledger.usv_state(), before);
    assert_eq!(ledger.usv_state().unwrap().tokens_claimed, 1_000_000);
    assert_eq!(ledger.usv_state().unwrap().total_qr_codes, 4);
    assert_eq!(ledger.claim_count(), 1);
    assert_eq!(ledger.batch_count(), 1);
}

#[test]
fn partner_transfer_is_for_the_authority_only() {
    let ledger = set_up();
    let ctx = TransferToPartner { authority: stranger(), partner: stranger() };
    assert_eq!(
        transfer_to_partner(&ledger, &ctx, 5000 * TOKEN_SCALE, String::new(), NOW, Ok(())),
        Err(USVError::Unauthorized)
    );
    assert_eq!(
        transfer_to_partner(&ledger, &ctx, 1, String::new(), NOW, Ok(())),
        Err(USVError::Unauthorized)
    );
}

#[test]
fn partner_transfer_reports_what_the_token_ledger_refused() {
    let ledger = set_up();
    let ctx = TransferToPartner { authority: authority(), partner: stranger() };
    assert_eq!(
        transfer_to_partner(
            &ledger,
            &ctx,
            u64::MAX,
            String::new(),
            NOW,
            Err(TokenError::InsufficientBalance)
        ),
        Err(USVError::InsufficientBalance)
    );
}

#[test]
fn pausing_is_for_the_authority_only() {
    let mut ledger = set_up();
    let ctx = SetPauseState { authority: stranger() };
    assert_eq!(set_pause_state(&mut ledger, &ctx, true), Err(USVError::Unauthorized));
    assert!(!ledger.usv_state().unwrap().is_paused);
    pause(&mut ledger, true);
    assert!(ledger.usv_state().unwrap().is_paused);
    assert_eq!(ledger.usv_state(), Some(USVState { is_paused: true, ..fresh_state() }));
    assert_eq!(set_pause_state(&mut ledger, &ctx, false), Err(USVError::Unauthorized));
    assert!(ledger.usv_state().unwrap().is_paused);
    pause(&mut ledger, false);
    assert_eq!(ledger.usv_state(), Some(fresh_state()));
}

#[test]
fn a_paused_program_rejects_batches_claims_and_partner_transfers() {
    let mut ledger = set_up();
    pause(&mut ledger, true);
    let before = ledger.usv_state();
    let who = GenerateQRCodes { authority: authority() };
    assert_eq!(
        generate_qr_codes(&mut ledger, &who, 5, None, String::new(), NOW),
        Err(USVError::ProgramPaused)
    );
    let intruder = GenerateQRCodes { authority: stranger() };
    assert_eq!(
        generate_qr_codes(&mut ledger, &intruder, 0, None, String::new(), NOW),
        Err(USVError::ProgramPaused)
    );
    let ctx = ClaimTokens { claimer: claimer() };
    assert_eq!(
        claim_tokens(&mut ledger, &ctx, String::from("5cc694a89694f457"), None, NOW, Ok(())),
        Err(USVError::ProgramPaused)
    );
    assert_eq!(
        prepare_claim_tokens(&ledger, &ctx, "5cc694a89694f457"),
        Err(USVError::ProgramPaused)
    );
    let partner = TransferToPartner { authority: authority(), partner: stranger() };
    assert_eq!(
        transfer_to_partner(&ledger, &partner, 1000 * TOKEN_SCALE, String::new(), NOW, Ok(())),
        Err(USVError::ProgramPaused)
    );
    assert_eq!(
        transfer_to_partner(&ledger, &partner, 1, String::new(), NOW, Ok(())),
        Err(USVError::ProgramPaused)
    );
    assert_eq!(ledger.usv_state(), before);
    assert_eq!(ledger.claim_count(), 0);
    assert_eq!(ledger.batch_count(), 0);
    assert!(!ledger.is_claimed("5cc694a89694f457"));
    pause(&mut ledger, false);
    assert!(claim_tokens(&mut ledger, &ctx, String::from("5cc694a89694f457"), None, NOW, Ok(())).is_ok());
}

#[test]
fn stats_show_the_issuance_record() {
    let mut ledger = set_up();
    let who = GenerateQRCodes { authority: authority() };
    generate_qr_codes(&mut ledger, &who, 7, None, String::new(), NOW).unwrap();
    let ctx = ClaimTokens { claimer: claimer() };
    claim_tokens(&mut ledger, &ctx, String::from("one"), None, NOW, Ok(())).unwrap();
    claim_tokens(&mut ledger, &ctx, String::from("two"), None, NOW, Ok(())).unwrap();
    pause(&mut ledger, true);
    assert_eq!(
        get_stats(&ledger),
        Ok(ProgramStats {
            total_supply: 1_000_000_000_000_000,
            tokens_claimed: 2_000_000,
            total_qr_codes: 7,
            is_paused: true,
            authority: authority(),
        })
    );
}
