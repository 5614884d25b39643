//! The ledger: the two singleton records, and the batches and claim records
//! in the order in which they were created, each at its address.

use crate::address::{claim_address, claim_address_of, Address};
use crate::state::{QRBatch, QRBatchView, QRClaim, QRClaimView, TradingState, USVState, MAX_BATCH_CODES};
use vstd::prelude::*;

verus! {

/// A batch at its address.
#[derive(Debug)]
pub struct BatchEntry {
    pub address: Address,
    pub batch: QRBatch,
}

/// A claim record at its address.
#[derive(Debug)]
pub struct ClaimEntry {
    pub address: Address,
    pub claim: QRClaim,
}

/// What a batch entry holds.
pub struct BatchEntryView {
    pub address: Address,
    pub batch: QRBatchView,
}

/// What a claim entry holds.
pub struct ClaimEntryView {
    pub address: Address,
    pub claim: QRClaimView,
}

impl View for BatchEntry {
    type V = BatchEntryView;

    open spec fn view(&self) -> BatchEntryView {
        BatchEntryView { address: self.address, batch: self.batch@ }
    }
}

impl View for ClaimEntry {
    type V = ClaimEntryView;

    open spec fn view(&self) -> ClaimEntryView {
        ClaimEntryView { address: self.address, claim: self.claim@ }
    }
}

impl BatchEntryView {
    /// A batch holds as many codes as it says, between 1 and 1000.
    pub open spec fn wf(self) -> bool {
        &&& 1 <= self.batch.count <= MAX_BATCH_CODES
        &&& self.batch.qr_hashes.len() == self.batch.count
    }
}

impl ClaimEntryView {
    /// A claim record stands at the address of its code, and says that the
    /// code is claimed.
    pub open spec fn wf(self) -> bool {
        &&& claim_address_of(self.claim.qr_hash) == Some(self.address)
        &&& self.claim.is_claimed
    }
}

/// What the ledger holds.
pub struct LedgerView {
    pub usv_state: Option<USVState>,
    pub trading_state: Option<TradingState>,
    pub batches: Seq<BatchEntryView>,
    pub claims: Seq<ClaimEntryView>,
}

impl LedgerView {
    /// The ledger before anything was created.
    pub open spec fn empty() -> LedgerView {
        LedgerView { usv_state: None, trading_state: None, batches: Seq::empty(), claims: Seq::empty() }
    }

    /// Whether a claim record stands at the address.
    pub open spec fn has_claim(self, address: Address) -> bool {
        exists|i: int| 0 <= i < self.claims.len() && (#[trigger] self.claims[i]).address == address
    }

    /// Whether a batch stands at the address.
    pub open spec fn has_batch(self, address: Address) -> bool {
        exists|i: int| 0 <= i < self.batches.len() && (#[trigger] self.batches[i]).address == address
    }

    /// Whether the code has been claimed: whether a claim record stands at
    /// the code's address.
    pub open spec fn is_claimed(self, code: Seq<char>) -> bool {
        claim_address_of(code) matches Some(address) && self.has_claim(address)
    }

    /// The claim record at the address, where there is one.
    pub open spec fn claim_at(self, address: Address) -> Option<QRClaimView> {
        if self.has_claim(address) {
            let i = choose|i: int| 0 <= i < self.claims.len() && (#[trigger] self.claims[i]).address == address;
            Some(self.claims[i].claim)
        } else {
            None
        }
    }

    /// The batch at the address, where there is one.
    pub open spec fn batch_at(self, address: Address) -> Option<QRBatchView> {
        if self.has_batch(address) {
            let i = choose|i: int| 0 <= i < self.batches.len() && (#[trigger] self.batches[i]).address == address;
            Some(self.batches[i].batch)
        } else {
            None
        }
    }

    /// No more is claimed than was minted; no two records stand at one
    /// address; every record is sound.
    pub open spec fn wf(self) -> bool {
        &&& self.usv_state matches Some(state) ==> state.tokens_claimed <= state.total_supply
        &&& forall|i: int, j: int|
            0 <= i < j < self.claims.len() ==> (#[trigger] self.claims[i]).address != (
            #[trigger] self.claims[j]).address
        &&& forall|i: int| 0 <= i < self.claims.len() ==> (#[trigger] self.claims[i]).wf()
        &&& forall|i: int, j: int|
            0 <= i < j < self.batches.len() ==> (#[trigger] self.batches[i]).address != (
            #[trigger] self.batches[j]).address
        &&& forall|i: int| 0 <= i < self.batches.len() ==> (#[trigger] self.batches[i]).wf()
    }
}

/// What a ledger that is put together from stored records holds.
pub open spec fn stored_ledger(
    usv_state: Option<USVState>,
    trading_state: Option<TradingState>,
    batches: Seq<BatchEntry>,
    claims: Seq<ClaimEntry>,
) -> LedgerView {
    LedgerView {
        usv_state,
        trading_state,
        batches: batches.map_values(|e: BatchEntry| e@),
        claims: claims.map_values(|e: ClaimEntry| e@),
    }
}

/// The ledger. Records are created through the operations only, and none
/// is ever removed.
#[derive(Debug)]
pub struct Ledger {
    usv_state: Option<USVState>,
    trading_state: Option<TradingState>,
    batches: Vec<BatchEntry>,
    claims: Vec<ClaimEntry>,
}

impl View for Ledger {
    type V = LedgerView;

    closed spec fn view(&self) -> LedgerView {
        LedgerView {
            usv_state: self.usv_state,
            trading_state: self.trading_state,
            batches: self.batches@.map_values(|e: BatchEntry| e@),
            claims: self.claims@.map_values(|e: ClaimEntry| e@),
        }
    }
}

impl Ledger {
    /// Every ledger is sound.
    #[verifier::type_invariant]
    pub open spec fn sound(&self) -> bool {
        self@.wf()
    }

    /// A ledger on which nothing has been created.
    pub fn new() -> (r: Ledger)
        ensures
            r@ == LedgerView::empty(),
            r@.wf(),
    {
        let r = Ledger { usv_state: None, trading_state: None, batches: Vec::new(), claims: Vec::new() };
        assert(r@.batches =~= Seq::empty());
        assert(r@.claims =~= Seq::empty());
        r
    }

    /// The ledger that a host has stored, put together again from its
    /// records. There is none where the records are not sound together: where
    /// more is claimed than was minted, two records stand at one address, a
    /// claim record stands elsewhere than at its code's address or does not
    /// say that the code is claimed, or a batch does not hold as many codes
    /// as it says, between 1 and 1000.
    pub fn restore(
        usv_state: Option<USVState>,
        trading_state: Option<TradingState>,
        batches: Vec<BatchEntry>,
        claims: Vec<ClaimEntry>,
    ) -> (r: Option<Ledger>)
        ensures
            match r {
                Some(ledger) => ledger@ == stored_ledger(usv_state, trading_state, batches@, claims@)
                    && ledger@.wf(),
                None => !stored_ledger(usv_state, trading_state, batches@, claims@).wf(),
            },
    {
        let ghost stored = stored_ledger(usv_state, trading_state, batches@, claims@);
        if let Some(state) = usv_state {
            if state.tokens_claimed > state.total_supply {
                return None;
            }
        }
        let mut i: usize = 0;
        while i < claims.len()
            invariant
                i <= claims.len(),
                stored == stored_ledger(usv_state, trading_state, batches@, claims@),
                forall|k: int| 0 <= k < i ==> (#[trigger] stored.claims[k]).wf(),
                forall|k: int, l: int|
                    0 <= k < l < i ==> (#[trigger] stored.claims[k]).address != (
                    #[trigger] stored.claims[l]).address,
            decreases claims.len() - i,
        {
            let entry = &claims[i];
            assert(stored.claims[i as int] == entry@);
            if !entry.claim.is_claimed {
                return None;
            }
            match claim_address(entry.claim.qr_hash.as_str()) {
                None => { return None; },
                Some(address) => {
                    if address != entry.address {
                        return None;
                    }
                },
            }
            let mut k: usize = 0;
            while k < i
                invariant
                    k <= i < claims.len(),
                    stored == stored_ledger(usv_state, trading_state, batches@, claims@),
                    *entry == claims@[i as int],
                    forall|m: int| 0 <= m < k ==> (#[trigger] stored.claims[m]).address != entry.address,
                decreases i - k,
            {
                assert(stored.claims[k as int] == claims@[k as int]@);
                if claims[k].address == entry.address {
                    assert(stored.claims[i as int] == claims@[i as int]@);
                    return None;
                }
                k = k + 1;
            }
            i = i + 1;
        }
        let mut i: usize = 0;
        while i < batches.len()
            invariant
                i <= batches.len(),
                stored == stored_ledger(usv_state, trading_state, batches@, claims@),
                forall|k: int| 0 <= k < i ==> (#[trigger] stored.batches[k]).wf(),
                forall|k: int, l: int|
                    0 <= k < l < i ==> (#[trigger] stored.batches[k]).address != (
                    #[trigger] stored.batches[l]).address,
            decreases batches.len() - i,
        {
            let entry = &batches[i];
            assert(stored.batches[i as int] == entry@);
            assert(entry@.batch.qr_hashes.len() == entry.batch.qr_hashes@.len());
            if entry.batch.count < 1 || entry.batch.count > MAX_BATCH_CODES
                || entry.batch.qr_hashes.len() != entry.batch.count as usize {
                return None;
            }
            let mut k: usize = 0;
            while k < i
                invariant
                    k <= i < batches.len(),
                    stored == stored_ledger(usv_state, trading_state, batches@, claims@),
                    *entry == batches@[i as int],
                    forall|m: int| 0 <= m < k ==> (#[trigger] stored.batches[m]).address != entry.address,
                decreases i - k,
            {
                assert(stored.batches[k as int] == batches@[k as int]@);
                if batches[k].address == entry.address {
                    assert(stored.batches[i as int] == batches@[i as int]@);
                    return None;
                }
                k = k + 1;
            }
            i = i + 1;
        }
        Some(Ledger { usv_state, trading_state, batches, claims })
    }

    /// The batches, in the order in which they were created.
    pub fn batches(&self) -> (r: &Vec<BatchEntry>)
        ensures
            r@.map_values(|e: BatchEntry| e@) == self@.batches,
    {
        &self.batches
    }

    /// The claim records, in the order in which they were created.
    pub fn claims(&self) -> (r: &Vec<ClaimEntry>)
        ensures
            r@.map_values(|e: ClaimEntry| e@) == self@.claims,
    {
        &self.claims
    }

    /// The issuance record, once it has been created.
    pub fn usv_state(&self) -> (r: Option<USVState>)
        ensures
            r == self@.usv_state,
    {
        self.usv_state
    }

    /// The trading record, once it has been created.
    pub fn trading_state(&self) -> (r: Option<TradingState>)
        ensures
            r == self@.trading_state,
    {
        self.trading_state
    }

    /// How many claim records there are.
    pub fn claim_count(&self) -> (r: usize)
        ensures
            r == self@.claims.len(),
    {
        self.claims.len()
    }

    /// How many batches there are.
    pub fn batch_count(&self) -> (r: usize)
        ensures
            r == self@.batches.len(),
    {
        self.batches.len()
    }

    fn find_claim(&self, address: &Address) -> (r: Option<usize>)
        ensures
            match r {
                Some(i) => i < self@.claims.len() && self@.claims[i as int].address == *address,
                None => !self@.has_claim(*address),
            },
    {
        let mut i: usize = 0;
        while i < self.claims.len()
            invariant
                i <= self.claims.len(),
                forall|j: int| 0 <= j < i ==> (#[trigger] self@.claims[j]).address != *address,
            decreases self.claims.len() - i,
        {
            if self.claims[i].address == *address {
                return Some(i);
            }
            i = i + 1;
        }
        None
    }

    fn find_batch(&self, address: &Address) -> (r: Option<usize>)
        ensures
            match r {
                Some(i) => i < self@.batches.len() && self@.batches[i as int].address == *address,
                None => !self@.has_batch(*address),
            },
    {
        let mut i: usize = 0;
        while i < self.batches.len()
            invariant
                i <= self.batches.len(),
                forall|j: int| 0 <= j < i ==> (#[trigger] self@.batches[j]).address != *address,
            decreases self.batches.len() - i,
        {
            if self.batches[i].address == *address {
                return Some(i);
            }
            i = i + 1;
        }
        None
    }

    /// Whether a claim record stands at the address.
    pub fn has_claim(&self, address: &Address) -> (r: bool)
        ensures
            r == self@.has_claim(*address),
    {
        self.find_claim(address).is_some()
    }

    /// Whether a batch stands at the address.
    pub fn has_batch(&self, address: &Address) -> (r: bool)
        ensures
            r == self@.has_batch(*address),
    {
        self.find_batch(address).is_some()
    }

    /// The claim record at the address, where there is one.
    pub fn claim_at(&self, address: &Address) -> (r: Option<&QRClaim>)
        ensures
            match r {
                Some(claim) => self@.claim_at(*address) == Some(claim@),
                None => self@.claim_at(*address) is None,
            },
    {
        proof {
            use_type_invariant(self);
        }
        match self.find_claim(address) {
            Some(i) => {
                assert(self@.claims[i as int] == self.claims[i as int]@);
                Some(&self.claims[i].claim)
            },
            None => None,
        }
    }

    /// The batch at the address, where there is one.
    pub fn batch_at(&self, address: &Address) -> (r: Option<&QRBatch>)
        ensures
            match r {
                Some(batch) => self@.batch_at(*address) == Some(batch@),
                None => self@.batch_at(*address) is None,
            },
    {
        proof {
            use_type_invariant(self);
        }
        match self.find_batch(address) {
            Some(i) => {
                assert(self@.batches[i as int] == self.batches[i as int]@);
                Some(&self.batches[i].batch)
            },
            None => None,
        }
    }

    /// Writes the issuance record.
    pub(crate) fn store_usv_state(&mut self, state: USVState)
        requires
            state.tokens_claimed <= state.total_supply,
        ensures
            final(self)@ == (LedgerView { usv_state: Some(state), ..old(self)@ }),
            final(self)@.wf(),
    {
        proof {
            use_type_invariant(&*self);
        }
        self.usv_state = Some(state);
    }

    /// Writes the trading record.
    pub(crate) fn store_trading_state(&mut self, state: TradingState)
        ensures
            final(self)@ == (LedgerView { trading_state: Some(state), ..old(self)@ }),
            final(self)@.wf(),
    {
        proof {
            use_type_invariant(&*self);
        }
        self.trading_state = Some(state);
    }

    /// Creates a claim record at an address where none stands. The list
    /// is taken out, grows by the record and is put back.
    pub(crate) fn create_claim(&mut self, address: Address, claim: QRClaim)
        requires
            !old(self)@.has_claim(address),
            (ClaimEntryView { address, claim: claim@ }).wf(),
        ensures
            final(self)@ == (LedgerView {
                claims: old(self)@.claims.push(ClaimEntryView { address, claim: claim@ }),
                ..old(self)@
            }),
            final(self)@.wf(),
    {
        proof {
            use_type_invariant(&*self);
        }
        let ghost before = self@;
        let ghost after = LedgerView {
            claims: before.claims.push(ClaimEntryView { address, claim: claim@ }),
            ..before
        };
        let mut claims: Vec<ClaimEntry> = Vec::new();
        core::mem::swap(&mut self.claims, &mut claims);
        claims.push(ClaimEntry { address, claim });
        proof {
            assert(claims@.map_values(|e: ClaimEntry| e@) =~= after.claims);
            assert forall|i: int, j: int| 0 <= i < j < after.claims.len() implies (
            #[trigger] after.claims[i]).address != (#[trigger] after.claims[j]).address by {
                if j == before.claims.len() {
                    assert(before.claims[i].address != address);
                }
            }
        }
        core::mem::swap(&mut self.claims, &mut claims);
    }

    /// Creates a batch at an address where none stands. The list is taken
    /// out, grows by the batch and is put back.
    pub(crate) fn create_batch(&mut self, address: Address, batch: QRBatch)
        requires
            !old(self)@.has_batch(address),
            (BatchEntryView { address, batch: batch@ }).wf(),
        ensures
            final(self)@ == (LedgerView {
                batches: old(self)@.batches.push(BatchEntryView { address, batch: batch@ }),
                ..old(self)@
            }),
            final(self)@.wf(),
    {
        proof {
            use_type_invariant(&*self);
        }
        let ghost before = self@;
        let ghost after = LedgerView {
            batches: before.batches.push(BatchEntryView { address, batch: batch@ }),
            ..before
        };
        let mut batches: Vec<BatchEntry> = Vec::new();
        core::mem::swap(&mut self.batches, &mut batches);
        batches.push(BatchEntry { address, batch });
        proof {
            assert(batches@.map_values(|e: BatchEntry| e@) =~= after.batches);
            assert forall|i: int, j: int| 0 <= i < j < after.batches.len() implies (
            #[trigger] after.batches[i]).address != (#[trigger] after.batches[j]).address by {
                if j == before.batches.len() {
                    assert(before.batches[i].address != address);
                }
            }
        }
        core::mem::swap(&mut self.batches, &mut batches);
    }

    /// Whether the code has been claimed.
    pub fn is_claimed(&self, code: &str) -> (r: bool)
        ensures
            r == self@.is_claimed(code@),
    {
        match claim_address(code) {
            Some(address) => self.has_claim(&address),
            None => false,
        }
    }
}

} // verus!
