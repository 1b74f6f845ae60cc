//! Stacking orders: which are due at the end of a reward cycle, and the
//! contract call that submits one.
//!
//! An order is due in the cycle before the one it starts at. It locks, for
//! each reward slot it asks for, the least amount that the next cycle takes,
//! and names the Bitcoin address that the rewards go to.

use vstd::prelude::*;
use vstd::string::*;
use vstd::hash_map::StringHashMap;
use base58::FromBase58;
use crate::integrate::describe::option_bytes;
use crate::integrate::endpoints::StackingTrigger;
use crate::integrate::events_observer::PoxInfo;
use crate::types::{AccountConfig, AccountConfigView, PoxStackingOrder};

verus! {

/// An order that is due, with the account that it locks the tokens of.
#[derive(Clone, Debug, PartialEq, Eq)]
pub struct StackingCandidate {
    pub order: PoxStackingOrder,
    pub account: AccountConfig,
}

/// The view of [`StackingCandidate`].
pub struct StackingCandidateView {
    pub start_at_cycle: u32,
    pub duration: u32,
    pub wallet: Seq<char>,
    pub slots: u64,
    pub btc_address: Seq<char>,
    pub account: AccountConfigView,
}

impl View for StackingCandidate {
    type V = StackingCandidateView;

    open spec fn view(&self) -> StackingCandidateView {
        StackingCandidateView {
            start_at_cycle: self.order.start_at_cycle,
            duration: self.order.duration,
            wallet: self.order.wallet@,
            slots: self.order.slots,
            btc_address: self.order.btc_address@,
            account: self.account@,
        }
    }
}

/// The views of a sequence of candidates.
pub open spec fn candidates_view(candidates: Seq<StackingCandidate>) -> Seq<StackingCandidateView> {
    candidates.map_values(|c: StackingCandidate| c@)
}

/// Whether an order is due in the cycle `pox_cycle_id`: it starts at the
/// next cycle, and its wallet is a known account.
pub open spec fn is_due(
    order: PoxStackingOrder,
    accounts: Map<Seq<char>, AccountConfig>,
    pox_cycle_id: u32,
) -> bool {
    order.start_at_cycle == pox_cycle_id + 1 && accounts.contains_key(order.wallet@)
}

/// The orders that are due in the cycle `pox_cycle_id`, in their order,
/// each with its account.
pub open spec fn due_candidates(
    orders: Seq<PoxStackingOrder>,
    accounts: Map<Seq<char>, AccountConfig>,
    pox_cycle_id: u32,
) -> Seq<StackingCandidateView>
    decreases orders.len(),
{
    if orders.len() == 0 {
        Seq::empty()
    } else {
        let before = due_candidates(orders.drop_last(), accounts, pox_cycle_id);
        let order = orders.last();
        if is_due(order, accounts, pox_cycle_id) {
            before.push(
                StackingCandidateView {
                    start_at_cycle: order.start_at_cycle,
                    duration: order.duration,
                    wallet: order.wallet@,
                    slots: order.slots,
                    btc_address: order.btc_address@,
                    account: accounts[order.wallet@]@,
                },
            )
        } else {
            before
        }
    }
}

/// Picks the orders that are due in the cycle `pox_cycle_id`.
pub fn due_stacking_orders(
    orders: &Vec<PoxStackingOrder>,
    accounts: &StringHashMap<AccountConfig>,
    pox_cycle_id: u32,
) -> (r: Vec<StackingCandidate>)
    ensures
        candidates_view(r@) == due_candidates(orders@, accounts@, pox_cycle_id),
{
    let mut due: Vec<StackingCandidate> = Vec::new();
    let mut i: usize = 0;
    assert(orders@.take(0) == Seq::<PoxStackingOrder>::empty());
    while i < orders.len()
        invariant
            i <= orders.len(),
            candidates_view(due@) == due_candidates(orders@.take(i as int), accounts@, pox_cycle_id),
        decreases orders.len() - i,
    {
        let order = &orders[i];
        let ghost before = due@;
        proof {
            assert(orders@.take(i + 1).drop_last() == orders@.take(i as int));
            assert(orders@.take(i + 1).last() == orders@[i as int]);
        }
        if order.start_at_cycle as u64 == pox_cycle_id as u64 + 1 {
            if let Some(account) = accounts.get(order.wallet.as_str()) {
                let candidate = StackingCandidate {
                    order: PoxStackingOrder {
                        start_at_cycle: order.start_at_cycle,
                        duration: order.duration,
                        wallet: order.wallet.clone(),
                        slots: order.slots,
                        btc_address: order.btc_address.clone(),
                    },
                    account: account.duplicate(),
                };
                due.push(candidate);
                assert(candidates_view(due@) == candidates_view(before).push(candidate@));
            }
        }
        i += 1;
    }
    assert(orders@.take(i as int) == orders@);
    due
}

/// The bytes that a text writes in base 58, with the alphabet of Bitcoin,
/// if it writes any.
pub uninterp spec fn base58_decoding(s: Seq<char>) -> Option<Seq<u8>>;

/// The longest text that is handed to the decoder, which works on a buffer
/// of this many bytes.
pub const BASE58_LIMIT: usize = 132;

/// Calls `from_base58` of the crate `base58` on the text. Not proved here:
/// that the result depends on the text alone. Longer texts are left out, on
/// which the decoder may overrun its buffer.
#[verifier::external_body]
fn decode_base58(s: &str) -> (r: Option<Vec<u8>>)
    requires
        s@.len() <= BASE58_LIMIT,
    ensures
        option_bytes(r) == base58_decoding(s@),
{
    s.from_base58().ok()
}

/// The bytes that a Bitcoin address writes: none where it is longer than
/// the decoder takes.
pub open spec fn btc_address_bytes(btc_address: Seq<char>) -> Option<Seq<u8>> {
    if btc_address.len() <= BASE58_LIMIT {
        base58_decoding(btc_address)
    } else {
        None
    }
}

/// Decodes a Bitcoin address.
pub fn decode_btc_address(btc_address: &str) -> (r: Option<Vec<u8>>)
    ensures
        option_bytes(r) == btc_address_bytes(btc_address@),
{
    if btc_address.unicode_len() <= BASE58_LIMIT {
        decode_base58(btc_address)
    } else {
        None
    }
}

/// The version byte of an address that pays to the hash of a public key.
pub const POX_ADDRESS_VERSION_P2PKH: u8 = 0;

/// The fee of a stacking transaction, in millionths of a token.
pub const STACKING_FEE: u64 = 1000;

/// The call that submits a stacking order.
#[derive(Clone, Debug, PartialEq, Eq)]
pub struct StackStxCall {
    /// The contract that keeps the stakes.
    pub contract_id: String,
    /// The function to call.
    pub function_name: String,
    /// The amount to lock, in millionths of a token.
    pub amount_ustx: u64,
    /// The version byte of the address that takes the rewards.
    pub pox_address_version: u8,
    /// The twenty bytes of the hash in that address.
    pub pox_address_hash: Vec<u8>,
    /// The height on the settlement chain at which the lock starts.
    pub start_burn_height: u64,
    /// The number of cycles to lock for.
    pub lock_period: u32,
    /// The fee to pay.
    pub fee: u64,
    /// The account that signs.
    pub account: AccountConfig,
}

/// The view of [`StackStxCall`].
pub struct StackStxCallView {
    pub contract_id: Seq<char>,
    pub function_name: Seq<char>,
    pub amount_ustx: u64,
    pub pox_address_version: u8,
    pub pox_address_hash: Seq<u8>,
    pub start_burn_height: u64,
    pub lock_period: u32,
    pub fee: u64,
    pub account: AccountConfigView,
}

impl View for StackStxCall {
    type V = StackStxCallView;

    open spec fn view(&self) -> StackStxCallView {
        StackStxCallView {
            contract_id: self.contract_id@,
            function_name: self.function_name@,
            amount_ustx: self.amount_ustx,
            pox_address_version: self.pox_address_version,
            pox_address_hash: self.pox_address_hash@,
            start_burn_height: self.start_burn_height,
            lock_period: self.lock_period,
            fee: self.fee,
            account: self.account@,
        }
    }
}

/// Why an order cannot be submitted.
#[derive(Clone, Copy, Debug, PartialEq, Eq, Structural)]
pub enum StackingError {
    /// The amount to lock does not fit 64 bits.
    AmountOverflow,
    /// The Bitcoin address is no base-58 text.
    UndecodableBtcAddress,
    /// The Bitcoin address holds no version byte with twenty bytes of hash.
    ShortBtcAddress,
    /// The block that gave the sign has no block before it.
    NoPreviousBlock,
}

/// The view of the outcome for an order.
pub open spec fn outcome_view(outcome: Result<StackStxCall, StackingError>) -> Result<
    StackStxCallView,
    StackingError,
> {
    match outcome {
        Ok(call) => Ok(call@),
        Err(e) => Err(e),
    }
}

/// The call that submits an order, given the bytes of its Bitcoin address:
/// it locks the least amount of the next cycle once for each slot, from
/// the block before the one that gave the sign, and pays to the hash that
/// follows the first byte of the address.
pub open spec fn stack_stx_call_of(
    candidate: StackingCandidateView,
    pox_info: PoxInfo,
    burn_block_height: u64,
    address_bytes: Option<Seq<u8>>,
) -> Result<StackStxCallView, StackingError> {
    let amount = pox_info.next_cycle.min_threshold_ustx * candidate.slots;
    if amount > u64::MAX {
        Err(StackingError::AmountOverflow)
    } else {
        match address_bytes {
            None => Err(StackingError::UndecodableBtcAddress),
            Some(bytes) => if bytes.len() < 21 {
                Err(StackingError::ShortBtcAddress)
            } else if burn_block_height == 0 {
                Err(StackingError::NoPreviousBlock)
            } else {
                Ok(
                    StackStxCallView {
                        contract_id: pox_info.contract_id@,
                        function_name: "stack-stx"@,
                        amount_ustx: amount as u64,
                        pox_address_version: POX_ADDRESS_VERSION_P2PKH,
                        pox_address_hash: bytes.subrange(1, 21),
                        start_burn_height: (burn_block_height - 1) as u64,
                        lock_period: candidate.duration,
                        fee: STACKING_FEE,
                        account: candidate.account,
                    },
                )
            },
        }
    }
}

/// Prepares the call that submits an order, given the decoded bytes of its
/// Bitcoin address.
pub fn stack_stx_call_with(
    candidate: &StackingCandidate,
    pox_info: &PoxInfo,
    burn_block_height: u64,
    address_bytes: Option<Vec<u8>>,
) -> (r: Result<StackStxCall, StackingError>)
    ensures
        outcome_view(r) == stack_stx_call_of(
            candidate@,
            *pox_info,
            burn_block_height,
            option_bytes(address_bytes),
        ),
{
    let amount_ustx = match pox_info.next_cycle.min_threshold_ustx.checked_mul(
        candidate.order.slots,
    ) {
        Some(amount) => amount,
        None => {
            return Err(StackingError::AmountOverflow);
        },
    };
    let bytes = match address_bytes {
        Some(bytes) => bytes,
        None => {
            return Err(StackingError::UndecodableBtcAddress);
        },
    };
    if bytes.len() < 21 {
        return Err(StackingError::ShortBtcAddress);
    }
    if burn_block_height == 0 {
        return Err(StackingError::NoPreviousBlock);
    }
    let mut pox_address_hash: Vec<u8> = Vec::new();
    let mut i: usize = 1;
    while i < 21
        invariant
            1 <= i <= 21,
            bytes@.len() >= 21,
            pox_address_hash@ == bytes@.subrange(1, i as int),
        decreases 21 - i,
    {
        pox_address_hash.push(bytes[i]);
        assert(bytes@.subrange(1, i + 1) == bytes@.subrange(1, i as int).push(bytes@[i as int]));
        i += 1;
    }
    Ok(
        StackStxCall {
            contract_id: pox_info.contract_id.clone(),
            function_name: String::from_str("stack-stx"),
            amount_ustx,
            pox_address_version: POX_ADDRESS_VERSION_P2PKH,
            pox_address_hash,
            start_burn_height: burn_block_height - 1,
            lock_period: candidate.order.duration,
            fee: STACKING_FEE,
            account: candidate.account.duplicate(),
        },
    )
}

/// Prepares the call that submits an order at the block that gave the
/// sign. What fails for one order says nothing of another.
pub fn stack_stx_call(
    candidate: &StackingCandidate,
    pox_info: &PoxInfo,
    trigger: &StackingTrigger,
) -> (r: Result<StackStxCall, StackingError>)
    ensures
        outcome_view(r) == stack_stx_call_of(
            candidate@,
            *pox_info,
            trigger.burn_block_height,
            btc_address_bytes(candidate.order.btc_address@),
        ),
{
    let address_bytes = decode_btc_address(candidate.order.btc_address.as_str());
    stack_stx_call_with(candidate, pox_info, trigger.burn_block_height, address_bytes)
}

/// The parameters of the reward cycles to go by: those that the node has
/// just told, or the ones at hand where it told none.
pub fn refreshed_pox_info(stale: PoxInfo, update: Option<PoxInfo>) -> (r: PoxInfo)
    ensures
        r == match update {
            Some(fresh) => fresh,
            None => stale,
        },
{
    match update {
        Some(fresh) => fresh,
        None => stale,
    }
}

} // verus!
