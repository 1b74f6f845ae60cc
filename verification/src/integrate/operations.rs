//! From the events of a block to the operations of one of its transactions.
//!
//! An event belongs to the transaction whose `txid` it carries. Its first
//! populated payload decides what it stands for: a mint credits the
//! recipient, a burn debits the sender, a lock locks the amount on the locked
//! address, and a transfer debits the sender and credits the recipient in two
//! operations that name each other. An event whose amount is no unsigned
//! 64-bit number, or whose payload is not understood, gives no operation.

use vstd::prelude::*;
use vstd::string::*;
use vstd::hash_map::StringHashMap;
use crate::integrate::currency::{
    cached_currency,
    cached_fungible_currency,
    get_stacks_currency,
    get_standardized_non_fungible_currency_from_asset_class_id,
    non_fungible_currency,
    stacks_currency,
};
use crate::integrate::events_observer::{AssetClassCache, EventPayload, NewEvent, NewTransaction};
use crate::text::{parse_u64, parsed_u64};
use crate::types::{
    AccountIdentifier,
    AccountIdentifierView,
    Amount,
    AmountView,
    Currency,
    CurrencyView,
    Operation,
    OperationIdentifier,
    OperationStatusKind,
    OperationType,
    OperationView,
    operations_view,
};

verus! {

/// What an event does to the ledger.
#[derive(Clone, Debug, PartialEq, Eq)]
pub enum LedgerEffect {
    /// One account is credited, debited or locked.
    Single { kind: OperationType, address: String, value: u64, currency: Currency },
    /// The sender is debited and the recipient credited.
    Transfer { sender: String, recipient: String, value: u64, currency: Currency },
    /// Nothing that can be reported.
    Nothing,
}

/// The view of [`LedgerEffect`].
pub enum LedgerEffectView {
    Single { kind: OperationType, address: Seq<char>, value: u64, currency: CurrencyView },
    Transfer { sender: Seq<char>, recipient: Seq<char>, value: u64, currency: CurrencyView },
    Nothing,
}

impl View for LedgerEffect {
    type V = LedgerEffectView;

    open spec fn view(&self) -> LedgerEffectView {
        match *self {
            LedgerEffect::Single { kind, address, value, currency } => LedgerEffectView::Single {
                kind,
                address: address@,
                value,
                currency: currency@,
            },
            LedgerEffect::Transfer { sender, recipient, value, currency } => LedgerEffectView::Transfer {
                sender: sender@,
                recipient: recipient@,
                value,
                currency: currency@,
            },
            LedgerEffect::Nothing => LedgerEffectView::Nothing,
        }
    }
}

/// The effect of one account with a counted amount, if the amount is a number.
pub open spec fn counted_single(
    kind: OperationType,
    address: Seq<char>,
    amount: Seq<char>,
    currency: CurrencyView,
) -> LedgerEffectView {
    match parsed_u64(amount) {
        Some(value) => LedgerEffectView::Single { kind, address, value, currency },
        None => LedgerEffectView::Nothing,
    }
}

/// The effect of a transfer of a counted amount, if the amount is a number.
pub open spec fn counted_transfer(
    sender: Seq<char>,
    recipient: Seq<char>,
    amount: Seq<char>,
    currency: CurrencyView,
) -> LedgerEffectView {
    match parsed_u64(amount) {
        Some(value) => LedgerEffectView::Transfer { sender, recipient, value, currency },
        None => LedgerEffectView::Nothing,
    }
}

/// The fungible asset class whose currency the payload is counted in.
pub open spec fn asset_class_needed(payload: EventPayload) -> Option<Seq<char>> {
    match payload {
        EventPayload::FtMint(d) => Some(d.asset_class_identifier@),
        EventPayload::FtBurn(d) => Some(d.asset_class_identifier@),
        EventPayload::FtTransfer(d) => Some(d.asset_class_identifier@),
        _ => None,
    }
}

/// What a payload does to the ledger. Amounts of the native token are counted
/// in its fixed currency, amounts of a fungible asset class in the currency
/// that the cache holds for the class, and a non-fungible token counts as one
/// unit of a currency of its own.
pub open spec fn payload_effect(
    payload: EventPayload,
    cache: Map<Seq<char>, AssetClassCache>,
) -> LedgerEffectView {
    match payload {
        EventPayload::StxMint(d) => counted_single(
            OperationType::Credit,
            d.recipient@,
            d.amount@,
            stacks_currency(),
        ),
        EventPayload::StxLock(d) => counted_single(
            OperationType::Lock,
            d.locked_address@,
            d.locked_amount@,
            stacks_currency(),
        ),
        EventPayload::StxBurn(d) => counted_single(
            OperationType::Debit,
            d.sender@,
            d.amount@,
            stacks_currency(),
        ),
        EventPayload::StxTransfer(d) => counted_transfer(
            d.sender@,
            d.recipient@,
            d.amount@,
            stacks_currency(),
        ),
        EventPayload::NftMint(d) => LedgerEffectView::Single {
            kind: OperationType::Credit,
            address: d.recipient@,
            value: 1,
            currency: non_fungible_currency(d.asset_class_identifier@, d.asset_identifier@),
        },
        EventPayload::NftBurn(d) => LedgerEffectView::Single {
            kind: OperationType::Debit,
            address: d.sender@,
            value: 1,
            currency: non_fungible_currency(d.asset_class_identifier@, d.asset_identifier@),
        },
        EventPayload::NftTransfer(d) => LedgerEffectView::Transfer {
            sender: d.sender@,
            recipient: d.recipient@,
            value: 1,
            currency: non_fungible_currency(d.asset_class_identifier@, d.asset_identifier@),
        },
        EventPayload::FtMint(d) => match cached_currency(cache, d.asset_class_identifier@) {
            Some(currency) => counted_single(OperationType::Credit, d.recipient@, d.amount@, currency),
            None => LedgerEffectView::Nothing,
        },
        EventPayload::FtBurn(d) => match cached_currency(cache, d.asset_class_identifier@) {
            Some(currency) => counted_single(OperationType::Debit, d.sender@, d.amount@, currency),
            None => LedgerEffectView::Nothing,
        },
        EventPayload::FtTransfer(d) => match cached_currency(cache, d.asset_class_identifier@) {
            Some(currency) => counted_transfer(d.sender@, d.recipient@, d.amount@, currency),
            None => LedgerEffectView::Nothing,
        },
        EventPayload::Unrecognized => LedgerEffectView::Nothing,
    }
}

/// The identifier of the operation at `index`.
pub open spec fn identifier_at(index: int) -> OperationIdentifier {
    OperationIdentifier { index: index as u32, network_index: None }
}

/// The successful operation at `index` on `address`.
pub open spec fn operation_at(
    index: int,
    related: Option<Seq<OperationIdentifier>>,
    kind: OperationType,
    address: Seq<char>,
    value: u64,
    currency: CurrencyView,
) -> OperationView {
    OperationView {
        operation_identifier: identifier_at(index),
        related_operations: related,
        type_: kind,
        status: Some(OperationStatusKind::Success),
        account: AccountIdentifierView { address, sub_account: None },
        amount: Some(AmountView { value, currency }),
        metadata: None,
    }
}

/// The operations that report an effect, the first of them at index `first`.
pub open spec fn effect_operations(effect: LedgerEffectView, first: int) -> Seq<OperationView> {
    match effect {
        LedgerEffectView::Single { kind, address, value, currency } => seq![
            operation_at(first, None, kind, address, value, currency),
        ],
        LedgerEffectView::Transfer { sender, recipient, value, currency } => seq![
            operation_at(
                first,
                Some(seq![identifier_at(first + 1)]),
                OperationType::Debit,
                sender,
                value,
                currency,
            ),
            operation_at(
                first + 1,
                Some(seq![identifier_at(first)]),
                OperationType::Credit,
                recipient,
                value,
                currency,
            ),
        ],
        LedgerEffectView::Nothing => Seq::empty(),
    }
}

/// The operations of the transaction `txid`, given the events of its block in
/// the order in which the node listed them.
pub open spec fn transaction_operations(
    events: Seq<NewEvent>,
    txid: Seq<char>,
    cache: Map<Seq<char>, AssetClassCache>,
) -> Seq<OperationView>
    decreases events.len(),
{
    if events.len() == 0 {
        Seq::empty()
    } else {
        let before = transaction_operations(events.drop_last(), txid, cache);
        if events.last().txid@ == txid {
            before + effect_operations(
                payload_effect(events.last().payload(), cache),
                before.len() as int,
            )
        } else {
            before
        }
    }
}

/// Whether an event belongs to another transaction than `txid`.
pub open spec fn of_another(txid: Seq<char>) -> spec_fn(NewEvent) -> bool {
    |e: NewEvent| e.txid@ != txid
}

/// The events that belong to other transactions than `txid`, in their order.
pub open spec fn events_of_others(events: Seq<NewEvent>, txid: Seq<char>) -> Seq<NewEvent> {
    events.filter(of_another(txid))
}

/// The fungible asset class that has to be resolved before the operations of
/// `txid` can be told: that of the first event of the transaction which is
/// counted in a class that the cache does not hold.
pub open spec fn first_unresolved(
    events: Seq<NewEvent>,
    txid: Seq<char>,
    cache: Map<Seq<char>, AssetClassCache>,
) -> Option<Seq<char>>
    decreases events.len(),
{
    if events.len() == 0 {
        None
    } else {
        let e = events.first();
        let needed = asset_class_needed(e.payload());
        if e.txid@ == txid && needed is Some && !cache.contains_key(needed->0) {
            needed
        } else {
            first_unresolved(events.drop_first(), txid, cache)
        }
    }
}

/// What the standardizer hands back.
#[derive(Clone, Debug, PartialEq, Eq)]
pub enum Standardized {
    /// The operations of the transaction; its events have left the list.
    Operations(Vec<Operation>),
    /// The asset class to resolve first; the list of events is untouched.
    UnresolvedAssetClass(String),
}

/// The view of what the standardizer hands back.
pub enum StandardizedView {
    Operations(Seq<OperationView>),
    UnresolvedAssetClass(Seq<char>),
}

impl View for Standardized {
    type V = StandardizedView;

    open spec fn view(&self) -> StandardizedView {
        match *self {
            Standardized::Operations(operations) => StandardizedView::Operations(
                operations_view(operations@),
            ),
            Standardized::UnresolvedAssetClass(class) => StandardizedView::UnresolvedAssetClass(
                class@,
            ),
        }
    }
}

fn single_effect(kind: OperationType, address: String, amount: &str, currency: Currency) -> (r:
    LedgerEffect)
    ensures
        r@ == counted_single(kind, address@, amount@, currency@),
{
    match parse_u64(amount) {
        Some(value) => LedgerEffect::Single { kind, address, value, currency },
        None => LedgerEffect::Nothing,
    }
}

fn transfer_effect(sender: String, recipient: String, amount: &str, currency: Currency) -> (r:
    LedgerEffect)
    ensures
        r@ == counted_transfer(sender@, recipient@, amount@, currency@),
{
    match parse_u64(amount) {
        Some(value) => LedgerEffect::Transfer { sender, recipient, value, currency },
        None => LedgerEffect::Nothing,
    }
}

/// Tells what a payload does to the ledger.
pub fn effect_of(payload: EventPayload, asset_class_cache: &StringHashMap<AssetClassCache>) -> (r:
    LedgerEffect)
    ensures
        r@ == payload_effect(payload, asset_class_cache@),
{
    match payload {
        EventPayload::StxMint(d) => single_effect(
            OperationType::Credit,
            d.recipient,
            d.amount.as_str(),
            get_stacks_currency(),
        ),
        EventPayload::StxLock(d) => single_effect(
            OperationType::Lock,
            d.locked_address,
            d.locked_amount.as_str(),
            get_stacks_currency(),
        ),
        EventPayload::StxBurn(d) => single_effect(
            OperationType::Debit,
            d.sender,
            d.amount.as_str(),
            get_stacks_currency(),
        ),
        EventPayload::StxTransfer(d) => transfer_effect(
            d.sender,
            d.recipient,
            d.amount.as_str(),
            get_stacks_currency(),
        ),
        EventPayload::NftMint(d) => {
            let currency = get_standardized_non_fungible_currency_from_asset_class_id(
                d.asset_class_identifier.as_str(),
                d.asset_identifier.as_str(),
            );
            LedgerEffect::Single {
                kind: OperationType::Credit,
                address: d.recipient,
                value: 1,
                currency,
            }
        },
        EventPayload::NftBurn(d) => {
            let currency = get_standardized_non_fungible_currency_from_asset_class_id(
                d.asset_class_identifier.as_str(),
                d.asset_identifier.as_str(),
            );
            LedgerEffect::Single { kind: OperationType::Debit, address: d.sender, value: 1, currency }
        },
        EventPayload::NftTransfer(d) => {
            let currency = get_standardized_non_fungible_currency_from_asset_class_id(
                d.asset_class_identifier.as_str(),
                d.asset_identifier.as_str(),
            );
            LedgerEffect::Transfer { sender: d.sender, recipient: d.recipient, value: 1, currency }
        },
        EventPayload::FtMint(d) => {
            match cached_fungible_currency(d.asset_class_identifier.as_str(), asset_class_cache) {
                Some(currency) => single_effect(
                    OperationType::Credit,
                    d.recipient,
                    d.amount.as_str(),
                    currency,
                ),
                None => LedgerEffect::Nothing,
            }
        },
        EventPayload::FtBurn(d) => {
            match cached_fungible_currency(d.asset_class_identifier.as_str(), asset_class_cache) {
                Some(currency) => single_effect(
                    OperationType::Debit,
                    d.sender,
                    d.amount.as_str(),
                    currency,
                ),
                None => LedgerEffect::Nothing,
            }
        },
        EventPayload::FtTransfer(d) => {
            match cached_fungible_currency(d.asset_class_identifier.as_str(), asset_class_cache) {
                Some(currency) => transfer_effect(
                    d.sender,
                    d.recipient,
                    d.amount.as_str(),
                    currency,
                ),
                None => LedgerEffect::Nothing,
            }
        },
        EventPayload::Unrecognized => LedgerEffect::Nothing,
    }
}

fn new_operation(
    index: u32,
    related: Option<u32>,
    kind: OperationType,
    address: String,
    value: u64,
    currency: Currency,
) -> (r: Operation)
    ensures
        r@ == operation_at(
            index as int,
            match related {
                Some(other) => Some(seq![identifier_at(other as int)]),
                None => None,
            },
            kind,
            address@,
            value,
            currency@,
        ),
{
    let related_operations = match related {
        Some(other) => {
            let mut list: Vec<OperationIdentifier> = Vec::new();
            list.push(OperationIdentifier { index: other, network_index: None });
            assert(list@ == seq![identifier_at(other as int)]);
            Some(list)
        },
        None => None,
    };
    Operation {
        operation_identifier: OperationIdentifier { index, network_index: None },
        related_operations,
        type_: kind,
        status: Some(OperationStatusKind::Success),
        account: AccountIdentifier { address, sub_account: None },
        amount: Some(Amount { value, currency }),
        metadata: None,
    }
}

/// Appends the operations that report `effect`, numbered from the length of
/// the list.
pub fn push_effect(operations: &mut Vec<Operation>, effect: LedgerEffect)
    requires
        old(operations)@.len() + 2 <= u32::MAX,
    ensures
        operations_view(final(operations)@) == operations_view(old(operations)@)
            + effect_operations(effect@, old(operations)@.len() as int),
{
    let first = operations.len() as u32;
    let ghost before = operations@;
    match effect {
        LedgerEffect::Single { kind, address, value, currency } => {
            let operation = new_operation(first, None, kind, address, value, currency);
            operations.push(operation);
            assert(operations_view(operations@) == operations_view(before)
                + effect_operations(effect@, before.len() as int));
        },
        LedgerEffect::Transfer { sender, recipient, value, currency } => {
            let debit = new_operation(
                first,
                Some(first + 1),
                OperationType::Debit,
                sender,
                value,
                currency.duplicate(),
            );
            let credit = new_operation(
                first + 1,
                Some(first),
                OperationType::Credit,
                recipient,
                value,
                currency,
            );
            operations.push(debit);
            operations.push(credit);
            assert(operations_view(operations@) == operations_view(before)
                + effect_operations(effect@, before.len() as int));
        },
        LedgerEffect::Nothing => {
            assert(operations_view(operations@) == operations_view(before)
                + effect_operations(effect@, before.len() as int));
        },
    }
}

/// The fungible asset class that the event is counted in, if it is counted
/// in one.
pub fn asset_class_of(event: &NewEvent) -> (r: Option<String>)
    ensures
        crate::types::option_text(r) == asset_class_needed(event.payload()),
{
    if event.stx_mint_event.is_some() || event.stx_lock_event.is_some()
        || event.stx_burn_event.is_some() || event.stx_transfer_event.is_some()
        || event.nft_mint_event.is_some() || event.nft_burn_event.is_some()
        || event.nft_transfer_event.is_some() {
        None
    } else if let Some(d) = &event.ft_mint_event {
        Some(d.asset_class_identifier.clone())
    } else if let Some(d) = &event.ft_burn_event {
        Some(d.asset_class_identifier.clone())
    } else if let Some(d) = &event.ft_transfer_event {
        Some(d.asset_class_identifier.clone())
    } else {
        None
    }
}

/// Looks for the asset class that has to be resolved before the operations
/// of the transaction `txid` can be told.
pub fn find_unresolved(
    events: &Vec<NewEvent>,
    txid: &String,
    asset_class_cache: &StringHashMap<AssetClassCache>,
) -> (r: Option<String>)
    ensures
        crate::types::option_text(r) == first_unresolved(events@, txid@, asset_class_cache@),
{
    let mut k: usize = 0;
    assert(events@.skip(0) == events@);
    while k < events.len()
        invariant
            k <= events.len(),
            first_unresolved(events@, txid@, asset_class_cache@) == first_unresolved(
                events@.skip(k as int),
                txid@,
                asset_class_cache@,
            ),
        decreases events.len() - k,
    {
        let event = &events[k];
        proof {
            assert(events@.skip(k as int).first() == events@[k as int]);
            assert(events@.skip(k as int).drop_first() == events@.skip(k + 1));
        }
        if event.txid == *txid {
            if let Some(class) = asset_class_of(event) {
                if !asset_class_cache.contains_key(class.as_str()) {
                    return Some(class);
                }
            }
        }
        k += 1;
    }
    None
}

/// Tells the operations of a transaction from the events of its block.
///
/// Where an event of the transaction is counted in a fungible asset class
/// that the cache does not hold, the class is handed back and nothing is
/// changed; the caller resolves it and calls again. Otherwise the events of
/// the transaction leave the list, the others keep their order, and the
/// operations are those of [`transaction_operations`]: numbered `0, 1, 2, ..`
/// in the order of the events that gave them.
pub fn get_standardized_stacks_operations(
    transaction: &NewTransaction,
    events: &mut Vec<NewEvent>,
    asset_class_cache: &StringHashMap<AssetClassCache>,
) -> (r: Standardized)
    requires
        2 * old(events)@.len() <= u32::MAX,
    ensures
        match first_unresolved(old(events)@, transaction.txid@, asset_class_cache@) {
            Some(class) => r@ == StandardizedView::UnresolvedAssetClass(class) && final(events)@
                == old(events)@,
            None => r@ == StandardizedView::Operations(
                transaction_operations(old(events)@, transaction.txid@, asset_class_cache@),
            ) && final(events)@ == events_of_others(old(events)@, transaction.txid@),
        },
        r matches Standardized::Operations(operations) ==> forall|i: int|
            0 <= i < operations@.len() ==> (#[trigger] operations@[i]).operation_identifier.index
                == i,
{
    if let Some(class) = find_unresolved(events, &transaction.txid, asset_class_cache) {
        return Standardized::UnresolvedAssetClass(class);
    }
    let ghost all = events@;
    let ghost txid = transaction.txid@;
    let ghost cache = asset_class_cache@;
    let mut operations: Vec<Operation> = Vec::new();
    let mut i: usize = 0;
    let ghost mut k: int = 0;
    proof {
        reveal(Seq::filter);
        assert(all.take(0) == Seq::<NewEvent>::empty());
        assert(all.skip(0) == all);
        assert(events_of_others(all.take(0), txid) == Seq::<NewEvent>::empty());
    }
    while i < events.len()
        invariant
            0 <= k <= all.len(),
            2 * all.len() <= u32::MAX,
            txid == transaction.txid@,
            cache == asset_class_cache@,
            i == events_of_others(all.take(k), txid).len(),
            events@ == events_of_others(all.take(k), txid) + all.skip(k),
            operations_view(operations@) == transaction_operations(all.take(k), txid, cache),
            operations@.len() <= 2 * k,
        decreases all.len() - k,
    {
        proof {
            reveal(Seq::filter);
            assert(events@[i as int] == all[k]);
            assert(all.take(k + 1).drop_last() == all.take(k));
            assert(all.take(k + 1).last() == all[k]);
        }
        if events[i].txid == transaction.txid {
            let event = events.remove(i);
            let ghost before = operations@;
            let effect = effect_of(event.into_payload(), asset_class_cache);
            push_effect(&mut operations, effect);
            proof {
                assert(events@ == events_of_others(all.take(k + 1), txid) + all.skip(k + 1));
                assert(operations_view(before).len() == before.len());
                assert(operations_view(operations@).len() == operations@.len());
            }
        } else {
            i += 1;
            proof {
                assert(events@ == events_of_others(all.take(k + 1), txid) + all.skip(k + 1));
            }
        }
        proof {
            k = k + 1;
        }
    }
    proof {
        assert(k == all.len()) by {
            assert(events@.len() == i + (all.len() - k));
        }
        assert(all.take(k) == all);
        assert(all.skip(k) == Seq::<NewEvent>::empty());
        assert(events@ == events_of_others(all, txid));
        lemma_operations_are_numbered(all, txid, cache);
        assert forall|j: int| 0 <= j < operations@.len() implies (#[trigger] operations@[j]).operation_identifier.index
            == j by {
            assert(operations_view(operations@)[j] == operations@[j]@);
        }
    }
    Standardized::Operations(operations)
}

/// The operations of a transaction are as many as twice its events at most,
/// and the operation at place `i` is identified by `i`: the indices run
/// `0, 1, 2, ..` without a gap, however many events gave no operation. An
/// index has 32 bits and tells the place up to the largest number that they
/// hold.
pub proof fn lemma_operations_are_numbered(
    events: Seq<NewEvent>,
    txid: Seq<char>,
    cache: Map<Seq<char>, AssetClassCache>,
)
    ensures
        transaction_operations(events, txid, cache).len() <= 2 * events.len(),
        forall|i: int|
            0 <= i < transaction_operations(events, txid, cache).len() ==> (
            #[trigger] transaction_operations(events, txid, cache)[i]).operation_identifier
                == identifier_at(i),
        forall|i: int|
            0 <= i < transaction_operations(events, txid, cache).len() && i <= u32::MAX ==> (
            #[trigger] transaction_operations(events, txid, cache)[i]).operation_identifier.index
                == i,
    decreases events.len(),
{
    if events.len() > 0 {
        lemma_operations_are_numbered(events.drop_last(), txid, cache);
    }
}

/// Whether the payload reports a transfer between two accounts.
pub open spec fn is_transfer(payload: EventPayload) -> bool {
    payload is StxTransfer || payload is NftTransfer || payload is FtTransfer
}

/// Whether the payload reports a mint, a burn or a lock.
pub open spec fn is_mint_burn_or_lock(payload: EventPayload) -> bool {
    payload is StxMint || payload is StxLock || payload is StxBurn || payload is NftMint
        || payload is NftBurn || payload is FtMint || payload is FtBurn
}

/// The account that a transfer takes from.
pub open spec fn sender_of(payload: EventPayload) -> Seq<char> {
    match payload {
        EventPayload::StxTransfer(d) => d.sender@,
        EventPayload::NftTransfer(d) => d.sender@,
        EventPayload::FtTransfer(d) => d.sender@,
        _ => Seq::empty(),
    }
}

/// The account that a transfer gives to.
pub open spec fn recipient_of(payload: EventPayload) -> Seq<char> {
    match payload {
        EventPayload::StxTransfer(d) => d.recipient@,
        EventPayload::NftTransfer(d) => d.recipient@,
        EventPayload::FtTransfer(d) => d.recipient@,
        _ => Seq::empty(),
    }
}

/// A transfer gives exactly two operations, the debit of the sender and then
/// the credit of the recipient, at the place that the events before it fix,
/// and each names the other as its one related operation. This holds of
/// every transfer whose amount is a number and whose currency is known:
/// another transfer gives no operation at all.
pub proof fn lemma_transfer_gives_mutual_pair(
    events: Seq<NewEvent>,
    event: NewEvent,
    cache: Map<Seq<char>, AssetClassCache>,
)
    requires
        is_transfer(event.payload()),
        !(payload_effect(event.payload(), cache) is Nothing),
    ensures
        ({
            let before = transaction_operations(events, event.txid@, cache);
            let after = transaction_operations(events.push(event), event.txid@, cache);
            let i = before.len() as int;
            &&& after.len() == i + 2
            &&& after.take(i) == before
            &&& after[i].operation_identifier == identifier_at(i)
            &&& after[i + 1].operation_identifier == identifier_at(i + 1)
            &&& i + 1 <= u32::MAX ==> after[i].operation_identifier.index == i && after[i
                + 1].operation_identifier.index == i + 1
            &&& after[i].type_ == OperationType::Debit
            &&& after[i].account.address == sender_of(event.payload())
            &&& after[i + 1].type_ == OperationType::Credit
            &&& after[i + 1].account.address == recipient_of(event.payload())
            &&& after[i].related_operations == Some(seq![after[i + 1].operation_identifier])
            &&& after[i + 1].related_operations == Some(seq![after[i].operation_identifier])
        }),
{
    let all = events.push(event);
    assert(all.drop_last() == events);
    assert(all.last() == event);
    let before = transaction_operations(events, event.txid@, cache);
    let after = transaction_operations(all, event.txid@, cache);
    assert(after.take(before.len() as int) == before);
}

/// A mint, a burn or a lock gives exactly one operation, at the place that
/// the events before it fix, which names no related operation. This holds of
/// every such event whose amount is a number and whose currency is known:
/// another one gives no operation at all.
pub proof fn lemma_mint_burn_lock_gives_one(
    events: Seq<NewEvent>,
    event: NewEvent,
    cache: Map<Seq<char>, AssetClassCache>,
)
    requires
        is_mint_burn_or_lock(event.payload()),
        !(payload_effect(event.payload(), cache) is Nothing),
    ensures
        ({
            let before = transaction_operations(events, event.txid@, cache);
            let after = transaction_operations(events.push(event), event.txid@, cache);
            let i = before.len() as int;
            &&& after.len() == i + 1
            &&& after.take(i) == before
            &&& after[i].operation_identifier == identifier_at(i)
            &&& i <= u32::MAX ==> after[i].operation_identifier.index == i
            &&& after[i].related_operations is None
        }),
{
    let all = events.push(event);
    assert(all.drop_last() == events);
    assert(all.last() == event);
    let before = transaction_operations(events, event.txid@, cache);
    let after = transaction_operations(all, event.txid@, cache);
    assert(after.take(before.len() as int) == before);
}

/// The events that follow change nothing of the operations so far: the
/// operations of a transaction start with those that the events before gave
/// it, whatever follows them.
pub proof fn lemma_later_events_only_add(
    events: Seq<NewEvent>,
    later: Seq<NewEvent>,
    txid: Seq<char>,
    cache: Map<Seq<char>, AssetClassCache>,
)
    ensures
        transaction_operations(events, txid, cache).len() <= transaction_operations(
            events + later,
            txid,
            cache,
        ).len(),
        transaction_operations(events + later, txid, cache).take(
            transaction_operations(events, txid, cache).len() as int,
        ) == transaction_operations(events, txid, cache),
    decreases later.len(),
{
    let so_far = transaction_operations(events, txid, cache);
    if later.len() == 0 {
        assert(events + later == events);
        assert(so_far.take(so_far.len() as int) == so_far);
    } else {
        lemma_later_events_only_add(events, later.drop_last(), txid, cache);
        assert((events + later).drop_last() == events + later.drop_last());
        assert((events + later).last() == later.last());
        let before = transaction_operations(events + later.drop_last(), txid, cache);
        let all = transaction_operations(events + later, txid, cache);
        assert(all.take(before.len() as int) == before);
        assert(all.take(so_far.len() as int) == before.take(so_far.len() as int));
    }
}

/// Whether an event belongs to the transaction `txid`.
pub open spec fn of_transaction(txid: Seq<char>) -> spec_fn(NewEvent) -> bool {
    |e: NewEvent| e.txid@ == txid
}

/// The events of other transactions count for nothing: the operations of a
/// transaction are those of its own events, in their order.
pub proof fn lemma_only_own_events_count(
    events: Seq<NewEvent>,
    txid: Seq<char>,
    cache: Map<Seq<char>, AssetClassCache>,
)
    ensures
        transaction_operations(events, txid, cache) == transaction_operations(
            events.filter(of_transaction(txid)),
            txid,
            cache,
        ),
    decreases events.len(),
{
    reveal(Seq::filter);
    if events.len() > 0 {
        lemma_only_own_events_count(events.drop_last(), txid, cache);
        let own = events.filter(of_transaction(txid));
        let own_before = events.drop_last().filter(of_transaction(txid));
        if events.last().txid@ == txid {
            assert(own == own_before.push(events.last()));
            assert(own.drop_last() == own_before);
            assert(own.last() == events.last());
        } else {
            assert(own == own_before);
        }
    }
}

/// Where exactly one event of a block belongs to a transaction, the
/// operations of the transaction are those of that event, numbered from
/// zero, wherever the event stands among the others.
pub proof fn lemma_one_event_gives_its_operations(
    events: Seq<NewEvent>,
    event: NewEvent,
    cache: Map<Seq<char>, AssetClassCache>,
)
    requires
        events.filter(of_transaction(event.txid@)) == seq![event],
    ensures
        transaction_operations(events, event.txid@, cache) == effect_operations(
            payload_effect(event.payload(), cache),
            0,
        ),
{
    lemma_only_own_events_count(events, event.txid@, cache);
    let own = seq![event];
    assert(own.drop_last() == Seq::<NewEvent>::empty());
    assert(own.last() == event);
    assert(transaction_operations(own.drop_last(), event.txid@, cache) == Seq::<
        OperationView,
    >::empty());
    assert(transaction_operations(own, event.txid@, cache) == Seq::<OperationView>::empty()
        + effect_operations(payload_effect(event.payload(), cache), 0));
}

/// Where the one event of a transaction is a transfer, the transaction has
/// two operations and no more: the debit of the sender at index 0 and the
/// credit of the recipient at index 1, each naming the other. This holds of
/// every transfer whose amount is a number and whose currency is known.
pub proof fn lemma_one_transfer_gives_debit_then_credit(
    events: Seq<NewEvent>,
    event: NewEvent,
    cache: Map<Seq<char>, AssetClassCache>,
)
    requires
        events.filter(of_transaction(event.txid@)) == seq![event],
        is_transfer(event.payload()),
        !(payload_effect(event.payload(), cache) is Nothing),
    ensures
        ({
            let operations = transaction_operations(events, event.txid@, cache);
            &&& operations.len() == 2
            &&& operations[0].operation_identifier.index == 0
            &&& operations[0].type_ == OperationType::Debit
            &&& operations[0].account.address == sender_of(event.payload())
            &&& operations[0].related_operations == Some(seq![identifier_at(1)])
            &&& operations[1].operation_identifier.index == 1
            &&& operations[1].type_ == OperationType::Credit
            &&& operations[1].account.address == recipient_of(event.payload())
            &&& operations[1].related_operations == Some(seq![identifier_at(0)])
        }),
{
    lemma_one_event_gives_its_operations(events, event, cache);
}

/// Where the one event of a transaction is a mint, a burn or a lock, the
/// transaction has one operation and no more, at index 0 and with no
/// related operation. This holds of every such event whose amount is a
/// number and whose currency is known.
pub proof fn lemma_one_mint_burn_lock_gives_one_operation(
    events: Seq<NewEvent>,
    event: NewEvent,
    cache: Map<Seq<char>, AssetClassCache>,
)
    requires
        events.filter(of_transaction(event.txid@)) == seq![event],
        is_mint_burn_or_lock(event.payload()),
        !(payload_effect(event.payload(), cache) is Nothing),
    ensures
        ({
            let operations = transaction_operations(events, event.txid@, cache);
            &&& operations.len() == 1
            &&& operations[0].operation_identifier.index == 0
            &&& operations[0].related_operations is None
        }),
{
    lemma_one_event_gives_its_operations(events, event, cache);
}

/// Whether the event belongs to the transaction `txid` and is counted in a
/// fungible asset class that the cache does not hold.
pub open spec fn is_unresolved(
    event: NewEvent,
    txid: Seq<char>,
    cache: Map<Seq<char>, AssetClassCache>,
) -> bool {
    let needed = asset_class_needed(event.payload());
    event.txid@ == txid && needed is Some && !cache.contains_key(needed->0)
}

/// No asset class is left to resolve exactly where no event is unresolved.
pub proof fn lemma_resolved_means_each_resolved(
    events: Seq<NewEvent>,
    txid: Seq<char>,
    cache: Map<Seq<char>, AssetClassCache>,
)
    ensures
        first_unresolved(events, txid, cache) is None <==> forall|i: int|
            0 <= i < events.len() ==> !is_unresolved(#[trigger] events[i], txid, cache),
    decreases events.len(),
{
    if events.len() > 0 {
        let rest = events.drop_first();
        lemma_resolved_means_each_resolved(rest, txid, cache);
        if first_unresolved(events, txid, cache) is None {
            assert forall|i: int| 0 <= i < events.len() implies !is_unresolved(
                #[trigger] events[i],
                txid,
                cache,
            ) by {
                if i > 0 {
                    assert(events[i] == rest[i - 1]);
                }
            }
        } else if !is_unresolved(events.first(), txid, cache) {
            let i = choose|i: int| 0 <= i < rest.len() && is_unresolved(#[trigger] rest[i], txid, cache);
            assert(events[i + 1] == rest[i]);
        }
    }
}

/// Taking the events of one transaction away leaves nothing to resolve for
/// another that had nothing to resolve before.
pub proof fn lemma_resolved_stays_resolved(
    events: Seq<NewEvent>,
    taken: Seq<char>,
    txid: Seq<char>,
    cache: Map<Seq<char>, AssetClassCache>,
)
    requires
        first_unresolved(events, txid, cache) is None,
    ensures
        first_unresolved(events_of_others(events, taken), txid, cache) is None,
{
    let left = events_of_others(events, taken);
    lemma_resolved_means_each_resolved(events, txid, cache);
    lemma_resolved_means_each_resolved(left, txid, cache);
    assert forall|i: int| 0 <= i < left.len() implies !is_unresolved(#[trigger] left[i], txid, cache) by {
        assert(left.contains(left[i]));
        events.lemma_filter_contains_rev(of_another(taken), left[i]);
        let k = choose|k: int| 0 <= k < events.len() && events[k] == left[i];
        assert(!is_unresolved(events[k], txid, cache));
    }
}

} // verus!
