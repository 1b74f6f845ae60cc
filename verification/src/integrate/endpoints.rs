//! What each notification of the node leads to: the domain events to
//! publish, the work to hand to the background, and the answer to the node.
//!
//! The node is always answered with the same acknowledgement, whatever came
//! of the notification: it learns nothing of failures.

use vstd::prelude::*;
use vstd::string::*;
use vstd::hash_map::StringHashMap;
use crate::integrate::{
    events_view,
    DevnetEvent,
    DevnetEventView,
    MempoolAdmissionData,
    ServiceStatusData,
    ServiceStatusDataView,
    Status,
};
use crate::integrate::blocks::{
    block_transactions,
    transaction_data,
    block_unresolved,
    events_left,
    find_block_unresolved,
    standardize_block,
};
use crate::integrate::deployment::{is_block_release, DeploymentChunk};
use crate::integrate::currency::fungible_currency;
use crate::integrate::describe::{get_tx_description, tx_description};
use crate::integrate::events_observer::{
    AssetClassCache,
    EventObserverConfig,
    EventPayload,
    NewBlock,
    NewBurnBlock,
    NewEvent,
    NewMicroBlock,
    PoxInfo,
};
use crate::integrate::operations::{
    events_of_others,
    first_unresolved,
    identifier_at,
    operation_at,
    transaction_operations,
};
use crate::text::{decimal_text, parsed_u64, u64_to_string};
use crate::types::{
    option_text,
    BitcoinBlockData,
    BitcoinBlockDataView,
    BitcoinBlockMetadata,
    BitcoinTransactionData,
    BlockIdentifier,
    BlockIdentifierView,
    OperationType,
    OperationView,
    StacksBlockData,
    StacksBlockDataView,
    StacksBlockMetadata,
    StacksBlockMetadataView,
    StacksTransactionDataView,
};

verus! {

/// The answer that the node gets to a notification.
#[derive(Clone, Debug, PartialEq, Eq)]
pub struct Acknowledgement {
    pub status: u16,
    pub result: String,
}

/// The one answer that the node ever gets.
pub fn acknowledge() -> (r: Acknowledgement)
    ensures
        r.status == 200,
        r.result@ == "Ok"@,
{
    Acknowledgement { status: 200, result: String::from_str("Ok") }
}

/// What is said of a chain whose tip is at `height`.
pub open spec fn chaintip_comment(height: u64) -> Seq<char> {
    "mining blocks (chaintip = #"@ + decimal_text(height as nat) + ")"@
}

fn chaintip(height: u64) -> (r: String)
    ensures
        r@ == chaintip_comment(height),
{
    let mut s = String::from_str("mining blocks (chaintip = #");
    s.append(u64_to_string(height).as_str());
    s.append(")");
    s
}

/// The status of a service that mines blocks, with its tip at `height`.
pub open spec fn mining_status(order: u8, name: Seq<char>, height: u64) -> DevnetEventView {
    DevnetEventView::ServiceStatus(
        ServiceStatusDataView {
            order,
            status: Status::Green,
            name,
            comment: chaintip_comment(height),
        },
    )
}

/// The block of the settlement chain that a notification announces. The
/// node tells neither the hash of its parent nor its time nor its
/// transactions.
pub open spec fn bitcoin_block(new_burn_block: NewBurnBlock) -> BitcoinBlockDataView {
    BitcoinBlockDataView {
        block_identifier: BlockIdentifierView {
            index: new_burn_block.burn_block_height,
            hash: new_burn_block.burn_block_hash@,
        },
        parent_block_identifier: BlockIdentifierView {
            index: (new_burn_block.burn_block_height - 1) as u64,
            hash: Seq::empty(),
        },
        timestamp: 0,
        transactions: Seq::empty(),
    }
}

/// The events that a new block of the settlement chain leads to, where it
/// has a parent.
pub open spec fn burn_block_events(new_burn_block: NewBurnBlock) -> Seq<DevnetEventView> {
    seq![
        mining_status(0, "bitcoin-node"@, new_burn_block.burn_block_height),
        DevnetEventView::BitcoinBlock(bitcoin_block(new_burn_block)),
    ]
}

/// What is said of a block at height zero, which has no parent to name.
pub open spec fn parentless_block_message() -> Seq<char> {
    "Bitcoin block #0 has no parent"@
}

/// The events that a block of the settlement chain at height zero leads to:
/// the status of the node, and the failure in place of the block.
pub open spec fn parentless_burn_block_events() -> Seq<DevnetEventView> {
    seq![
        mining_status(0, "bitcoin-node"@, 0),
        DevnetEventView::Error(parentless_block_message()),
    ]
}

/// A new block of the settlement chain: the status of its node and the
/// block are published. A block at height zero has no parent whose height
/// the block could name: the failure is published in its place. The node is
/// answered alike, and the state of the observer is not touched.
pub fn handle_new_burn_block(new_burn_block: &NewBurnBlock) -> (r: (
    Vec<DevnetEvent>,
    Acknowledgement,
))
    ensures
        r.1.status == 200,
        r.1.result@ == "Ok"@,
        new_burn_block.burn_block_height >= 1 ==> events_view(r.0@) == burn_block_events(
            *new_burn_block,
        ),
        new_burn_block.burn_block_height == 0 ==> events_view(r.0@)
            == parentless_burn_block_events(),
{
    let status = DevnetEvent::ServiceStatus(
        ServiceStatusData {
            order: 0,
            status: Status::Green,
            name: String::from_str("bitcoin-node"),
            comment: chaintip(new_burn_block.burn_block_height),
        },
    );
    let mut events: Vec<DevnetEvent> = Vec::new();
    events.push(status);
    if new_burn_block.burn_block_height == 0 {
        events.push(DevnetEvent::error(String::from_str("Bitcoin block #0 has no parent")));
        assert(events_view(events@) == parentless_burn_block_events());
        return (events, acknowledge());
    }
    let transactions: Vec<BitcoinTransactionData> = Vec::new();
    let block = BitcoinBlockData {
        block_identifier: BlockIdentifier {
            hash: new_burn_block.burn_block_hash.clone(),
            index: new_burn_block.burn_block_height,
        },
        parent_block_identifier: BlockIdentifier {
            hash: String::new(),
            index: new_burn_block.burn_block_height - 1,
        },
        timestamp: 0,
        metadata: BitcoinBlockMetadata {  },
        transactions,
    };
    assert(block@.transactions == Seq::<Seq<char>>::empty());
    assert(block@ == bitcoin_block(*new_burn_block));
    events.push(DevnetEvent::BitcoinBlock(block));
    assert(events_view(events@) == burn_block_events(*new_burn_block));
    (events, acknowledge())
}

/// What is said of a batch of `count` transactions.
pub open spec fn microblock_message(count: nat) -> Seq<char> {
    "Microblock received including "@ + decimal_text(count) + " transactions"@
}

/// A batch of transactions between two anchored blocks: the number of its
/// transactions is told. Their operations are not worked out.
pub fn handle_new_microblocks(new_microblock: &NewMicroBlock) -> (r: (
    Vec<DevnetEvent>,
    Acknowledgement,
))
    ensures
        events_view(r.0@) == seq![
            DevnetEventView::Info(microblock_message(new_microblock.transactions@.len())),
        ],
        r.1.status == 200,
        r.1.result@ == "Ok"@,
{
    let mut message = String::from_str("Microblock received including ");
    message.append(u64_to_string(new_microblock.transactions.len() as u64).as_str());
    message.append(" transactions");
    let mut events: Vec<DevnetEvent> = Vec::new();
    events.push(DevnetEvent::info(message));
    assert(events_view(events@) == seq![
        DevnetEventView::Info(microblock_message(new_microblock.transactions@.len())),
    ]);
    (events, acknowledge())
}

/// The admissions that transactions in their wire encoding lead to: one for
/// each, with its description, in their order.
pub open spec fn mempool_admissions(raw_txs: Seq<String>) -> Seq<DevnetEventView> {
    raw_txs.map_values(|raw: String| DevnetEventView::MempoolAdmission(tx_description(raw@)))
}

/// Transactions that the node admitted to its mempool: each is described
/// and published.
pub fn handle_new_mempool_tx(raw_txs: &Vec<String>) -> (r: (Vec<DevnetEvent>, Acknowledgement))
    ensures
        events_view(r.0@) == mempool_admissions(raw_txs@),
        r.1.status == 200,
        r.1.result@ == "Ok"@,
{
    let mut events: Vec<DevnetEvent> = Vec::new();
    let mut i: usize = 0;
    while i < raw_txs.len()
        invariant
            i <= raw_txs.len(),
            events_view(events@) == mempool_admissions(raw_txs@.take(i as int)),
        decreases raw_txs.len() - i,
    {
        let ghost before = events@;
        let tx = get_tx_description(raw_txs[i].as_str());
        let event = DevnetEvent::MempoolAdmission(MempoolAdmissionData { tx });
        events.push(event);
        proof {
            assert(raw_txs@.take(i + 1) == raw_txs@.take(i as int).push(raw_txs@[i as int]));
            assert(events_view(events@) == events_view(before).push(event@));
            assert(mempool_admissions(raw_txs@.take(i + 1)) == mempool_admissions(
                raw_txs@.take(i as int),
            ).push(DevnetEventView::MempoolAdmission(tx_description(raw_txs@[i as int]@))));
        }
        i += 1;
    }
    assert(raw_txs@.take(i as int) == raw_txs@);
    (events, acknowledge())
}

/// Transactions that the node dropped from its mempool: nothing is
/// published.
pub fn handle_drop_mempool_tx() -> (r: (Vec<DevnetEvent>, Acknowledgement))
    ensures
        r.0@.len() == 0,
        r.1.status == 200,
        r.1.result@ == "Ok"@,
{
    (Vec::new(), acknowledge())
}

/// What is said of an anchored block.
pub open spec fn block_anchored_message(block_height: u64, burn_block_height: u64, count: nat) -> Seq<
    char,
> {
    "Block #"@ + decimal_text(block_height as nat) + " anchored in Bitcoin block #"@
        + decimal_text(burn_block_height as nat) + " includes "@ + decimal_text(count)
        + " transactions"@
}

/// Whether an anchored block at `burn_block_height` has a reward cycle that
/// can be published: a cycle has a block and a length that fits 32 bits, the
/// height is not below the first block that the chain follows, and the
/// index of the cycle fits 32 bits.
pub open spec fn has_cycle(pox_info: PoxInfo, burn_block_height: u64) -> bool {
    &&& pox_info.wf()
    &&& pox_info.cycle_length() <= u32::MAX
    &&& burn_block_height >= pox_info.first_burnchain_block_height
    &&& pox_info.cycle_id(burn_block_height) <= u32::MAX
}

/// What is said of an anchored block whose reward cycle cannot be told.
pub open spec fn no_cycle_message(burn_block_height: u64) -> Seq<char> {
    "Unable to tell the reward cycle of Bitcoin block #"@ + decimal_text(burn_block_height as nat)
}

/// What is said of an anchored block with more events than operations can
/// be numbered for: an operation's index has 32 bits, and an event gives two
/// operations at most.
pub open spec fn too_many_events_message(block_height: u64) -> Seq<char> {
    "Unable to number the operations of block #"@ + decimal_text(block_height as nat)
}

/// What is said where the deployer has no nonce left for the contracts of a
/// block.
pub open spec fn no_nonce_message() -> Seq<char> {
    "Unable to release contracts: the deployer has no nonce left"@
}

/// What keeps an anchored block from being published, if anything does.
pub open spec fn publishing_fault(new_block: NewBlock, pox_info: PoxInfo) -> Option<Seq<char>> {
    if !has_cycle(pox_info, new_block.burn_block_height) {
        Some(no_cycle_message(new_block.burn_block_height))
    } else if 2 * new_block.events@.len() > u32::MAX {
        Some(too_many_events_message(new_block.block_height))
    } else {
        None
    }
}

/// The asset class to resolve before the block can be handled, if there is
/// one: a block that cannot be published asks for none.
pub open spec fn pending_asset_class(
    new_block: NewBlock,
    pox_info: PoxInfo,
    cache: Map<Seq<char>, AssetClassCache>,
) -> Option<Seq<char>> {
    if publishing_fault(new_block, pox_info) is Some {
        None
    } else {
        block_unresolved(new_block.transactions@, new_block.events@, cache)
    }
}

/// The anchored block that a notification announces, given the parameters
/// of the reward cycles.
pub open spec fn stacks_block(
    new_block: NewBlock,
    pox_info: PoxInfo,
    cache: Map<Seq<char>, AssetClassCache>,
) -> StacksBlockDataView {
    StacksBlockDataView {
        block_identifier: BlockIdentifierView {
            index: new_block.block_height,
            hash: new_block.index_block_hash@,
        },
        parent_block_identifier: BlockIdentifierView {
            index: new_block.block_height,
            hash: new_block.parent_index_block_hash@,
        },
        timestamp: 0,
        transactions: block_transactions(new_block.transactions@, new_block.events@, cache),
        metadata: StacksBlockMetadataView {
            bitcoin_anchor_block_identifier: BlockIdentifierView {
                index: new_block.burn_block_height,
                hash: new_block.burn_block_hash@,
            },
            bitcoin_genesis_block_identifier: BlockIdentifierView {
                index: pox_info.first_burnchain_block_height,
                hash: Seq::empty(),
            },
            pox_cycle_index: pox_info.cycle_id(new_block.burn_block_height) as u32,
            pox_cycle_length: pox_info.cycle_length() as u32,
        },
    }
}

/// The events that a new anchored block leads to: the status of the node, a
/// note on the block, and the block itself or else what keeps it from being
/// published. A further failure follows where the deployer had no nonce left
/// for the contracts of the block.
pub open spec fn new_block_events(
    new_block: NewBlock,
    config: EventObserverConfig,
    cache: Map<Seq<char>, AssetClassCache>,
) -> Seq<DevnetEventView> {
    seq![
        mining_status(1, "stacks-node"@, new_block.block_height),
        DevnetEventView::Info(
            block_anchored_message(
                new_block.block_height,
                new_block.burn_block_height,
                new_block.transactions@.len(),
            ),
        ),
        match publishing_fault(new_block, config.pox_info) {
            Some(fault) => DevnetEventView::Error(fault),
            None => DevnetEventView::StacksBlock(stacks_block(new_block, config.pox_info, cache)),
        },
    ] + (if config.has_nonces_left() {
        Seq::empty()
    } else {
        seq![DevnetEventView::Error(no_nonce_message())]
    })
}

/// The sign that stacking orders are due.
#[derive(Clone, Copy, Debug, PartialEq, Eq, Structural)]
pub struct StackingTrigger {
    /// The cycle of the block that gave the sign.
    pub pox_cycle_id: u32,
    /// The height of that block on the settlement chain.
    pub burn_block_height: u64,
}

/// The sign that an anchored block gives: stacking orders are due at the
/// last block but one of a cycle. A block that is not published gives none.
pub open spec fn stacking_trigger(new_block: NewBlock, pox_info: PoxInfo) -> Option<
    StackingTrigger,
> {
    if publishing_fault(new_block, pox_info) is None && pox_info.is_penultimate_block(
        new_block.burn_block_height,
    ) {
        Some(
            StackingTrigger {
                pox_cycle_id: pox_info.cycle_id(new_block.burn_block_height) as u32,
                burn_block_height: new_block.burn_block_height,
            },
        )
    } else {
        None
    }
}

/// The events that a handled block leaves in its notification: those of no
/// transaction, where the block is published, and else all of them.
pub open spec fn block_events_left(new_block: NewBlock, pox_info: PoxInfo) -> Seq<NewEvent> {
    if publishing_fault(new_block, pox_info) is None {
        events_left(new_block.transactions@, new_block.events@)
    } else {
        new_block.events@
    }
}

/// What a handled anchored block leads to.
#[derive(Clone, Debug, PartialEq, Eq)]
pub struct NewBlockReport {
    /// The events to publish, in their order.
    pub events: Vec<DevnetEvent>,
    /// The contracts to broadcast in the background, if any was released.
    pub deployment: Option<DeploymentChunk>,
    /// The sign that stacking orders are due, if the block gives it.
    pub stacking: Option<StackingTrigger>,
    /// The answer to the node.
    pub response: Acknowledgement,
}

/// What comes of the notification of an anchored block.
#[derive(Clone, Debug, PartialEq, Eq)]
pub enum NewBlockOutcome {
    /// The asset class to resolve first; nothing has been done.
    UnresolvedAssetClass(String),
    /// The block has been handled.
    Handled(NewBlockReport),
}

impl NewBlockOutcome {
    /// The answer to the node, once the block has been handled: always the
    /// same.
    pub open spec fn acknowledged(self) -> bool {
        self matches NewBlockOutcome::Handled(report) ==> report.response.status == 200
            && report.response.result@ == "Ok"@
    }
}

/// A new anchored block: any block, in any state of the observer.
///
/// Where an event of one of its transactions is counted in a fungible asset
/// class that the cache does not hold, the class is handed back and nothing
/// is changed; the caller resolves it and calls again. Otherwise the
/// contracts of one block are released, the status of the node, a note on
/// the block and the block with the operations of its transactions are
/// published, and the sign for stacking orders is given where they are due.
/// The events of the transactions leave the notification.
///
/// A block whose reward cycle cannot be told, or with more events than
/// operations can be numbered for, is not published: the failure is
/// published in its place, no asset class is asked for, its events stay and
/// no stacking order is due; contracts are released all the same. Where the
/// deployer has no nonce left for the contracts of the block, none is
/// released and that failure is published too. The node is answered alike.
pub fn handle_new_block(
    config: &mut EventObserverConfig,
    asset_class_cache: &StringHashMap<AssetClassCache>,
    new_block: &mut NewBlock,
) -> (r: NewBlockOutcome)
    ensures
        r.acknowledged(),
        match pending_asset_class(*old(new_block), old(config).pox_info, asset_class_cache@) {
            Some(class) => {
                &&& r matches NewBlockOutcome::UnresolvedAssetClass(found)
                &&& found@ == class
                &&& *final(config) == *old(config)
                &&& *final(new_block) == *old(new_block)
            },
            None => {
                &&& r matches NewBlockOutcome::Handled(report)
                &&& events_view(report.events@) == new_block_events(
                    *old(new_block),
                    *old(config),
                    asset_class_cache@,
                )
                &&& is_block_release(*old(config), *final(config), report.deployment)
                &&& report.stacking == stacking_trigger(*old(new_block), old(config).pox_info)
                &&& final(new_block).events@ == block_events_left(
                    *old(new_block),
                    old(config).pox_info,
                )
                &&& *final(new_block) == (NewBlock {
                    events: final(new_block).events,
                    ..*old(new_block)
                })
            },
        },
{
    let ghost announced = *new_block;
    let ghost before = *config;
    let cycle = config.pox_info.pox_cycle_id(new_block.burn_block_height);
    let pox_cycle_length = config.pox_info.pox_cycle_length();
    let fault = match cycle {
        Some(_) if pox_cycle_length <= u32::MAX as u64 => {
            if new_block.events.len() > (u32::MAX / 2) as usize {
                let mut message = String::from_str("Unable to number the operations of block #");
                message.append(u64_to_string(new_block.block_height).as_str());
                Some(message)
            } else {
                None
            }
        },
        _ => {
            let mut message = String::from_str(
                "Unable to tell the reward cycle of Bitcoin block #",
            );
            message.append(u64_to_string(new_block.burn_block_height).as_str());
            Some(message)
        },
    };
    assert(option_text(fault) == publishing_fault(announced, before.pox_info));
    if fault.is_none() {
        if let Some(class) = find_block_unresolved(
            &new_block.transactions,
            &new_block.events,
            asset_class_cache,
        ) {
            return NewBlockOutcome::UnresolvedAssetClass(class);
        }
    }
    let status = DevnetEvent::ServiceStatus(
        ServiceStatusData {
            order: 1,
            status: Status::Green,
            name: String::from_str("stacks-node"),
            comment: chaintip(new_block.block_height),
        },
    );
    let mut message = String::from_str("Block #");
    message.append(u64_to_string(new_block.block_height).as_str());
    message.append(" anchored in Bitcoin block #");
    message.append(u64_to_string(new_block.burn_block_height).as_str());
    message.append(" includes ");
    message.append(u64_to_string(new_block.transactions.len() as u64).as_str());
    message.append(" transactions");
    let mut events: Vec<DevnetEvent> = Vec::new();
    events.push(status);
    events.push(DevnetEvent::info(message));

    let (deployment, released) = config.release_for_block();
    let mut stacking: Option<StackingTrigger> = None;
    match (fault, cycle) {
        (None, Some(pox_cycle_id)) => {
            if config.pox_info.is_stacking_block(new_block.burn_block_height) {
                stacking = Some(
                    StackingTrigger { pox_cycle_id, burn_block_height: new_block.burn_block_height },
                );
            }
            let transactions = standardize_block(
                &new_block.transactions,
                &mut new_block.events,
                asset_class_cache,
            );
            let block = StacksBlockData {
                block_identifier: BlockIdentifier {
                    hash: new_block.index_block_hash.clone(),
                    index: new_block.block_height,
                },
                parent_block_identifier: BlockIdentifier {
                    hash: new_block.parent_index_block_hash.clone(),
                    index: new_block.block_height,
                },
                timestamp: 0,
                metadata: StacksBlockMetadata {
                    bitcoin_anchor_block_identifier: BlockIdentifier {
                        hash: new_block.burn_block_hash.clone(),
                        index: new_block.burn_block_height,
                    },
                    bitcoin_genesis_block_identifier: BlockIdentifier {
                        hash: String::new(),
                        index: config.pox_info.first_burnchain_block_height,
                    },
                    pox_cycle_index: pox_cycle_id,
                    pox_cycle_length: pox_cycle_length as u32,
                },
                transactions,
            };
            assert(block@ == stacks_block(announced, before.pox_info, asset_class_cache@));
            events.push(DevnetEvent::StacksBlock(block));
        },
        (Some(message), _) => {
            events.push(DevnetEvent::error(message));
        },
        (None, None) => {},
    }
    if !released {
        events.push(
            DevnetEvent::error(
                String::from_str("Unable to release contracts: the deployer has no nonce left"),
            ),
        );
    }
    assert(events_view(events@) == new_block_events(announced, before, asset_class_cache@));
    NewBlockOutcome::Handled(
        NewBlockReport { events, deployment, stacking, response: acknowledge() },
    )
}

/// A block whose reward cycle can be told is published with it: the index
/// of the cycle is the number of whole cycles between the first block that
/// the chain follows and the block that anchors this one. It carries the
/// length of a cycle, the first block and the anchor as well.
pub proof fn lemma_block_carries_its_cycle(
    new_block: NewBlock,
    pox_info: PoxInfo,
    cache: Map<Seq<char>, AssetClassCache>,
)
    requires
        has_cycle(pox_info, new_block.burn_block_height),
    ensures
        ({
            let metadata = stacks_block(new_block, pox_info, cache).metadata;
            &&& metadata.pox_cycle_index == (new_block.burn_block_height
                - pox_info.first_burnchain_block_height) / (pox_info.prepare_phase_block_length
                + pox_info.reward_phase_block_length)
            &&& metadata.pox_cycle_length == pox_info.prepare_phase_block_length
                + pox_info.reward_phase_block_length
            &&& metadata.bitcoin_genesis_block_identifier.index
                == pox_info.first_burnchain_block_height
            &&& metadata.bitcoin_anchor_block_identifier == (BlockIdentifierView {
                index: new_block.burn_block_height,
                hash: new_block.burn_block_hash@,
            })
        }),
{
}

/// A block of one transaction whose one event is a transfer in a fungible
/// asset class that the cache holds asks for no asset class, and is
/// published with that one transaction: the sender is debited at index 0 and
/// the recipient credited at index 1, each naming the other, by the amount
/// of the event in the currency of the class.
pub proof fn lemma_fungible_transfer_is_published(
    new_block: NewBlock,
    pox_info: PoxInfo,
    cache: Map<Seq<char>, AssetClassCache>,
)
    requires
        new_block.transactions@.len() == 1,
        new_block.events@.len() == 1,
        new_block.events@[0].txid@ == new_block.transactions@[0].txid@,
        new_block.events@[0].payload() is FtTransfer,
        cache.contains_key(new_block.events@[0].payload()->FtTransfer_0.asset_class_identifier@),
        parsed_u64(new_block.events@[0].payload()->FtTransfer_0.amount@) is Some,
    ensures
        block_unresolved(new_block.transactions@, new_block.events@, cache) is None,
        ({
            let transfer = new_block.events@[0].payload()->FtTransfer_0;
            let amount = parsed_u64(transfer.amount@)->0;
            let class = transfer.asset_class_identifier@;
            let currency = fungible_currency(class, cache[class]);
            let published = stacks_block(new_block, pox_info, cache).transactions;
            &&& published.len() == 1
            &&& published[0].transaction_identifier == new_block.transactions@[0].txid@
            &&& published[0].operations == seq![
                operation_at(
                    0,
                    Some(seq![identifier_at(1)]),
                    OperationType::Debit,
                    transfer.sender@,
                    amount,
                    currency,
                ),
                operation_at(
                    1,
                    Some(seq![identifier_at(0)]),
                    OperationType::Credit,
                    transfer.recipient@,
                    amount,
                    currency,
                ),
            ]
        }),
{
    let transactions = new_block.transactions@;
    let events = new_block.events@;
    let txid = transactions[0].txid@;
    assert(transactions.drop_first().len() == 0);
    assert(events.drop_first().len() == 0);
    assert(events.drop_last().len() == 0);
    assert(first_unresolved(events.drop_first(), txid, cache) is None);
    assert(first_unresolved(events, txid, cache) is None);
    assert(block_unresolved(transactions.drop_first(), events, cache) is None);
    assert(transaction_operations(events.drop_last(), txid, cache) == Seq::<OperationView>::empty());
    let published = block_transactions(transactions, events, cache);
    assert(block_transactions(transactions.drop_first(), events_of_others(events, txid), cache)
        == Seq::<StacksTransactionDataView>::empty());
    assert(published == seq![transaction_data(transactions[0], events, cache)]);
}

} // verus!
