//! The transactions of an anchored block, each with its operations.
//!
//! The node lists the events of a block apart from its transactions. The
//! transactions are taken in their order; each takes its events out of the
//! list, so an event counts for one transaction only.

use vstd::prelude::*;
use vstd::string::*;
use vstd::hash_map::StringHashMap;
use crate::integrate::describe::{
    get_tx_description,
    get_value_description,
    tx_description,
    value_description,
};
use crate::integrate::events_observer::{AssetClassCache, NewEvent, NewTransaction};
use crate::integrate::operations::{
    events_of_others,
    find_unresolved,
    first_unresolved,
    get_standardized_stacks_operations,
    lemma_resolved_stays_resolved,
    transaction_operations,
    Standardized,
};
use crate::types::{
    option_text,
    transactions_view,
    StacksTransactionData,
    StacksTransactionDataView,
    StacksTransactionMetadata,
    StacksTransactionMetadataView,
    TransactionIdentifier,
};

verus! {

/// The status that the node gives a transaction that succeeded.
pub open spec fn success_status() -> Seq<char> {
    "success"@
}

/// A transaction as it is published, given the events that are left for it.
pub open spec fn transaction_data(
    transaction: NewTransaction,
    events: Seq<NewEvent>,
    cache: Map<Seq<char>, AssetClassCache>,
) -> StacksTransactionDataView {
    StacksTransactionDataView {
        transaction_identifier: transaction.txid@,
        operations: transaction_operations(events, transaction.txid@, cache),
        metadata: StacksTransactionMetadataView {
            success: transaction.status@ == success_status(),
            result: value_description(transaction.raw_result@),
            events: Seq::empty(),
            description: tx_description(transaction.raw_tx@),
        },
    }
}

/// The transactions of a block as they are published.
pub open spec fn block_transactions(
    transactions: Seq<NewTransaction>,
    events: Seq<NewEvent>,
    cache: Map<Seq<char>, AssetClassCache>,
) -> Seq<StacksTransactionDataView>
    decreases transactions.len(),
{
    if transactions.len() == 0 {
        Seq::empty()
    } else {
        seq![transaction_data(transactions.first(), events, cache)] + block_transactions(
            transactions.drop_first(),
            events_of_others(events, transactions.first().txid@),
            cache,
        )
    }
}

/// The events that belong to none of the transactions, in their order.
pub open spec fn events_left(transactions: Seq<NewTransaction>, events: Seq<NewEvent>) -> Seq<
    NewEvent,
>
    decreases transactions.len(),
{
    if transactions.len() == 0 {
        events
    } else {
        events_left(
            transactions.drop_first(),
            events_of_others(events, transactions.first().txid@),
        )
    }
}

/// The fungible asset class that has to be resolved before the block can be
/// published: that of the first transaction, in their order, which has an
/// event counted in a class that the cache does not hold.
pub open spec fn block_unresolved(
    transactions: Seq<NewTransaction>,
    events: Seq<NewEvent>,
    cache: Map<Seq<char>, AssetClassCache>,
) -> Option<Seq<char>>
    decreases transactions.len(),
{
    if transactions.len() == 0 {
        None
    } else {
        match first_unresolved(events, transactions.first().txid@, cache) {
            Some(class) => Some(class),
            None => block_unresolved(transactions.drop_first(), events, cache),
        }
    }
}

/// Where a block has nothing to resolve, none of its transactions has.
pub proof fn lemma_block_resolved(
    transactions: Seq<NewTransaction>,
    events: Seq<NewEvent>,
    cache: Map<Seq<char>, AssetClassCache>,
)
    requires
        block_unresolved(transactions, events, cache) is None,
    ensures
        forall|j: int|
            0 <= j < transactions.len() ==> first_unresolved(
                events,
                (#[trigger] transactions[j]).txid@,
                cache,
            ) is None,
    decreases transactions.len(),
{
    if transactions.len() > 0 {
        let rest = transactions.drop_first();
        lemma_block_resolved(rest, events, cache);
        assert forall|j: int| 0 <= j < transactions.len() implies first_unresolved(
            events,
            (#[trigger] transactions[j]).txid@,
            cache,
        ) is None by {
            if j > 0 {
                assert(transactions[j] == rest[j - 1]);
            }
        }
    }
}

/// Looks for the asset class that has to be resolved before the block can
/// be published.
pub fn find_block_unresolved(
    transactions: &Vec<NewTransaction>,
    events: &Vec<NewEvent>,
    asset_class_cache: &StringHashMap<AssetClassCache>,
) -> (r: Option<String>)
    ensures
        option_text(r) == block_unresolved(transactions@, events@, asset_class_cache@),
{
    let mut i: usize = 0;
    assert(transactions@.skip(0) == transactions@);
    while i < transactions.len()
        invariant
            i <= transactions.len(),
            block_unresolved(transactions@, events@, asset_class_cache@) == block_unresolved(
                transactions@.skip(i as int),
                events@,
                asset_class_cache@,
            ),
        decreases transactions.len() - i,
    {
        proof {
            assert(transactions@.skip(i as int).first() == transactions@[i as int]);
            assert(transactions@.skip(i as int).drop_first() == transactions@.skip(i + 1));
        }
        if let Some(class) = find_unresolved(events, &transactions[i].txid, asset_class_cache) {
            return Some(class);
        }
        i += 1;
    }
    None
}

/// Publishes one transaction: its operations, which take its events out of
/// the list, and the descriptions of its result and of itself.
pub fn standardize_transaction(
    transaction: &NewTransaction,
    events: &mut Vec<NewEvent>,
    asset_class_cache: &StringHashMap<AssetClassCache>,
) -> (r: StacksTransactionData)
    requires
        2 * old(events)@.len() <= u32::MAX,
        first_unresolved(old(events)@, transaction.txid@, asset_class_cache@) is None,
    ensures
        r@ == transaction_data(*transaction, old(events)@, asset_class_cache@),
        final(events)@ == events_of_others(old(events)@, transaction.txid@),
{
    let description = get_tx_description(transaction.raw_tx.as_str());
    let operations = match get_standardized_stacks_operations(
        transaction,
        events,
        asset_class_cache,
    ) {
        Standardized::Operations(operations) => operations,
        Standardized::UnresolvedAssetClass(_) => {
            assert(false);
            Vec::new()
        },
    };
    let success = transaction.status == String::from_str("success");
    let events_of_transaction: Vec<String> = Vec::new();
    let data = StacksTransactionData {
        transaction_identifier: TransactionIdentifier { hash: transaction.txid.clone() },
        operations,
        metadata: StacksTransactionMetadata {
            success,
            result: get_value_description(transaction.raw_result.as_str()),
            events: events_of_transaction,
            description,
        },
    };
    proof {
        assert(data.metadata@.events == Seq::<Seq<char>>::empty());
        assert(data@.metadata == transaction_data(
            *transaction,
            old(events)@,
            asset_class_cache@,
        ).metadata);
    }
    data
}

/// Publishes the transactions of a block in their order. Their events leave
/// the list; those of no transaction stay.
pub fn standardize_block(
    transactions: &Vec<NewTransaction>,
    events: &mut Vec<NewEvent>,
    asset_class_cache: &StringHashMap<AssetClassCache>,
) -> (r: Vec<StacksTransactionData>)
    requires
        2 * old(events)@.len() <= u32::MAX,
        block_unresolved(transactions@, old(events)@, asset_class_cache@) is None,
    ensures
        transactions_view(r@) == block_transactions(
            transactions@,
            old(events)@,
            asset_class_cache@,
        ),
        final(events)@ == events_left(transactions@, old(events)@),
{
    let ghost all = events@;
    let ghost cache = asset_class_cache@;
    let mut published: Vec<StacksTransactionData> = Vec::new();
    let mut i: usize = 0;
    proof {
        lemma_block_resolved(transactions@, all, cache);
        assert(transactions@.skip(0) == transactions@);
        assert(transactions_view(published@) == Seq::<StacksTransactionDataView>::empty());
    }
    while i < transactions.len()
        invariant
            i <= transactions.len(),
            cache == asset_class_cache@,
            events@.len() <= all.len(),
            2 * all.len() <= u32::MAX,
            transactions_view(published@) + block_transactions(
                transactions@.skip(i as int),
                events@,
                cache,
            ) == block_transactions(transactions@, all, cache),
            events_left(transactions@.skip(i as int), events@) == events_left(transactions@, all),
            forall|j: int|
                i <= j < transactions.len() ==> first_unresolved(
                    events@,
                    (#[trigger] transactions@[j]).txid@,
                    cache,
                ) is None,
        decreases transactions.len() - i,
    {
        let ghost before = events@;
        let ghost done = published@;
        let transaction = &transactions[i];
        let data = standardize_transaction(transaction, events, asset_class_cache);
        published.push(data);
        proof {
            let rest = transactions@.skip(i as int);
            assert(rest.first() == transactions@[i as int]);
            assert(rest.drop_first() == transactions@.skip(i + 1));
            before.lemma_filter_len(crate::integrate::operations::of_another(transaction.txid@));
            assert(transactions_view(published@) == transactions_view(done).push(data@));
            assert(transactions_view(published@) + block_transactions(
                transactions@.skip(i + 1),
                events@,
                cache,
            ) == transactions_view(done) + block_transactions(rest, before, cache));
            assert forall|j: int| i + 1 <= j < transactions.len() implies first_unresolved(
                events@,
                (#[trigger] transactions@[j]).txid@,
                cache,
            ) is None by {
                lemma_resolved_stays_resolved(
                    before,
                    transaction.txid@,
                    transactions@[j].txid@,
                    cache,
                );
            }
        }
        i += 1;
    }
    proof {
        assert(transactions@.skip(i as int) == Seq::<NewTransaction>::empty());
    }
    published
}

} // verus!
