use devnet_observer::integrate::currency::{new_asset_class_cache, remember_asset_class};
use devnet_observer::integrate::events_observer::{
    AssetClassCache, FTBurnEventData, FTMintEventData, FTTransferEventData, NFTBurnEventData,
    NFTMintEventData, NFTTransferEventData, NewEvent, NewTransaction, STXBurnEventData,
    STXLockEventData, STXMintEventData, STXTransferEventData,
};
use devnet_observer::integrate::operations::{
    asset_class_of, find_unresolved, get_standardized_stacks_operations, Standardized,
};
use devnet_observer::types::{
    AccountIdentifier, Amount, Currency, CurrencyMetadata, CurrencyStandard, Operation,
    OperationIdentifier, OperationStatusKind, OperationType,
};

const TOKEN: &str = "ST000000000000000000002AMW42H.token::gold";

fn transaction(txid: &str) -> NewTransaction {
    NewTransaction {
        txid: txid.to_string(),
        status: "success".to_string(),
        raw_result: "0x03".to_string(),
        raw_tx: "0x00".to_string(),
    }
}

fn event(txid: &str) -> NewEvent {
    NewEvent {
        txid: txid.to_string(),
        committed: true,
        event_index: 0,
        event_type: String::new(),
        stx_transfer_event: None,
        stx_mint_event: None,
        stx_burn_event: None,
        stx_lock_event: None,
        nft_transfer_event: None,
        nft_mint_event: None,
        nft_burn_event: None,
        ft_transfer_event: None,
        ft_mint_event: None,
        ft_burn_event: None,
    }
}

fn stx_transfer(txid: &str, sender: &str, recipient: &str, amount: &str) -> NewEvent {
    let mut e = event(txid);
    e.stx_transfer_event = Some(STXTransferEventData {
        sender: sender.to_string(),
        recipient: recipient.to_string(),
        amount: amount.to_string(),
    });
    e
}

fn stx_mint(txid: &str, recipient: &str, amount: &str) -> NewEvent {
    let mut e = event(txid);
    e.stx_mint_event =
        Some(STXMintEventData { recipient: recipient.to_string(), amount: amount.to_string() });
    e
}

fn stx_burn(txid: &str, sender: &str, amount: &str) -> NewEvent {
    let mut e = event(txid);
    e.stx_burn_event =
        Some(STXBurnEventData { sender: sender.to_string(), amount: amount.to_string() });
    e
}

fn stx_lock(txid: &str, address: &str, amount: &str) -> NewEvent {
    let mut e = event(txid);
    e.stx_lock_event = Some(STXLockEventData {
        locked_amount: amount.to_string(),
        unlock_height: 10,
        locked_address: address.to_string(),
    });
    e
}

fn ft_transfer(txid: &str, class: &str, sender: &str, recipient: &str, amount: &str) -> NewEvent {
    let mut e = event(txid);
    e.ft_transfer_event = Some(FTTransferEventData {
        asset_class_identifier: class.to_string(),
        sender: sender.to_string(),
        recipient: recipient.to_string(),
        amount: amount.to_string(),
    });
    e
}

fn stx() -> Currency {
    Currency { symbol: "STX".to_string(), decimals: 6, metadata: None }
}

fn operation(
    index: u32,
    related: Option<u32>,
    kind: OperationType,
    address: &str,
    value: u64,
    currency: Currency,
) -> Operation {
    Operation {
        operation_identifier: OperationIdentifier { index, network_index: None },
        related_operations: related
            .map(|other| vec![OperationIdentifier { index: other, network_index: None }]),
        type_: kind,
        status: Some(OperationStatusKind::Success),
        account: AccountIdentifier { address: address.to_string(), sub_account: None },
        amount: Some(Amount { value, currency }),
        metadata: None,
    }
}

fn operations_of(outcome: Standardized) -> Vec<Operation> {
    match outcome {
        Standardized::Operations(operations) => operations,
        Standardized::UnresolvedAssetClass(class) => panic!("unresolved {}", class),
    }
}

fn gold() -> Currency {
    Currency {
        symbol: "7".to_string(),
        decimals: 2,
        metadata: Some(CurrencyMetadata {
            asset_class_identifier: TOKEN.to_string(),
            asset_identifier: None,
            standard: CurrencyStandard::Sip10,
        }),
    }
}

#[test]
fn stx_transfer_gives_debit_then_credit() {
    let cache = new_asset_class_cache();
    let mut events = vec![stx_transfer("T", "alice", "bob", "25")];
    let operations =
        operations_of(get_standardized_stacks_operations(&transaction("T"), &mut events, &cache));
    assert_eq!(
        operations,
        vec![
            operation(0, Some(1), OperationType::Debit, "alice", 25, stx()),
            operation(1, Some(0), OperationType::Credit, "bob", 25, stx()),
        ]
    );
    assert!(events.is_empty());
}

#[test]
fn mint_burn_and_lock_give_one_operation_each() {
    let cache = new_asset_class_cache();
    let mut events =
        vec![stx_mint("T", "alice", "1"), stx_burn("T", "bob", "2"), stx_lock("T", "carol", "3")];
    let operations =
        operations_of(get_standardized_stacks_operations(&transaction("T"), &mut events, &cache));
    assert_eq!(
        operations,
        vec![
            operation(0, None, OperationType::Credit, "alice", 1, stx()),
            operation(1, None, OperationType::Debit, "bob", 2, stx()),
            operation(2, None, OperationType::Lock, "carol", 3, stx()),
        ]
    );
}

#[test]
fn non_fungible_tokens_count_as_one() {
    let cache = new_asset_class_cache();
    let class = "ST000000000000000000002AMW42H.art::piece";
    let currency = Currency {
        symbol: class.to_string(),
        decimals: 0,
        metadata: Some(CurrencyMetadata {
            asset_class_identifier: class.to_string(),
            asset_identifier: Some("u5".to_string()),
            standard: CurrencyStandard::Sip09,
        }),
    };
    let mut mint = event("T");
    mint.nft_mint_event = Some(NFTMintEventData {
        asset_class_identifier: class.to_string(),
        asset_identifier: "u5".to_string(),
        recipient: "alice".to_string(),
    });
    let mut transfer = event("T");
    transfer.nft_transfer_event = Some(NFTTransferEventData {
        asset_class_identifier: class.to_string(),
        asset_identifier: "u5".to_string(),
        sender: "alice".to_string(),
        recipient: "bob".to_string(),
    });
    let mut burn = event("T");
    burn.nft_burn_event = Some(NFTBurnEventData {
        asset_class_identifier: class.to_string(),
        asset_identifier: "u5".to_string(),
        sender: "bob".to_string(),
    });
    let mut events = vec![mint, transfer, burn];
    let operations =
        operations_of(get_standardized_stacks_operations(&transaction("T"), &mut events, &cache));
    assert_eq!(
        operations,
        vec![
            operation(0, None, OperationType::Credit, "alice", 1, currency.clone()),
            operation(1, Some(2), OperationType::Debit, "alice", 1, currency.clone()),
            operation(2, Some(1), OperationType::Credit, "bob", 1, currency.clone()),
            operation(3, None, OperationType::Debit, "bob", 1, currency),
        ]
    );
}

#[test]
fn indices_have_no_gap_after_skipped_events() {
    let cache = new_asset_class_cache();
    let mut events = vec![
        event("T"),
        stx_mint("T", "alice", "1"),
        event("T"),
        stx_mint("T", "alice", "not a number"),
        stx_transfer("T", "alice", "bob", "2"),
        event("T"),
        stx_burn("T", "bob", "3"),
    ];
    let operations =
        operations_of(get_standardized_stacks_operations(&transaction("T"), &mut events, &cache));
    let indices: Vec<u32> = operations.iter().map(|o| o.operation_identifier.index).collect();
    assert_eq!(indices, vec![0, 1, 2, 3]);
    assert_eq!(operations[1].related_operations, Some(vec![OperationIdentifier { index: 2, network_index: None }]));
    assert_eq!(operations[2].related_operations, Some(vec![OperationIdentifier { index: 1, network_index: None }]));
    assert!(events.is_empty());
}

#[test]
fn events_of_other_transactions_stay_in_their_order() {
    let cache = new_asset_class_cache();
    let mut events = vec![
        stx_mint("A", "a1", "1"),
        stx_mint("T", "t1", "2"),
        stx_mint("B", "b1", "3"),
        stx_mint("T", "t2", "4"),
        stx_mint("A", "a2", "5"),
    ];
    let operations =
        operations_of(get_standardized_stacks_operations(&transaction("T"), &mut events, &cache));
    assert_eq!(operations.len(), 2);
    assert_eq!(operations[0].account.address, "t1");
    assert_eq!(operations[1].account.address, "t2");
    let left: Vec<String> = events.iter().map(|e| e.txid.clone()).collect();
    assert_eq!(left, vec!["A", "B", "A"]);
    assert_eq!(events[2].stx_mint_event.as_ref().unwrap().recipient, "a2");
}

#[test]
fn transaction_without_events_has_no_operations() {
    let cache = new_asset_class_cache();
    let mut events = vec![stx_mint("A", "a1", "1")];
    let operations =
        operations_of(get_standardized_stacks_operations(&transaction("T"), &mut events, &cache));
    assert!(operations.is_empty());
    assert_eq!(events.len(), 1);
}

#[test]
fn malformed_amount_gives_no_operation() {
    let cache = new_asset_class_cache();
    for amount in ["", "-5", "1e3", "18446744073709551616"] {
        let mut events = vec![stx_transfer("T", "alice", "bob", amount)];
        let operations = operations_of(get_standardized_stacks_operations(
            &transaction("T"),
            &mut events,
            &cache,
        ));
        assert!(operations.is_empty());
        assert!(events.is_empty());
    }
}

#[test]
fn uncommitted_events_are_standardized_like_committed_ones() {
    let cache = new_asset_class_cache();
    let mut uncommitted = stx_mint("T", "alice", "1");
    uncommitted.committed = false;
    let mut events = vec![uncommitted];
    let operations =
        operations_of(get_standardized_stacks_operations(&transaction("T"), &mut events, &cache));
    assert_eq!(operations, vec![operation(0, None, OperationType::Credit, "alice", 1, stx())]);
}

#[test]
fn first_populated_payload_decides() {
    let cache = new_asset_class_cache();
    let mut both = stx_transfer("T", "alice", "bob", "2");
    both.stx_mint_event =
        Some(STXMintEventData { recipient: "carol".to_string(), amount: "9".to_string() });
    let mut events = vec![both];
    let operations =
        operations_of(get_standardized_stacks_operations(&transaction("T"), &mut events, &cache));
    assert_eq!(operations, vec![operation(0, None, OperationType::Credit, "carol", 9, stx())]);
}

#[test]
fn unresolved_asset_class_is_handed_back_and_nothing_changes() {
    let cache = new_asset_class_cache();
    let mut events =
        vec![stx_mint("T", "alice", "1"), ft_transfer("T", TOKEN, "alice", "bob", "5")];
    let before = events.clone();
    match get_standardized_stacks_operations(&transaction("T"), &mut events, &cache) {
        Standardized::UnresolvedAssetClass(class) => assert_eq!(class, TOKEN),
        Standardized::Operations(_) => panic!("the class is not resolved"),
    }
    assert_eq!(events, before);
}

#[test]
fn unresolved_asset_class_of_another_transaction_is_no_matter() {
    let cache = new_asset_class_cache();
    let mut events =
        vec![stx_mint("T", "alice", "1"), ft_transfer("A", TOKEN, "alice", "bob", "5")];
    let operations =
        operations_of(get_standardized_stacks_operations(&transaction("T"), &mut events, &cache));
    assert_eq!(operations.len(), 1);
    assert_eq!(find_unresolved(&events, &"A".to_string(), &cache), Some(TOKEN.to_string()));
    assert_eq!(find_unresolved(&events, &"T".to_string(), &cache), None);
}

#[test]
fn fungible_events_use_the_cached_currency() {
    let mut cache = new_asset_class_cache();
    cache.insert(TOKEN.to_string(), AssetClassCache { symbol: "7".to_string(), decimals: 2 });
    let mut mint = event("T");
    mint.ft_mint_event = Some(FTMintEventData {
        asset_class_identifier: TOKEN.to_string(),
        recipient: "alice".to_string(),
        amount: "100".to_string(),
    });
    let mut burn = event("T");
    burn.ft_burn_event = Some(FTBurnEventData {
        asset_class_identifier: TOKEN.to_string(),
        sender: "bob".to_string(),
        amount: "1".to_string(),
    });
    let mut events = vec![mint, ft_transfer("T", TOKEN, "alice", "bob", "5"), burn];
    let operations =
        operations_of(get_standardized_stacks_operations(&transaction("T"), &mut events, &cache));
    assert_eq!(
        operations,
        vec![
            operation(0, None, OperationType::Credit, "alice", 100, gold()),
            operation(1, Some(2), OperationType::Debit, "alice", 5, gold()),
            operation(2, Some(1), OperationType::Credit, "bob", 5, gold()),
            operation(3, None, OperationType::Debit, "bob", 1, gold()),
        ]
    );
}

#[test]
fn resolving_the_class_lets_the_standardizer_go_on() {
    let mut cache = new_asset_class_cache();
    let mut events = vec![ft_transfer("T", TOKEN, "alice", "bob", "5")];
    let class = match get_standardized_stacks_operations(&transaction("T"), &mut events, &cache) {
        Standardized::UnresolvedAssetClass(class) => class,
        Standardized::Operations(_) => panic!("the class is not resolved"),
    };
    let symbol = "0x070100000000000000000000000000000007";
    let decimals = "0x070100000000000000000000000000000002";
    assert_eq!(remember_asset_class(&class, &mut cache, symbol, decimals), Ok(gold()));
    let operations =
        operations_of(get_standardized_stacks_operations(&transaction("T"), &mut events, &cache));
    assert_eq!(
        operations,
        vec![
            operation(0, Some(1), OperationType::Debit, "alice", 5, gold()),
            operation(1, Some(0), OperationType::Credit, "bob", 5, gold()),
        ]
    );
}

#[test]
fn asset_class_is_told_of_fungible_events_only() {
    assert_eq!(asset_class_of(&ft_transfer("T", TOKEN, "a", "b", "1")), Some(TOKEN.to_string()));
    assert_eq!(asset_class_of(&stx_mint("T", "a", "1")), None);
    assert_eq!(asset_class_of(&event("T")), None);
    let mut both = ft_transfer("T", TOKEN, "a", "b", "1");
    both.stx_burn_event = Some(STXBurnEventData { sender: "a".to_string(), amount: "1".to_string() });
    assert_eq!(asset_class_of(&both), None);
}

#[test]
fn one_transfer_among_events_of_others_gives_its_pair_alone() {
    let cache = new_asset_class_cache();
    let mut events = vec![
        stx_mint("U", "carol", "1"),
        stx_transfer("T", "alice", "bob", "25"),
        stx_burn("V", "dave", "2"),
    ];
    let operations =
        operations_of(get_standardized_stacks_operations(&transaction("T"), &mut events, &cache));
    assert_eq!(
        operations,
        vec![
            operation(0, Some(1), OperationType::Debit, "alice", 25, stx()),
            operation(1, Some(0), OperationType::Credit, "bob", 25, stx()),
        ]
    );
    assert_eq!(events, vec![stx_mint("U", "carol", "1"), stx_burn("V", "dave", "2")]);
}

#[test]
fn one_lock_among_events_of_others_gives_one_operation() {
    let cache = new_asset_class_cache();
    let mut events = vec![stx_mint("U", "carol", "1"), stx_lock("T", "alice", "9")];
    let operations =
        operations_of(get_standardized_stacks_operations(&transaction("T"), &mut events, &cache));
    assert_eq!(operations, vec![operation(0, None, OperationType::Lock, "alice", 9, stx())]);
}

#[test]
fn later_events_leave_the_operations_before_them_as_they_were() {
    let cache = new_asset_class_cache();
    let first = vec![stx_mint("T", "alice", "1"), stx_transfer("T", "alice", "bob", "25")];
    let mut longer = first.clone();
    longer.push(stx_burn("T", "bob", "2"));
    longer.push(stx_transfer("T", "bob", "carol", "3"));
    let mut events = first;
    let before =
        operations_of(get_standardized_stacks_operations(&transaction("T"), &mut events, &cache));
    let after =
        operations_of(get_standardized_stacks_operations(&transaction("T"), &mut longer, &cache));
    assert_eq!(before.len(), 3);
    assert_eq!(after.len(), 6);
    assert_eq!(after[..3], before[..]);
    assert_eq!(after[4], operation(4, Some(5), OperationType::Debit, "bob", 3, stx()));
    assert_eq!(after[5], operation(5, Some(4), OperationType::Credit, "carol", 3, stx()));
}
