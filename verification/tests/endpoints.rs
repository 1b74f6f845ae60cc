use devnet_observer::integrate::blocks::{find_block_unresolved, standardize_block};
use devnet_observer::integrate::currency::{new_asset_class_cache, remember_asset_class};
use devnet_observer::integrate::endpoints::{
    acknowledge, handle_drop_mempool_tx, handle_new_block, handle_new_burn_block,
    handle_new_mempool_tx, handle_new_microblocks, Acknowledgement, NewBlockOutcome,
    NewBlockReport, StackingTrigger,
};
use devnet_observer::integrate::events_observer::{
    accounts_by_label, EventObserverConfig, FTTransferEventData, NewBlock, NewBurnBlock, NewEvent,
    NewMicroBlock, NewTransaction, PendingContract, STXMintEventData, Session,
};
use devnet_observer::integrate::{
    DevnetEvent, MempoolAdmissionData, ServiceStatusData, Status,
};
use devnet_observer::types::{
    BitcoinBlockData, BitcoinBlockMetadata, BlockIdentifier, CurrencyStandard, DevnetConfig,
    OperationType, StacksBlockData,
};

const TOKEN: &str = "ST000000000000000000002AMW42H.token::gold";

fn ok() -> Acknowledgement {
    Acknowledgement { status: 200, result: "Ok".to_string() }
}

fn transaction(txid: &str, status: &str) -> NewTransaction {
    NewTransaction {
        txid: txid.to_string(),
        status: status.to_string(),
        raw_result: "0x03".to_string(),
        raw_tx: "not-hex".to_string(),
    }
}

fn event(txid: &str) -> NewEvent {
    NewEvent {
        txid: txid.to_string(),
        committed: true,
        event_index: 0,
        event_type: String::new(),
        stx_transfer_event: None,
        stx_mint_event: None,
        stx_burn_event: None,
        stx_lock_event: None,
        nft_transfer_event: None,
        nft_mint_event: None,
        nft_burn_event: None,
        ft_transfer_event: None,
        ft_mint_event: None,
        ft_burn_event: None,
    }
}

fn ft_transfer(txid: &str) -> NewEvent {
    let mut e = event(txid);
    e.event_type = "ft_transfer_event".to_string();
    e.ft_transfer_event = Some(FTTransferEventData {
        asset_class_identifier: TOKEN.to_string(),
        sender: "alice".to_string(),
        recipient: "bob".to_string(),
        amount: "5".to_string(),
    });
    e
}

fn stx_mint(txid: &str) -> NewEvent {
    let mut e = event(txid);
    e.stx_mint_event =
        Some(STXMintEventData { recipient: "alice".to_string(), amount: "1".to_string() });
    e
}

fn block(burn_block_height: u64, transactions: Vec<NewTransaction>, events: Vec<NewEvent>) -> NewBlock {
    NewBlock {
        block_height: 7,
        block_hash: "0xb".to_string(),
        burn_block_height,
        burn_block_hash: "0xbb".to_string(),
        parent_block_hash: "0xp".to_string(),
        index_block_hash: "0xi".to_string(),
        parent_index_block_hash: "0xpi".to_string(),
        transactions,
        events,
    }
}

fn config(contracts: usize) -> EventObserverConfig {
    let contract = |n: usize| PendingContract {
        code: String::new(),
        name: Some(format!("c{}", n)),
        path: String::new(),
        deployer: None,
    };
    EventObserverConfig::new(
        DevnetConfig { orchestrator_port: 1, stacks_node_rpc_port: 20443, pox_stacking_orders: vec![] },
        "Clarinet.toml".to_string(),
        accounts_by_label(vec![]),
        Session { initial_contracts: (0..contracts).map(contract).collect(), initial_accounts: vec![] },
    )
}

fn handled(outcome: NewBlockOutcome) -> NewBlockReport {
    match outcome {
        NewBlockOutcome::Handled(report) => report,
        NewBlockOutcome::UnresolvedAssetClass(class) => panic!("unresolved {}", class),
    }
}

fn stacks_block(report: &NewBlockReport) -> StacksBlockData {
    match &report.events[2] {
        DevnetEvent::StacksBlock(block) => block.clone(),
        other => panic!("no block but {:?}", other),
    }
}

#[test]
fn node_is_always_acknowledged() {
    assert_eq!(acknowledge(), ok());
}

#[test]
fn burn_block_publishes_status_and_block() {
    let (events, response) = handle_new_burn_block(&NewBurnBlock {
        burn_block_hash: "0xabc".to_string(),
        burn_block_height: 107,
        reward_slot_holders: vec![],
        burn_amount: 0,
    });
    assert_eq!(response, ok());
    assert_eq!(
        events,
        vec![
            DevnetEvent::ServiceStatus(ServiceStatusData {
                order: 0,
                status: Status::Green,
                name: "bitcoin-node".to_string(),
                comment: "mining blocks (chaintip = #107)".to_string(),
            }),
            DevnetEvent::BitcoinBlock(BitcoinBlockData {
                block_identifier: BlockIdentifier { index: 107, hash: "0xabc".to_string() },
                parent_block_identifier: BlockIdentifier { index: 106, hash: String::new() },
                timestamp: 0,
                transactions: vec![],
                metadata: BitcoinBlockMetadata {},
            }),
        ]
    );
}

#[test]
fn microblocks_tell_the_number_of_their_transactions() {
    let (events, response) = handle_new_microblocks(&NewMicroBlock {
        transactions: vec![transaction("A", "success"), transaction("B", "success")],
    });
    assert_eq!(response, ok());
    assert_eq!(
        events,
        vec![DevnetEvent::Info("Microblock received including 2 transactions".to_string())]
    );
}

#[test]
fn mempool_admissions_are_published_one_by_one() {
    let (events, response) =
        handle_new_mempool_tx(&vec!["not-hex".to_string(), "0xzz".to_string()]);
    assert_eq!(response, ok());
    assert_eq!(
        events,
        vec![
            DevnetEvent::MempoolAdmission(MempoolAdmissionData { tx: "not-hex".to_string() }),
            DevnetEvent::MempoolAdmission(MempoolAdmissionData { tx: "0xzz".to_string() }),
        ]
    );
    assert_eq!(handle_new_mempool_tx(&vec![]).0, vec![]);
}

#[test]
fn dropped_transactions_publish_nothing() {
    let (events, response) = handle_drop_mempool_tx();
    assert!(events.is_empty());
    assert_eq!(response, ok());
}

#[test]
fn new_block_publishes_status_note_and_block() {
    let mut config = config(0);
    let cache = new_asset_class_cache();
    let mut new_block = block(107, vec![transaction("T", "success")], vec![stx_mint("T")]);
    let report = handled(handle_new_block(&mut config, &cache, &mut new_block));
    assert_eq!(report.response, ok());
    assert_eq!(report.events.len(), 3);
    assert_eq!(
        report.events[0],
        DevnetEvent::ServiceStatus(ServiceStatusData {
            order: 1,
            status: Status::Green,
            name: "stacks-node".to_string(),
            comment: "mining blocks (chaintip = #7)".to_string(),
        })
    );
    assert_eq!(
        report.events[1],
        DevnetEvent::Info("Block #7 anchored in Bitcoin block #107 includes 1 transactions".to_string())
    );
    let published = stacks_block(&report);
    assert_eq!(published.block_identifier, BlockIdentifier { index: 7, hash: "0xi".to_string() });
    assert_eq!(published.parent_block_identifier, BlockIdentifier { index: 7, hash: "0xpi".to_string() });
    assert_eq!(published.timestamp, 0);
    assert_eq!(
        published.metadata.bitcoin_anchor_block_identifier,
        BlockIdentifier { index: 107, hash: "0xbb".to_string() }
    );
    assert_eq!(
        published.metadata.bitcoin_genesis_block_identifier,
        BlockIdentifier { index: 100, hash: String::new() }
    );
    assert_eq!(published.metadata.pox_cycle_index, 1);
    assert_eq!(published.metadata.pox_cycle_length, 5);
    assert_eq!(published.transactions.len(), 1);
    let published_tx = &published.transactions[0];
    assert_eq!(published_tx.transaction_identifier.hash, "T");
    assert!(published_tx.metadata.success);
    assert_eq!(published_tx.metadata.result, "true");
    assert_eq!(published_tx.metadata.description, "not-hex");
    assert!(published_tx.metadata.events.is_empty());
    assert_eq!(published_tx.operations.len(), 1);
    assert!(report.deployment.is_none());
    assert!(report.stacking.is_none());
    assert!(new_block.events.is_empty());
}

#[test]
fn fungible_transfer_is_published_end_to_end() {
    let mut config = config(0);
    let mut cache = new_asset_class_cache();
    let mut new_block = block(107, vec![transaction("T", "success")], vec![ft_transfer("T")]);
    let class = match handle_new_block(&mut config, &cache, &mut new_block) {
        NewBlockOutcome::UnresolvedAssetClass(class) => class,
        NewBlockOutcome::Handled(_) => panic!("the class is not resolved"),
    };
    assert_eq!(class, TOKEN);
    assert_eq!(new_block.events.len(), 1);
    remember_asset_class(
        &class,
        &mut cache,
        "0x070100000000000000000000000000000007",
        "0x070100000000000000000000000000000002",
    )
    .unwrap();
    let report = handled(handle_new_block(&mut config, &cache, &mut new_block));
    let published = stacks_block(&report);
    assert_eq!(published.transactions.len(), 1);
    let operations = &published.transactions[0].operations;
    assert_eq!(operations.len(), 2);
    assert_eq!(operations[0].type_, OperationType::Debit);
    assert_eq!(operations[0].account.address, "alice");
    assert_eq!(operations[1].type_, OperationType::Credit);
    assert_eq!(operations[1].account.address, "bob");
    for operation in operations.iter() {
        let amount = operation.amount.as_ref().unwrap();
        assert_eq!(amount.value, 5);
        assert_eq!(amount.currency.symbol, "7");
        assert_eq!(amount.currency.decimals, 2);
        let metadata = amount.currency.metadata.as_ref().unwrap();
        assert_eq!(metadata.asset_class_identifier, TOKEN);
        assert_eq!(metadata.standard, CurrencyStandard::Sip10);
        assert_eq!(metadata.standard.tag(), "fungible-token");
    }
}

#[test]
fn failed_transaction_is_published_as_failed() {
    let mut config = config(0);
    let cache = new_asset_class_cache();
    let mut new_block = block(107, vec![transaction("T", "abort_by_response")], vec![]);
    let report = handled(handle_new_block(&mut config, &cache, &mut new_block));
    assert!(!stacks_block(&report).transactions[0].metadata.success);
}

#[test]
fn new_block_releases_a_chunk_of_contracts() {
    let mut config = config(60);
    let cache = new_asset_class_cache();
    for round in 0..3u64 {
        let mut new_block = block(107, vec![], vec![]);
        let report = handled(handle_new_block(&mut config, &cache, &mut new_block));
        let chunk = report.deployment.unwrap();
        assert_eq!(chunk.contracts.len(), 20);
        assert_eq!(chunk.deployer_nonce, round * 20);
        assert_eq!(config.deployer_nonce, (round + 1) * 20);
    }
    let mut new_block = block(107, vec![], vec![]);
    let report = handled(handle_new_block(&mut config, &cache, &mut new_block));
    assert!(report.deployment.is_none());
    assert_eq!(config.deployer_nonce, 60);
}

#[test]
fn unresolved_block_releases_nothing() {
    let mut config = config(10);
    let cache = new_asset_class_cache();
    let mut new_block = block(107, vec![transaction("T", "success")], vec![ft_transfer("T")]);
    assert!(matches!(
        handle_new_block(&mut config, &cache, &mut new_block),
        NewBlockOutcome::UnresolvedAssetClass(_)
    ));
    assert_eq!(config.deployer_nonce, 0);
    assert_eq!(config.contracts_to_deploy.len(), 10);
}

#[test]
fn stacking_sign_is_given_at_the_last_block_but_one() {
    let cache = new_asset_class_cache();
    for (height, expected) in [
        (102u64, None),
        (103, Some(StackingTrigger { pox_cycle_id: 0, burn_block_height: 103 })),
        (104, None),
        (108, Some(StackingTrigger { pox_cycle_id: 1, burn_block_height: 108 })),
    ] {
        let mut config = config(0);
        let mut new_block = block(height, vec![], vec![]);
        let report = handled(handle_new_block(&mut config, &cache, &mut new_block));
        assert_eq!(report.stacking, expected);
    }
}

#[test]
fn each_event_counts_for_one_transaction() {
    let cache = new_asset_class_cache();
    let transactions = vec![transaction("A", "success"), transaction("B", "success"), transaction("A", "success")];
    let mut events = vec![stx_mint("B"), stx_mint("A"), stx_mint("C"), stx_mint("A")];
    assert_eq!(find_block_unresolved(&transactions, &events, &cache), None);
    let published = standardize_block(&transactions, &mut events, &cache);
    let counts: Vec<usize> = published.iter().map(|t| t.operations.len()).collect();
    assert_eq!(counts, vec![2, 1, 0]);
    assert_eq!(events.len(), 1);
    assert_eq!(events[0].txid, "C");
}

#[test]
fn block_tells_the_first_unresolved_class_in_transaction_order() {
    let cache = new_asset_class_cache();
    let mut other = ft_transfer("B");
    other.ft_transfer_event.as_mut().unwrap().asset_class_identifier = "ST1.other::silver".to_string();
    let events = vec![ft_transfer("A"), other];
    let transactions = vec![transaction("B", "success"), transaction("A", "success")];
    assert_eq!(
        find_block_unresolved(&transactions, &events, &cache),
        Some("ST1.other::silver".to_string())
    );
    assert_eq!(find_block_unresolved(&vec![transaction("C", "success")], &events, &cache), None);
}

#[test]
fn burn_block_at_height_zero_is_acknowledged_with_a_failure() {
    let (events, response) = handle_new_burn_block(&NewBurnBlock {
        burn_block_hash: "0xabc".to_string(),
        burn_block_height: 0,
        reward_slot_holders: vec![],
        burn_amount: 0,
    });
    assert_eq!(response, ok());
    assert_eq!(
        events,
        vec![
            DevnetEvent::ServiceStatus(ServiceStatusData {
                order: 0,
                status: Status::Green,
                name: "bitcoin-node".to_string(),
                comment: "mining blocks (chaintip = #0)".to_string(),
            }),
            DevnetEvent::Error("Bitcoin block #0 has no parent".to_string()),
        ]
    );
}

#[test]
fn burn_block_at_height_one_names_its_parent_at_zero() {
    let (events, response) = handle_new_burn_block(&NewBurnBlock {
        burn_block_hash: "0x1".to_string(),
        burn_block_height: 1,
        reward_slot_holders: vec![],
        burn_amount: 0,
    });
    assert_eq!(response, ok());
    match &events[1] {
        DevnetEvent::BitcoinBlock(block) => assert_eq!(block.parent_block_identifier.index, 0),
        other => panic!("no block but {:?}", other),
    }
}

#[test]
fn block_below_the_first_height_is_acknowledged_with_a_failure() {
    let mut config = config(10);
    let cache = new_asset_class_cache();
    let events = vec![ft_transfer("T"), stx_mint("T")];
    let mut new_block = block(99, vec![transaction("T", "success")], events.clone());
    let report = handled(handle_new_block(&mut config, &cache, &mut new_block));
    assert_eq!(report.response, ok());
    assert_eq!(report.stacking, None);
    assert_eq!(
        report.events,
        vec![
            DevnetEvent::ServiceStatus(ServiceStatusData {
                order: 1,
                status: Status::Green,
                name: "stacks-node".to_string(),
                comment: "mining blocks (chaintip = #7)".to_string(),
            }),
            DevnetEvent::Info(
                "Block #7 anchored in Bitcoin block #99 includes 1 transactions".to_string()
            ),
            DevnetEvent::Error(
                "Unable to tell the reward cycle of Bitcoin block #99".to_string()
            ),
        ]
    );
    // The contracts of the block leave all the same, and its events stay.
    let chunk = report.deployment.unwrap();
    assert_eq!(chunk.contracts.len(), 10);
    assert_eq!(chunk.deployer_nonce, 0);
    assert_eq!(config.deployer_nonce, 10);
    assert!(config.contracts_to_deploy.is_empty());
    assert_eq!(new_block.events, events);
}

#[test]
fn block_without_a_cycle_length_is_acknowledged_with_a_failure() {
    let mut config = config(0);
    config.pox_info.prepare_phase_block_length = 0;
    config.pox_info.reward_phase_block_length = 0;
    let cache = new_asset_class_cache();
    let mut new_block = block(103, vec![], vec![]);
    let report = handled(handle_new_block(&mut config, &cache, &mut new_block));
    assert_eq!(report.response, ok());
    assert_eq!(report.stacking, None);
    assert_eq!(report.events.len(), 3);
    assert_eq!(
        report.events[2],
        DevnetEvent::Error("Unable to tell the reward cycle of Bitcoin block #103".to_string())
    );
}

#[test]
fn block_beyond_the_cycles_that_can_be_counted_is_acknowledged_with_a_failure() {
    let mut config = config(0);
    config.pox_info.first_burnchain_block_height = 0;
    config.pox_info.prepare_phase_block_length = 1;
    config.pox_info.reward_phase_block_length = 0;
    let cache = new_asset_class_cache();
    let mut new_block = block(1 << 32, vec![], vec![]);
    let report = handled(handle_new_block(&mut config, &cache, &mut new_block));
    assert_eq!(report.response, ok());
    assert_eq!(
        report.events[2],
        DevnetEvent::Error(
            "Unable to tell the reward cycle of Bitcoin block #4294967296".to_string()
        )
    );
    let mut new_block = block((1 << 32) - 1, vec![], vec![]);
    let report = handled(handle_new_block(&mut config, &cache, &mut new_block));
    assert_eq!(stacks_block(&report).metadata.pox_cycle_index, u32::MAX);
}

#[test]
fn exhausted_nonce_releases_nothing_and_is_published() {
    let mut config = config(10);
    config.deployer_nonce = u64::MAX - 9;
    let cache = new_asset_class_cache();
    let mut new_block = block(107, vec![], vec![]);
    let report = handled(handle_new_block(&mut config, &cache, &mut new_block));
    assert_eq!(report.response, ok());
    assert!(report.deployment.is_none());
    assert_eq!(config.deployer_nonce, u64::MAX - 9);
    assert_eq!(config.contracts_to_deploy.len(), 10);
    assert_eq!(report.events.len(), 4);
    assert!(matches!(report.events[2], DevnetEvent::StacksBlock(_)));
    assert_eq!(
        report.events[3],
        DevnetEvent::Error(
            "Unable to release contracts: the deployer has no nonce left".to_string()
        )
    );
}

#[test]
fn last_nonces_are_still_handed_out() {
    let mut config = config(10);
    config.deployer_nonce = u64::MAX - 10;
    let cache = new_asset_class_cache();
    let mut new_block = block(107, vec![], vec![]);
    let report = handled(handle_new_block(&mut config, &cache, &mut new_block));
    assert_eq!(report.deployment.unwrap().deployer_nonce, u64::MAX - 10);
    assert_eq!(config.deployer_nonce, u64::MAX);
    assert_eq!(report.events.len(), 3);
}
