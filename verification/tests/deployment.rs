use devnet_observer::integrate::deployment::{
    contracts_to_deploy_in_block, find_deployer, node_url, TX_CHAINING_LIMIT,
};
use devnet_observer::integrate::events_observer::{
    accounts_by_label, EventObserverConfig, PendingContract, PoxInfo, Session, SessionAccount,
};
use devnet_observer::types::{AccountConfig, DevnetConfig};

fn contract(n: usize) -> PendingContract {
    PendingContract {
        code: format!("(define-constant n u{})", n),
        name: Some(format!("contract-{}", n)),
        path: format!("contracts/contract-{}.clar", n),
        deployer: None,
    }
}

fn account(name: &str, address: &str) -> SessionAccount {
    SessionAccount { address: address.to_string(), balance: 1000, name: name.to_string() }
}

fn session(contracts: usize) -> Session {
    Session {
        initial_contracts: (0..contracts).map(contract).collect(),
        initial_accounts: vec![account("deployer", "ST1"), account("wallet_1", "ST2")],
    }
}

fn config(contracts: usize) -> EventObserverConfig {
    EventObserverConfig::new(
        DevnetConfig { orchestrator_port: 20445, stacks_node_rpc_port: 20443, pox_stacking_orders: vec![] },
        "Clarinet.toml".to_string(),
        accounts_by_label(vec![]),
        session(contracts),
    )
}

#[test]
fn chunk_size_follows_the_integer_division() {
    assert_eq!(TX_CHAINING_LIMIT, 25);
    assert_eq!(contracts_to_deploy_in_block(0), 0);
    assert_eq!(contracts_to_deploy_in_block(1), 1);
    assert_eq!(contracts_to_deploy_in_block(10), 10);
    assert_eq!(contracts_to_deploy_in_block(24), 24);
    assert_eq!(contracts_to_deploy_in_block(25), 12);
    assert_eq!(contracts_to_deploy_in_block(26), 13);
    assert_eq!(contracts_to_deploy_in_block(49), 24);
    assert_eq!(contracts_to_deploy_in_block(50), 16);
    assert_eq!(contracts_to_deploy_in_block(60), 20);
    assert_eq!(contracts_to_deploy_in_block(1000), 24);
}

#[test]
fn chunk_size_stays_under_the_chaining_limit() {
    for n in 0..5000usize {
        let chunk = contracts_to_deploy_in_block(n);
        assert!(chunk <= n);
        assert!(chunk < TX_CHAINING_LIMIT);
        assert!(n == 0 || chunk >= 1);
    }
}

#[test]
fn sixty_contracts_leave_in_three_blocks_of_twenty() {
    let mut config = config(60);
    assert_eq!(config.deployer_nonce, 0);
    for block in 0..3u64 {
        let chunk = config.take_deployment_chunk().unwrap();
        assert_eq!(chunk.contracts.len(), 20);
        assert_eq!(chunk.deployer_nonce, block * 20);
        assert_eq!(chunk.contracts[0], contract(block as usize * 20));
        assert_eq!(chunk.contracts[19], contract(block as usize * 20 + 19));
        assert_eq!(config.deployer_nonce, (block + 1) * 20);
        assert_eq!(config.contracts_to_deploy.len() as u64, 60 - (block + 1) * 20);
    }
    assert!(config.take_deployment_chunk().is_none());
    assert_eq!(config.deployer_nonce, 60);
}

#[test]
fn ten_contracts_leave_in_one_block() {
    let mut config = config(10);
    let chunk = config.take_deployment_chunk().unwrap();
    assert_eq!(chunk.contracts, (0..10).map(contract).collect::<Vec<_>>());
    assert_eq!(chunk.deployer_nonce, 0);
    assert_eq!(config.deployer_nonce, 10);
    assert!(config.contracts_to_deploy.is_empty());
    assert!(config.take_deployment_chunk().is_none());
    assert_eq!(config.deployer_nonce, 10);
}

#[test]
fn twenty_five_contracts_leave_a_remainder_for_the_last_block() {
    let mut config = config(25);
    let mut sizes = vec![];
    while let Some(chunk) = config.take_deployment_chunk() {
        sizes.push(chunk.contracts.len());
    }
    assert_eq!(sizes, vec![12, 13]);
    assert_eq!(config.deployer_nonce, 25);
}

#[test]
fn chunk_names_the_deployer_and_the_node() {
    let mut config = config(3);
    let chunk = config.take_deployment_chunk().unwrap();
    assert_eq!(chunk.deployer, Some(account("deployer", "ST1")));
    assert_eq!(chunk.node_url, "http://localhost:20443");
    assert_eq!(node_url(0), "http://localhost:0");
    assert_eq!(node_url(65535), "http://localhost:65535");
}

#[test]
fn the_last_account_named_deployer_deploys() {
    assert_eq!(find_deployer(&vec![]), None);
    assert_eq!(find_deployer(&vec![account("wallet_1", "ST2")]), None);
    assert_eq!(
        find_deployer(&vec![
            account("deployer", "ST1"),
            account("wallet_1", "ST2"),
            account("deployer", "ST3"),
            account("wallet_2", "ST4"),
        ]),
        Some(account("deployer", "ST3"))
    );
}

#[test]
fn new_state_queues_every_contract_of_the_session() {
    let config = config(4);
    assert_eq!(config.contracts_to_deploy.len(), 4);
    assert_eq!(config.contracts_to_deploy[0], contract(0));
    assert_eq!(config.contracts_to_deploy[3], contract(3));
    assert_eq!(config.deployer_nonce, 0);
    assert_eq!(config.manifest_path, "Clarinet.toml");
    assert_eq!(config.pox_info, PoxInfo::default());
    assert_eq!(config.session, session(4));
}

#[test]
fn accounts_are_filed_by_label() {
    let account = |label: &str, address: &str| AccountConfig {
        label: label.to_string(),
        mnemonic: "m".to_string(),
        derivation: "d".to_string(),
        balance: 1,
        address: address.to_string(),
        is_mainnet: false,
    };
    let accounts = accounts_by_label(vec![
        account("wallet_1", "ST1"),
        account("wallet_2", "ST2"),
        account("wallet_1", "ST3"),
    ]);
    assert_eq!(accounts.len(), 2);
    assert_eq!(accounts.get("wallet_1").unwrap().address, "ST3");
    assert_eq!(accounts.get("wallet_2").unwrap().address, "ST2");
    assert!(accounts.get("wallet_3").is_none());
}

#[test]
fn chunk_is_broadcast_in_order_until_one_is_refused() {
    let mut config = config(3);
    let chunk = config.take_deployment_chunk().unwrap();
    assert_eq!(chunk.next_submission(0, true), Some((0, 0)));
    assert_eq!(chunk.next_submission(1, true), Some((1, 1)));
    assert_eq!(chunk.next_submission(2, true), Some((2, 2)));
    assert_eq!(chunk.next_submission(3, true), None);
    assert_eq!(chunk.next_submission(1, false), None);
    assert_eq!(chunk.next_submission(0, false), None);

    let chunk = devnet_observer::integrate::deployment::DeploymentChunk {
        contracts: vec![contract(0), contract(1)],
        deployer: None,
        deployer_nonce: u64::MAX,
        node_url: String::new(),
    };
    assert_eq!(chunk.next_submission(0, true), Some((0, u64::MAX)));
    assert_eq!(chunk.next_submission(1, true), None);
}
