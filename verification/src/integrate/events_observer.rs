//! The notifications that the node posts to the observer.

use vstd::prelude::*;
use vstd::string::*;
use vstd::hash_map::StringHashMap;
use std::collections::VecDeque;
use crate::types::{option_text, AccountConfig, DevnetConfig};

verus! {

/// A block of the settlement chain, as the node announces it.
#[derive(Clone, Debug, PartialEq, Eq)]
pub struct NewBurnBlock {
    pub burn_block_hash: String,
    pub burn_block_height: u64,
    pub reward_slot_holders: Vec<String>,
    pub burn_amount: u64,
}

/// An anchored block, as the node announces it. The events of all its
/// transactions come in one list.
#[derive(Clone, Debug, PartialEq, Eq)]
pub struct NewBlock {
    pub block_height: u64,
    pub block_hash: String,
    pub burn_block_height: u64,
    pub burn_block_hash: String,
    pub parent_block_hash: String,
    pub index_block_hash: String,
    pub parent_index_block_hash: String,
    pub transactions: Vec<NewTransaction>,
    pub events: Vec<NewEvent>,
}

/// A batch of transactions confirmed between two anchored blocks.
#[derive(Clone, Debug, PartialEq, Eq)]
pub struct NewMicroBlock {
    pub transactions: Vec<NewTransaction>,
}

/// A transaction of a block, still in its wire encoding.
#[derive(Clone, Debug, PartialEq, Eq)]
pub struct NewTransaction {
    pub txid: String,
    pub status: String,
    pub raw_result: String,
    pub raw_tx: String,
}

/// A ledger event of a block. `txid` names the transaction that emitted it;
/// at most one of the payloads is expected to be populated.
#[derive(Clone, Debug, PartialEq, Eq)]
pub struct NewEvent {
    pub txid: String,
    pub committed: bool,
    pub event_index: u32,
    pub event_type: String,
    pub stx_transfer_event: Option<STXTransferEventData>,
    pub stx_mint_event: Option<STXMintEventData>,
    pub stx_burn_event: Option<STXBurnEventData>,
    pub stx_lock_event: Option<STXLockEventData>,
    pub nft_transfer_event: Option<NFTTransferEventData>,
    pub nft_mint_event: Option<NFTMintEventData>,
    pub nft_burn_event: Option<NFTBurnEventData>,
    pub ft_transfer_event: Option<FTTransferEventData>,
    pub ft_mint_event: Option<FTMintEventData>,
    pub ft_burn_event: Option<FTBurnEventData>,
}

/// Native tokens went from the sender to the recipient.
#[derive(Clone, Debug, PartialEq, Eq)]
pub struct STXTransferEventData {
    pub sender: String,
    pub recipient: String,
    pub amount: String,
}

/// Native tokens were made for the recipient.
#[derive(Clone, Debug, PartialEq, Eq)]
pub struct STXMintEventData {
    pub recipient: String,
    pub amount: String,
}

/// Native tokens of an address were locked up to a height.
#[derive(Clone, Debug, PartialEq, Eq)]
pub struct STXLockEventData {
    pub locked_amount: String,
    pub unlock_height: u64,
    pub locked_address: String,
}

/// Native tokens of the sender were destroyed.
#[derive(Clone, Debug, PartialEq, Eq)]
pub struct STXBurnEventData {
    pub sender: String,
    pub amount: String,
}

/// A non-fungible token went from the sender to the recipient.
#[derive(Clone, Debug, PartialEq, Eq)]
pub struct NFTTransferEventData {
    pub asset_class_identifier: String,
    pub asset_identifier: String,
    pub sender: String,
    pub recipient: String,
}

/// A non-fungible token was made for the recipient.
#[derive(Clone, Debug, PartialEq, Eq)]
pub struct NFTMintEventData {
    pub asset_class_identifier: String,
    pub asset_identifier: String,
    pub recipient: String,
}

/// A non-fungible token of the sender was destroyed.
#[derive(Clone, Debug, PartialEq, Eq)]
pub struct NFTBurnEventData {
    pub asset_class_identifier: String,
    pub asset_identifier: String,
    pub sender: String,
}

/// Fungible tokens went from the sender to the recipient.
#[derive(Clone, Debug, PartialEq, Eq)]
pub struct FTTransferEventData {
    pub asset_class_identifier: String,
    pub sender: String,
    pub recipient: String,
    pub amount: String,
}

/// Fungible tokens were made for the recipient.
#[derive(Clone, Debug, PartialEq, Eq)]
pub struct FTMintEventData {
    pub asset_class_identifier: String,
    pub recipient: String,
    pub amount: String,
}

/// Fungible tokens of the sender were destroyed.
#[derive(Clone, Debug, PartialEq, Eq)]
pub struct FTBurnEventData {
    pub asset_class_identifier: String,
    pub sender: String,
    pub amount: String,
}

/// The payload that decides what an event stands for.
#[derive(Clone, Debug, PartialEq, Eq)]
pub enum EventPayload {
    StxMint(STXMintEventData),
    StxLock(STXLockEventData),
    StxBurn(STXBurnEventData),
    StxTransfer(STXTransferEventData),
    NftMint(NFTMintEventData),
    NftBurn(NFTBurnEventData),
    NftTransfer(NFTTransferEventData),
    FtMint(FTMintEventData),
    FtBurn(FTBurnEventData),
    FtTransfer(FTTransferEventData),
    Unrecognized,
}

impl NewEvent {
    /// The first populated payload, looked for in a fixed order: the native
    /// token's mint, lock, burn and transfer, then mint, burn and transfer of
    /// non-fungible and of fungible tokens.
    pub open spec fn payload(self) -> EventPayload {
        if let Some(d) = self.stx_mint_event {
            EventPayload::StxMint(d)
        } else if let Some(d) = self.stx_lock_event {
            EventPayload::StxLock(d)
        } else if let Some(d) = self.stx_burn_event {
            EventPayload::StxBurn(d)
        } else if let Some(d) = self.stx_transfer_event {
            EventPayload::StxTransfer(d)
        } else if let Some(d) = self.nft_mint_event {
            EventPayload::NftMint(d)
        } else if let Some(d) = self.nft_burn_event {
            EventPayload::NftBurn(d)
        } else if let Some(d) = self.nft_transfer_event {
            EventPayload::NftTransfer(d)
        } else if let Some(d) = self.ft_mint_event {
            EventPayload::FtMint(d)
        } else if let Some(d) = self.ft_burn_event {
            EventPayload::FtBurn(d)
        } else if let Some(d) = self.ft_transfer_event {
            EventPayload::FtTransfer(d)
        } else {
            EventPayload::Unrecognized
        }
    }

    /// Takes the deciding payload out of the event.
    pub fn into_payload(self) -> (r: EventPayload)
        ensures
            r == self.payload(),
    {
        if let Some(d) = self.stx_mint_event {
            EventPayload::StxMint(d)
        } else if let Some(d) = self.stx_lock_event {
            EventPayload::StxLock(d)
        } else if let Some(d) = self.stx_burn_event {
            EventPayload::StxBurn(d)
        } else if let Some(d) = self.stx_transfer_event {
            EventPayload::StxTransfer(d)
        } else if let Some(d) = self.nft_mint_event {
            EventPayload::NftMint(d)
        } else if let Some(d) = self.nft_burn_event {
            EventPayload::NftBurn(d)
        } else if let Some(d) = self.nft_transfer_event {
            EventPayload::NftTransfer(d)
        } else if let Some(d) = self.ft_mint_event {
            EventPayload::FtMint(d)
        } else if let Some(d) = self.ft_burn_event {
            EventPayload::FtBurn(d)
        } else if let Some(d) = self.ft_transfer_event {
            EventPayload::FtTransfer(d)
        } else {
            EventPayload::Unrecognized
        }
    }
}

/// What is remembered of a fungible asset class once the node has been asked.
#[derive(Clone, Debug, PartialEq, Eq)]
pub struct AssetClassCache {
    pub symbol: String,
    pub decimals: u8,
}

/// The parameters of the next reward cycle.
#[derive(Clone, Debug, PartialEq, Eq)]
pub struct PoxCycle {
    pub min_threshold_ustx: u64,
}

/// The parameters of the reward cycles, as the node reports them. A cycle is
/// a prepare phase followed by a reward phase.
#[derive(Clone, Debug, PartialEq, Eq)]
pub struct PoxInfo {
    pub contract_id: String,
    pub pox_activation_threshold_ustx: u64,
    pub first_burnchain_block_height: u64,
    pub prepare_phase_block_length: u32,
    pub reward_phase_block_length: u32,
    pub reward_slots: u32,
    pub total_liquid_supply_ustx: u64,
    pub next_cycle: PoxCycle,
}

impl PoxInfo {
    /// The number of settlement-chain blocks in one cycle.
    pub open spec fn cycle_length(self) -> nat {
        (self.prepare_phase_block_length + self.reward_phase_block_length) as nat
    }

    /// A cycle has at least one block.
    pub open spec fn wf(self) -> bool {
        self.cycle_length() > 0
    }

    /// The cycle that the settlement-chain block at `burn_block_height`
    /// belongs to, counted from the first block that the chain follows.
    pub open spec fn cycle_id(self, burn_block_height: u64) -> int {
        (burn_block_height - self.first_burnchain_block_height) / (self.cycle_length() as int)
    }

    /// Whether the block at `burn_block_height` is the last but one of its
    /// cycle, counted from height zero.
    pub open spec fn is_penultimate_block(self, burn_block_height: u64) -> bool {
        burn_block_height as int % (self.cycle_length() as int) == self.cycle_length() - 2
    }

    /// Whether these are the parameters of a network that has just
    /// started: cycles of one block to prepare and four to reward, from
    /// height 100 on, with eight slots and no threshold yet.
    pub open spec fn is_default(self) -> bool {
        &&& self.contract_id@ == "ST000000000000000000002AMW42H.pox"@
        &&& self.pox_activation_threshold_ustx == 0
        &&& self.first_burnchain_block_height == 100
        &&& self.prepare_phase_block_length == 1
        &&& self.reward_phase_block_length == 4
        &&& self.reward_slots == 8
        &&& self.total_liquid_supply_ustx == 1000000000000000
        &&& self.next_cycle.min_threshold_ustx == 0
    }

    /// The parameters of a network that has just started.
    pub fn default() -> (r: PoxInfo)
        ensures
            r.is_default(),
            r.wf(),
    {
        PoxInfo {
            contract_id: String::from_str("ST000000000000000000002AMW42H.pox"),
            pox_activation_threshold_ustx: 0,
            first_burnchain_block_height: 100,
            prepare_phase_block_length: 1,
            reward_phase_block_length: 4,
            reward_slots: 8,
            total_liquid_supply_ustx: 1000000000000000,
            next_cycle: PoxCycle { min_threshold_ustx: 0 },
        }
    }

    /// A copy of the parameters.
    pub fn duplicate(&self) -> (r: PoxInfo)
        ensures
            r.contract_id@ == self.contract_id@,
            r.pox_activation_threshold_ustx == self.pox_activation_threshold_ustx,
            r.first_burnchain_block_height == self.first_burnchain_block_height,
            r.prepare_phase_block_length == self.prepare_phase_block_length,
            r.reward_phase_block_length == self.reward_phase_block_length,
            r.reward_slots == self.reward_slots,
            r.total_liquid_supply_ustx == self.total_liquid_supply_ustx,
            r.next_cycle.min_threshold_ustx == self.next_cycle.min_threshold_ustx,
    {
        PoxInfo {
            contract_id: self.contract_id.clone(),
            pox_activation_threshold_ustx: self.pox_activation_threshold_ustx,
            first_burnchain_block_height: self.first_burnchain_block_height,
            prepare_phase_block_length: self.prepare_phase_block_length,
            reward_phase_block_length: self.reward_phase_block_length,
            reward_slots: self.reward_slots,
            total_liquid_supply_ustx: self.total_liquid_supply_ustx,
            next_cycle: PoxCycle { min_threshold_ustx: self.next_cycle.min_threshold_ustx },
        }
    }

    /// The number of settlement-chain blocks in one cycle.
    pub fn pox_cycle_length(&self) -> (r: u64)
        ensures
            r == self.cycle_length(),
    {
        self.prepare_phase_block_length as u64 + self.reward_phase_block_length as u64
    }

    /// The cycle of the block at `burn_block_height`, where there is one
    /// that a 32-bit index can hold: a cycle has a block, and the height is
    /// not below the first block that the chain follows.
    pub fn pox_cycle_id(&self, burn_block_height: u64) -> (r: Option<u32>)
        ensures
            r == (if self.wf() && burn_block_height >= self.first_burnchain_block_height
                && self.cycle_id(burn_block_height) <= u32::MAX {
                Some(self.cycle_id(burn_block_height) as u32)
            } else {
                None
            }),
    {
        let length = self.pox_cycle_length();
        if length == 0 || burn_block_height < self.first_burnchain_block_height {
            return None;
        }
        let id = (burn_block_height - self.first_burnchain_block_height) / length;
        if id > u32::MAX as u64 {
            None
        } else {
            Some(id as u32)
        }
    }

    /// Whether stacking orders are due at the block at `burn_block_height`:
    /// it is the last but one of its cycle.
    pub fn is_stacking_block(&self, burn_block_height: u64) -> (r: bool)
        ensures
            r == (self.wf() && self.is_penultimate_block(burn_block_height)),
    {
        let length = self.pox_cycle_length();
        if length < 2 {
            assert(self.wf() ==> !self.is_penultimate_block(burn_block_height));
            false
        } else {
            burn_block_height % length == length - 2
        }
    }
}

/// A contract that waits to be deployed.
#[derive(Clone, Debug, PartialEq, Eq)]
pub struct PendingContract {
    pub code: String,
    pub name: Option<String>,
    pub path: String,
    pub deployer: Option<String>,
}

/// The view of [`PendingContract`].
pub struct PendingContractView {
    pub code: Seq<char>,
    pub name: Option<Seq<char>>,
    pub path: Seq<char>,
    pub deployer: Option<Seq<char>>,
}

impl View for PendingContract {
    type V = PendingContractView;

    open spec fn view(&self) -> PendingContractView {
        PendingContractView {
            code: self.code@,
            name: option_text(self.name),
            path: self.path@,
            deployer: option_text(self.deployer),
        }
    }
}

impl PendingContract {
    /// A copy of the contract with the same view.
    pub fn duplicate(&self) -> (r: PendingContract)
        ensures
            r@ == self@,
    {
        PendingContract {
            code: self.code.clone(),
            name: crate::types::duplicate_option_text(&self.name),
            path: self.path.clone(),
            deployer: crate::types::duplicate_option_text(&self.deployer),
        }
    }
}

/// The views of a sequence of contracts.
pub open spec fn contracts_view(contracts: Seq<PendingContract>) -> Seq<PendingContractView> {
    contracts.map_values(|c: PendingContract| c@)
}

/// An account that the interpreter session starts with.
#[derive(Clone, Debug, PartialEq, Eq)]
pub struct SessionAccount {
    pub address: String,
    pub balance: u64,
    pub name: String,
}

/// The view of [`SessionAccount`].
pub struct SessionAccountView {
    pub address: Seq<char>,
    pub balance: u64,
    pub name: Seq<char>,
}

impl View for SessionAccount {
    type V = SessionAccountView;

    open spec fn view(&self) -> SessionAccountView {
        SessionAccountView { address: self.address@, balance: self.balance, name: self.name@ }
    }
}

/// What the observer reads of the interpreter session: the contracts that it
/// holds, in the order of their deployment, and the accounts it starts with.
#[derive(Clone, Debug, PartialEq, Eq)]
pub struct Session {
    pub initial_contracts: Vec<PendingContract>,
    pub initial_accounts: Vec<SessionAccount>,
}

/// The state that the handlers of the observer share. It is made once and
/// replaced as a whole when the contracts are reloaded.
pub struct EventObserverConfig {
    pub devnet_config: DevnetConfig,
    pub accounts: StringHashMap<AccountConfig>,
    pub contracts_to_deploy: VecDeque<PendingContract>,
    pub manifest_path: String,
    pub pox_info: PoxInfo,
    pub session: Session,
    pub deployer_nonce: u64,
}

/// The fungible asset classes that the node has been asked about, by their
/// identifiers. A class is written once and stays for the life of the
/// process.
pub type AssetClassRegistry = StringHashMap<AssetClassCache>;

/// The accounts of the network by their labels.
pub type Accounts = StringHashMap<AccountConfig>;

/// The accounts of a list by their labels. Of two accounts with one label
/// the later stands.
pub open spec fn labelled(accounts: Seq<AccountConfig>) -> Map<Seq<char>, AccountConfig>
    decreases accounts.len(),
{
    if accounts.len() == 0 {
        Map::empty()
    } else {
        labelled(accounts.drop_last()).insert(accounts.last().label@, accounts.last())
    }
}

/// Files the accounts of a list under their labels.
pub fn accounts_by_label(accounts: Vec<AccountConfig>) -> (r: StringHashMap<AccountConfig>)
    ensures
        r@ == labelled(accounts@),
{
    let ghost listed = accounts@;
    let mut accounts = accounts;
    let mut filed: StringHashMap<AccountConfig> = StringHashMap::new();
    let mut rest: Vec<AccountConfig> = Vec::new();
    while accounts.len() > 0
        invariant
            accounts@ + rest@.reverse() == listed,
        decreases accounts.len(),
    {
        let ghost before = accounts@;
        let ghost kept = rest@;
        match accounts.pop() {
            Some(account) => {
                rest.push(account);
                assert(accounts@ + rest@.reverse() == before + kept.reverse()) by {
                    assert(rest@.reverse() == seq![account] + kept.reverse());
                    assert(before == accounts@.push(account));
                }
            },
            None => {},
        }
    }
    assert(rest@.reverse() == listed);
    assert(listed.len() == rest@.len());
    let total = rest.len();
    let mut done: usize = 0;
    let ghost reversed = rest@;
    assert(listed.take(0) == Seq::<AccountConfig>::empty());
    while rest.len() > 0
        invariant
            reversed.reverse() == listed,
            listed.len() == total,
            done + rest@.len() == listed.len(),
            rest@ == reversed.take(rest@.len() as int),
            filed@ == labelled(listed.take(done as int)),
        decreases rest.len(),
    {
        match rest.pop() {
            Some(account) => {
                proof {
                    assert(account == reversed[reversed.len() - 1 - done]);
                    assert(account == listed[done as int]);
                    assert(listed.take(done + 1).drop_last() == listed.take(done as int));
                    assert(listed.take(done + 1).last() == account);
                }
                filed.insert(account.label.clone(), account);
                done += 1;
            },
            None => {},
        }
    }
    assert(listed.take(done as int) == listed);
    filed
}

/// The contracts of a session, queued for deployment in their order.
pub fn queue_of(session: &Session) -> (r: VecDeque<PendingContract>)
    ensures
        contracts_view(r@) == contracts_view(session.initial_contracts@),
{
    let mut queue: VecDeque<PendingContract> = VecDeque::new();
    let mut i: usize = 0;
    while i < session.initial_contracts.len()
        invariant
            i <= session.initial_contracts.len(),
            contracts_view(queue@) == contracts_view(session.initial_contracts@.take(i as int)),
        decreases session.initial_contracts.len() - i,
    {
        let ghost before = queue@;
        let contract = session.initial_contracts[i].duplicate();
        queue.push_back(contract);
        proof {
            let listed = session.initial_contracts@;
            assert(listed.take(i + 1) == listed.take(i as int).push(listed[i as int]));
            assert(contracts_view(queue@) == contracts_view(before).push(contract@));
            assert(contracts_view(listed.take(i + 1)) == contracts_view(listed.take(i as int)).push(
                listed[i as int]@,
            ));
        }
        i += 1;
    }
    assert(session.initial_contracts@.take(i as int) == session.initial_contracts@);
    queue
}

impl EventObserverConfig {
    /// The state of an observer that starts on a loaded session: every
    /// contract of the session waits to be deployed, the deployer has
    /// broadcast nothing yet, and the reward cycles have their default
    /// parameters.
    pub fn new(
        devnet_config: DevnetConfig,
        manifest_path: String,
        accounts: StringHashMap<AccountConfig>,
        session: Session,
    ) -> (r: EventObserverConfig)
        ensures
            r.devnet_config == devnet_config,
            r.accounts == accounts,
            r.manifest_path == manifest_path,
            r.session == session,
            contracts_view(r.contracts_to_deploy@) == contracts_view(session.initial_contracts@),
            r.deployer_nonce == 0,
            r.pox_info.is_default(),
    {
        let contracts_to_deploy = queue_of(&session);
        EventObserverConfig {
            devnet_config,
            accounts,
            manifest_path,
            pox_info: PoxInfo::default(),
            contracts_to_deploy,
            session,
            deployer_nonce: 0,
        }
    }
}

} // verus!
