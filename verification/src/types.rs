//! The exchange-agnostic model that the observer publishes: identifiers,
//! currencies, amounts, operations, and the blocks and transactions that
//! carry them. Each type that owns text has a view over `Seq<char>`, and the
//! contracts of the library are stated over those views.

use vstd::prelude::*;
use vstd::string::*;

verus! {

/// The view of an optional text.
pub open spec fn option_text(o: Option<String>) -> Option<Seq<char>> {
    match o {
        Some(s) => Some(s@),
        None => None,
    }
}

/// The views of a sequence of texts.
pub open spec fn texts_view(texts: Seq<String>) -> Seq<Seq<char>> {
    texts.map_values(|s: String| s@)
}

/// A copy of `o` with the same view.
pub fn duplicate_option_text(o: &Option<String>) -> (r: Option<String>)
    ensures
        option_text(r) == option_text(*o),
{
    match o {
        Some(s) => Some(s.clone()),
        None => None,
    }
}

/// The effect of an operation on the account it names.
#[derive(Clone, Copy, Debug, PartialEq, Eq, Structural)]
pub enum OperationType {
    Credit,
    Debit,
    Lock,
}

/// The outcome of an operation. Every operation that the observer reports
/// comes from an event of an anchored block, so it has succeeded.
#[derive(Clone, Copy, Debug, PartialEq, Eq, Structural)]
pub enum OperationStatusKind {
    Success,
}

/// The token standard that a currency follows.
#[derive(Clone, Copy, Debug, PartialEq, Eq, Structural)]
pub enum CurrencyStandard {
    /// Non-fungible tokens.
    Sip09,
    /// Fungible tokens.
    Sip10,
}

/// The standard tag of a fungible token.
pub open spec fn fungible_tag() -> Seq<char> {
    "fungible-token"@
}

/// The standard tag of a non-fungible token.
pub open spec fn non_fungible_tag() -> Seq<char> {
    "non-fungible-token"@
}

impl CurrencyStandard {
    /// The tag under which the standard is published.
    pub open spec fn spec_tag(self) -> Seq<char> {
        match self {
            CurrencyStandard::Sip09 => non_fungible_tag(),
            CurrencyStandard::Sip10 => fungible_tag(),
        }
    }

    /// The tag under which the standard is published.
    pub fn tag(&self) -> (r: String)
        ensures
            r@ == self.spec_tag(),
    {
        match self {
            CurrencyStandard::Sip09 => String::from_str("non-fungible-token"),
            CurrencyStandard::Sip10 => String::from_str("fungible-token"),
        }
    }
}

/// The position of an operation in its transaction.
#[derive(Clone, Copy, Debug, PartialEq, Eq, Structural)]
pub struct OperationIdentifier {
    pub index: u32,
    pub network_index: Option<i64>,
}

/// The account that an operation debits, credits or locks.
#[derive(Clone, Debug, PartialEq, Eq)]
pub struct AccountIdentifier {
    pub address: String,
    pub sub_account: Option<String>,
}

/// The view of [`AccountIdentifier`].
pub struct AccountIdentifierView {
    pub address: Seq<char>,
    pub sub_account: Option<Seq<char>>,
}

impl View for AccountIdentifier {
    type V = AccountIdentifierView;

    open spec fn view(&self) -> AccountIdentifierView {
        AccountIdentifierView {
            address: self.address@,
            sub_account: option_text(self.sub_account),
        }
    }
}

/// What tells a token of a user-defined asset class from the native token.
#[derive(Clone, Debug, PartialEq, Eq)]
pub struct CurrencyMetadata {
    pub asset_class_identifier: String,
    pub asset_identifier: Option<String>,
    pub standard: CurrencyStandard,
}

/// The view of [`CurrencyMetadata`].
pub struct CurrencyMetadataView {
    pub asset_class_identifier: Seq<char>,
    pub asset_identifier: Option<Seq<char>>,
    pub standard: CurrencyStandard,
}

impl View for CurrencyMetadata {
    type V = CurrencyMetadataView;

    open spec fn view(&self) -> CurrencyMetadataView {
        CurrencyMetadataView {
            asset_class_identifier: self.asset_class_identifier@,
            asset_identifier: option_text(self.asset_identifier),
            standard: self.standard,
        }
    }
}

/// The view of optional currency metadata.
pub open spec fn option_metadata_view(o: Option<CurrencyMetadata>) -> Option<CurrencyMetadataView> {
    match o {
        Some(m) => Some(m@),
        None => None,
    }
}

/// The unit in which an amount is counted.
#[derive(Clone, Debug, PartialEq, Eq)]
pub struct Currency {
    pub symbol: String,
    pub decimals: u32,
    pub metadata: Option<CurrencyMetadata>,
}

/// The view of [`Currency`].
pub struct CurrencyView {
    pub symbol: Seq<char>,
    pub decimals: u32,
    pub metadata: Option<CurrencyMetadataView>,
}

impl View for Currency {
    type V = CurrencyView;

    open spec fn view(&self) -> CurrencyView {
        CurrencyView {
            symbol: self.symbol@,
            decimals: self.decimals,
            metadata: option_metadata_view(self.metadata),
        }
    }
}

/// The view of an optional currency.
pub open spec fn option_currency_view(o: Option<Currency>) -> Option<CurrencyView> {
    match o {
        Some(c) => Some(c@),
        None => None,
    }
}

impl Currency {
    /// A copy of the currency with the same view.
    pub fn duplicate(&self) -> (r: Currency)
        ensures
            r@ == self@,
    {
        let metadata = match &self.metadata {
            Some(m) => Some(
                CurrencyMetadata {
                    asset_class_identifier: m.asset_class_identifier.clone(),
                    asset_identifier: duplicate_option_text(&m.asset_identifier),
                    standard: m.standard,
                },
            ),
            None => None,
        };
        Currency { symbol: self.symbol.clone(), decimals: self.decimals, metadata }
    }
}

/// A count of units of a currency.
#[derive(Clone, Debug, PartialEq, Eq)]
pub struct Amount {
    pub value: u64,
    pub currency: Currency,
}

/// The view of [`Amount`].
pub struct AmountView {
    pub value: u64,
    pub currency: CurrencyView,
}

impl View for Amount {
    type V = AmountView;

    open spec fn view(&self) -> AmountView {
        AmountView { value: self.value, currency: self.currency@ }
    }
}

/// The view of an optional amount.
pub open spec fn option_amount_view(o: Option<Amount>) -> Option<AmountView> {
    match o {
        Some(a) => Some(a@),
        None => None,
    }
}

/// The view of an optional list of operation identifiers.
pub open spec fn option_related_view(o: Option<Vec<OperationIdentifier>>) -> Option<
    Seq<OperationIdentifier>,
> {
    match o {
        Some(v) => Some(v@),
        None => None,
    }
}

/// One ledger effect of a transaction.
#[derive(Clone, Debug, PartialEq, Eq)]
pub struct Operation {
    pub operation_identifier: OperationIdentifier,
    pub related_operations: Option<Vec<OperationIdentifier>>,
    pub type_: OperationType,
    pub status: Option<OperationStatusKind>,
    pub account: AccountIdentifier,
    pub amount: Option<Amount>,
    pub metadata: Option<String>,
}

/// The view of [`Operation`].
pub struct OperationView {
    pub operation_identifier: OperationIdentifier,
    pub related_operations: Option<Seq<OperationIdentifier>>,
    pub type_: OperationType,
    pub status: Option<OperationStatusKind>,
    pub account: AccountIdentifierView,
    pub amount: Option<AmountView>,
    pub metadata: Option<Seq<char>>,
}

impl View for Operation {
    type V = OperationView;

    open spec fn view(&self) -> OperationView {
        OperationView {
            operation_identifier: self.operation_identifier,
            related_operations: option_related_view(self.related_operations),
            type_: self.type_,
            status: self.status,
            account: self.account@,
            amount: option_amount_view(self.amount),
            metadata: option_text(self.metadata),
        }
    }
}

/// The views of a sequence of operations.
pub open spec fn operations_view(operations: Seq<Operation>) -> Seq<OperationView> {
    operations.map_values(|o: Operation| o@)
}

/// The hash that names a transaction.
#[derive(Clone, Debug, PartialEq, Eq)]
pub struct TransactionIdentifier {
    pub hash: String,
}

/// The height and hash that name a block.
#[derive(Clone, Debug, PartialEq, Eq)]
pub struct BlockIdentifier {
    pub index: u64,
    pub hash: String,
}

/// The view of [`BlockIdentifier`].
pub struct BlockIdentifierView {
    pub index: u64,
    pub hash: Seq<char>,
}

impl View for BlockIdentifier {
    type V = BlockIdentifierView;

    open spec fn view(&self) -> BlockIdentifierView {
        BlockIdentifierView { index: self.index, hash: self.hash@ }
    }
}

/// What the node reported of a transaction besides its operations.
#[derive(Clone, Debug, PartialEq, Eq)]
pub struct StacksTransactionMetadata {
    pub success: bool,
    pub result: String,
    pub events: Vec<String>,
    pub description: String,
}

/// The view of [`StacksTransactionMetadata`].
pub struct StacksTransactionMetadataView {
    pub success: bool,
    pub result: Seq<char>,
    pub events: Seq<Seq<char>>,
    pub description: Seq<char>,
}

impl View for StacksTransactionMetadata {
    type V = StacksTransactionMetadataView;

    open spec fn view(&self) -> StacksTransactionMetadataView {
        StacksTransactionMetadataView {
            success: self.success,
            result: self.result@,
            events: texts_view(self.events@),
            description: self.description@,
        }
    }
}

/// A transaction of an anchored block, with its standardized operations.
#[derive(Clone, Debug, PartialEq, Eq)]
pub struct StacksTransactionData {
    pub transaction_identifier: TransactionIdentifier,
    pub operations: Vec<Operation>,
    pub metadata: StacksTransactionMetadata,
}

/// The view of [`StacksTransactionData`].
pub struct StacksTransactionDataView {
    pub transaction_identifier: Seq<char>,
    pub operations: Seq<OperationView>,
    pub metadata: StacksTransactionMetadataView,
}

impl View for StacksTransactionData {
    type V = StacksTransactionDataView;

    open spec fn view(&self) -> StacksTransactionDataView {
        StacksTransactionDataView {
            transaction_identifier: self.transaction_identifier.hash@,
            operations: operations_view(self.operations@),
            metadata: self.metadata@,
        }
    }
}

/// The views of a sequence of transactions.
pub open spec fn transactions_view(transactions: Seq<StacksTransactionData>) -> Seq<
    StacksTransactionDataView,
> {
    transactions.map_values(|t: StacksTransactionData| t@)
}

/// Where a block stands on the settlement chain and in the reward cycles.
#[derive(Clone, Debug, PartialEq, Eq)]
pub struct StacksBlockMetadata {
    pub bitcoin_anchor_block_identifier: BlockIdentifier,
    pub bitcoin_genesis_block_identifier: BlockIdentifier,
    pub pox_cycle_index: u32,
    pub pox_cycle_length: u32,
}

/// The view of [`StacksBlockMetadata`].
pub struct StacksBlockMetadataView {
    pub bitcoin_anchor_block_identifier: BlockIdentifierView,
    pub bitcoin_genesis_block_identifier: BlockIdentifierView,
    pub pox_cycle_index: u32,
    pub pox_cycle_length: u32,
}

impl View for StacksBlockMetadata {
    type V = StacksBlockMetadataView;

    open spec fn view(&self) -> StacksBlockMetadataView {
        StacksBlockMetadataView {
            bitcoin_anchor_block_identifier: self.bitcoin_anchor_block_identifier@,
            bitcoin_genesis_block_identifier: self.bitcoin_genesis_block_identifier@,
            pox_cycle_index: self.pox_cycle_index,
            pox_cycle_length: self.pox_cycle_length,
        }
    }
}

/// An anchored block of the simulated chain.
#[derive(Clone, Debug, PartialEq, Eq)]
pub struct StacksBlockData {
    pub block_identifier: BlockIdentifier,
    pub parent_block_identifier: BlockIdentifier,
    pub timestamp: i64,
    pub transactions: Vec<StacksTransactionData>,
    pub metadata: StacksBlockMetadata,
}

/// The view of [`StacksBlockData`].
pub struct StacksBlockDataView {
    pub block_identifier: BlockIdentifierView,
    pub parent_block_identifier: BlockIdentifierView,
    pub timestamp: i64,
    pub transactions: Seq<StacksTransactionDataView>,
    pub metadata: StacksBlockMetadataView,
}

impl View for StacksBlockData {
    type V = StacksBlockDataView;

    open spec fn view(&self) -> StacksBlockDataView {
        StacksBlockDataView {
            block_identifier: self.block_identifier@,
            parent_block_identifier: self.parent_block_identifier@,
            timestamp: self.timestamp,
            transactions: transactions_view(self.transactions@),
            metadata: self.metadata@,
        }
    }
}

/// A transaction of the settlement chain.
#[derive(Clone, Debug, PartialEq, Eq)]
pub struct BitcoinTransactionData {
    pub transaction_identifier: TransactionIdentifier,
}

/// What is known of a settlement-chain block besides its identifiers.
#[derive(Clone, Copy, Debug, PartialEq, Eq, Structural)]
pub struct BitcoinBlockMetadata {}

/// A block of the settlement chain.
#[derive(Clone, Debug, PartialEq, Eq)]
pub struct BitcoinBlockData {
    pub block_identifier: BlockIdentifier,
    pub parent_block_identifier: BlockIdentifier,
    pub timestamp: i64,
    pub transactions: Vec<BitcoinTransactionData>,
    pub metadata: BitcoinBlockMetadata,
}

/// The view of [`BitcoinBlockData`].
pub struct BitcoinBlockDataView {
    pub block_identifier: BlockIdentifierView,
    pub parent_block_identifier: BlockIdentifierView,
    pub timestamp: i64,
    pub transactions: Seq<Seq<char>>,
}

impl View for BitcoinBlockData {
    type V = BitcoinBlockDataView;

    open spec fn view(&self) -> BitcoinBlockDataView {
        BitcoinBlockDataView {
            block_identifier: self.block_identifier@,
            parent_block_identifier: self.parent_block_identifier@,
            timestamp: self.timestamp,
            transactions: self.transactions@.map_values(
                |t: BitcoinTransactionData| t.transaction_identifier.hash@,
            ),
        }
    }
}

/// An account of the network, as the configuration names it.
#[derive(Clone, Debug, PartialEq, Eq)]
pub struct AccountConfig {
    pub label: String,
    pub mnemonic: String,
    pub derivation: String,
    pub balance: u64,
    pub address: String,
    pub is_mainnet: bool,
}

/// The view of [`AccountConfig`].
pub struct AccountConfigView {
    pub label: Seq<char>,
    pub mnemonic: Seq<char>,
    pub derivation: Seq<char>,
    pub balance: u64,
    pub address: Seq<char>,
    pub is_mainnet: bool,
}

impl View for AccountConfig {
    type V = AccountConfigView;

    open spec fn view(&self) -> AccountConfigView {
        AccountConfigView {
            label: self.label@,
            mnemonic: self.mnemonic@,
            derivation: self.derivation@,
            balance: self.balance,
            address: self.address@,
            is_mainnet: self.is_mainnet,
        }
    }
}

impl AccountConfig {
    /// A copy of the account with the same view.
    pub fn duplicate(&self) -> (r: AccountConfig)
        ensures
            r@ == self@,
    {
        AccountConfig {
            label: self.label.clone(),
            mnemonic: self.mnemonic.clone(),
            derivation: self.derivation.clone(),
            balance: self.balance,
            address: self.address.clone(),
            is_mainnet: self.is_mainnet,
        }
    }
}

/// An instruction to lock tokens of an account for coming reward cycles.
#[derive(Clone, Debug, PartialEq, Eq)]
pub struct PoxStackingOrder {
    pub start_at_cycle: u32,
    pub duration: u32,
    pub wallet: String,
    pub slots: u64,
    pub btc_address: String,
}

/// What the observer reads of the network's configuration.
#[derive(Clone, Debug, PartialEq, Eq)]
pub struct DevnetConfig {
    pub orchestrator_port: u16,
    pub stacks_node_rpc_port: u16,
    pub pox_stacking_orders: Vec<PoxStackingOrder>,
}

} // verus!
