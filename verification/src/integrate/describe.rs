//! Descriptions of wire-encoded transactions and values.
//!
//! A transaction or a value arrives as hexadecimal text, with or without a
//! `0x` prefix. What cannot be decoded is described by the text itself, so a
//! description never fails.

use vstd::prelude::*;
use vstd::string::*;
use std::io::Cursor;
use clarity_repl::clarity::codec::{StacksMessageCodec, StacksTransaction};
use clarity_repl::clarity::codec::transaction::TransactionPayload::{
    ContractCall,
    SmartContract,
    TokenTransfer,
};
use clarity_repl::clarity::types::Value;
use clarity_repl::clarity::util::c32::c32_address;
use crate::text::{
    decimal_text,
    has_hex_prefix,
    join,
    joined,
    starts_with_hex_prefix,
    strip_hex_prefix,
    u64_to_string,
    without_hex_prefix,
};
use crate::types::{option_text, texts_view};

verus! {

/// The number that a hexadecimal digit stands for, in either case.
pub open spec fn hex_digit_value(c: char) -> Option<nat> {
    let code = c as u32;
    if 48 <= code <= 57 {
        Some((code - 48) as nat)
    } else if 97 <= code <= 102 {
        Some((code - 87) as nat)
    } else if 65 <= code <= 70 {
        Some((code - 55) as nat)
    } else {
        None
    }
}

/// The bytes that a hexadecimal text writes, two digits to a byte: there are
/// none where the text has an odd length or holds another character.
pub open spec fn hex_decoded(s: Seq<char>) -> Option<Seq<u8>> {
    if s.len() % 2 == 0 && (forall|i: int| 0 <= i < s.len() ==> hex_digit_value(#[trigger] s[i]) is Some) {
        Some(
            Seq::new(
                s.len() / 2,
                |i: int|
                    (16 * hex_digit_value(s[2 * i]).unwrap() + hex_digit_value(
                        s[2 * i + 1],
                    ).unwrap()) as u8,
            ),
        )
    } else {
        None
    }
}

/// The view of optional bytes.
pub open spec fn option_bytes(o: Option<Vec<u8>>) -> Option<Seq<u8>> {
    match o {
        Some(v) => Some(v@),
        None => None,
    }
}

/// Calls `clarity_repl::clarity::util::hash::hex_bytes`, which reads the
/// characters two by two and takes each pair for one byte. Not proved here:
/// that it gives the bytes of [`hex_decoded`], and an error exactly where
/// that gives none (an odd number of characters, or one that is no
/// hexadecimal digit).
#[verifier::external_body]
fn hex_to_bytes(s: &str) -> (r: Option<Vec<u8>>)
    ensures
        option_bytes(r) == hex_decoded(s@),
{
    clarity_repl::clarity::util::hash::hex_bytes(s).ok()
}

/// What a description needs of a decoded transaction.
#[derive(Clone, Debug, PartialEq, Eq)]
pub enum TransactionSummary {
    /// Native tokens go from the sender to the recipient.
    TokenTransfer { amount: u64, sender: String, recipient: String },
    /// A function of a contract is called. The address of the contract's
    /// deployer is missing where its version byte has no textual form.
    ContractCall {
        address: Option<String>,
        contract_name: String,
        function_name: String,
        function_args: Vec<String>,
    },
    /// The sender deploys a contract.
    SmartContract { sender: String, contract_name: String },
    /// Any other transaction: the reward claim of a block, or the report of
    /// a forked stream of microblocks.
    Other,
}

/// The view of [`TransactionSummary`].
pub enum TransactionSummaryView {
    TokenTransfer { amount: u64, sender: Seq<char>, recipient: Seq<char> },
    ContractCall {
        address: Option<Seq<char>>,
        contract_name: Seq<char>,
        function_name: Seq<char>,
        function_args: Seq<Seq<char>>,
    },
    SmartContract { sender: Seq<char>, contract_name: Seq<char> },
    Other,
}

impl View for TransactionSummary {
    type V = TransactionSummaryView;

    open spec fn view(&self) -> TransactionSummaryView {
        match *self {
            TransactionSummary::TokenTransfer { amount, sender, recipient } => TransactionSummaryView::TokenTransfer {
                amount,
                sender: sender@,
                recipient: recipient@,
            },
            TransactionSummary::ContractCall {
                address,
                contract_name,
                function_name,
                function_args,
            } => TransactionSummaryView::ContractCall {
                address: option_text(address),
                contract_name: contract_name@,
                function_name: function_name@,
                function_args: texts_view(function_args@),
            },
            TransactionSummary::SmartContract { sender, contract_name } => TransactionSummaryView::SmartContract {
                sender: sender@,
                contract_name: contract_name@,
            },
            TransactionSummary::Other => TransactionSummaryView::Other,
        }
    }
}

/// The view of an optional summary.
pub open spec fn option_summary(o: Option<TransactionSummary>) -> Option<TransactionSummaryView> {
    match o {
        Some(s) => Some(s@),
        None => None,
    }
}

/// The summary of the transaction that the bytes encode in the wire format
/// of the chain, if they encode one.
pub uninterp spec fn transaction_decoding(bytes: Seq<u8>) -> Option<TransactionSummaryView>;

/// Calls `StacksTransaction::consensus_deserialize` of `clarity_repl` on the
/// bytes and copies out of the transaction its payload, the address of its
/// origin (`origin_address`), and each name, principal and argument in its
/// display form. The address of a called contract is written with
/// `c32_address`, which refuses a version byte that the display form would
/// stop on. Not proved here: that the result depends on the bytes alone.
#[verifier::external_body]
fn decode_transaction(bytes: &Vec<u8>) -> (r: Option<TransactionSummary>)
    ensures
        option_summary(r) == transaction_decoding(bytes@),
{
    let tx = StacksTransaction::consensus_deserialize(&mut Cursor::new(bytes)).ok()?;
    let sender = tx.origin_address().to_string();
    Some(match tx.payload {
        TokenTransfer(to, amount, _) => TransactionSummary::TokenTransfer { amount, sender, recipient: to.to_string() },
        ContractCall(c) => TransactionSummary::ContractCall {
            address: c32_address(c.address.version, c.address.bytes.as_bytes()).ok(),
            contract_name: c.contract_name.to_string(),
            function_name: c.function_name.to_string(),
            function_args: c.function_args.iter().map(|v| v.to_string()).collect(),
        },
        SmartContract(c) => TransactionSummary::SmartContract { sender, contract_name: c.name.to_string() },
        _ => TransactionSummary::Other,
    })
}

/// The description of a decoded transaction. There is none for a contract
/// call whose contract address has no textual form.
pub open spec fn summary_description(summary: TransactionSummaryView) -> Option<Seq<char>> {
    match summary {
        TransactionSummaryView::TokenTransfer { amount, sender, recipient } => Some(
            "transferred: "@ + decimal_text(amount as nat) + " from "@ + sender + " to "@ + recipient,
        ),
        TransactionSummaryView::ContractCall {
            address,
            contract_name,
            function_name,
            function_args,
        } => match address {
            Some(address) => Some(
                "invoked: "@ + address + "."@ + contract_name + "::"@ + function_name + "("@
                    + joined(function_args, ", "@) + ")"@,
            ),
            None => None,
        },
        TransactionSummaryView::SmartContract { sender, contract_name } => Some(
            "deployed: "@ + sender + "."@ + contract_name,
        ),
        TransactionSummaryView::Other => Some("coinbase"@),
    }
}

/// Describes a decoded transaction.
pub fn describe_transaction(summary: &TransactionSummary) -> (r: Option<String>)
    ensures
        option_text(r) == summary_description(summary@),
{
    match summary {
        TransactionSummary::TokenTransfer { amount, sender, recipient } => {
            let mut s = String::from_str("transferred: ");
            s.append(u64_to_string(*amount).as_str());
            s.append(" from ");
            s.append(sender.as_str());
            s.append(" to ");
            s.append(recipient.as_str());
            Some(s)
        },
        TransactionSummary::ContractCall { address, contract_name, function_name, function_args } => {
            match address {
                Some(address) => {
                    let mut s = String::from_str("invoked: ");
                    s.append(address.as_str());
                    s.append(".");
                    s.append(contract_name.as_str());
                    s.append("::");
                    s.append(function_name.as_str());
                    s.append("(");
                    s.append(join(function_args, ", ").as_str());
                    s.append(")");
                    Some(s)
                },
                None => None,
            }
        },
        TransactionSummary::SmartContract { sender, contract_name } => {
            let mut s = String::from_str("deployed: ");
            s.append(sender.as_str());
            s.append(".");
            s.append(contract_name.as_str());
            Some(s)
        },
        TransactionSummary::Other => Some(String::from_str("coinbase")),
    }
}

/// The description of the transaction that `raw_tx` encodes: the text itself
/// where it is no hexadecimal text, encodes no transaction or encodes one
/// that has no description.
pub open spec fn tx_description(raw_tx: Seq<char>) -> Seq<char> {
    match hex_decoded(without_hex_prefix(raw_tx)) {
        Some(bytes) => match transaction_decoding(bytes) {
            Some(summary) => match summary_description(summary) {
                Some(description) => description,
                None => raw_tx,
            },
            None => raw_tx,
        },
        None => raw_tx,
    }
}

/// Describes a transaction that comes in its wire encoding.
pub fn get_tx_description(raw_tx: &str) -> (r: String)
    ensures
        r@ == tx_description(raw_tx@),
{
    if let Some(bytes) = hex_to_bytes(strip_hex_prefix(raw_tx)) {
        if let Some(summary) = decode_transaction(&bytes) {
            if let Some(description) = describe_transaction(&summary) {
                return description;
            }
        }
    }
    String::from_str(raw_tx)
}

/// What a contract answered to a read-only call.
#[derive(Clone, Copy, Debug, PartialEq, Eq, Structural)]
pub struct ResponseSummary {
    /// Whether the answer is an `ok`.
    pub committed: bool,
    /// The unsigned integer inside the answer, if it holds one.
    pub uint: Option<u128>,
}

/// What the library reads of a decoded value.
#[derive(Clone, Debug, PartialEq, Eq)]
pub struct ValueSummary {
    /// The value in its display form.
    pub display: String,
    /// The answer, where the value is a response.
    pub response: Option<ResponseSummary>,
}

/// The view of [`ValueSummary`].
pub struct ValueSummaryView {
    pub display: Seq<char>,
    pub response: Option<ResponseSummary>,
}

impl View for ValueSummary {
    type V = ValueSummaryView;

    open spec fn view(&self) -> ValueSummaryView {
        ValueSummaryView { display: self.display@, response: self.response }
    }
}

/// The view of an optional value summary.
pub open spec fn option_value(o: Option<ValueSummary>) -> Option<ValueSummaryView> {
    match o {
        Some(s) => Some(s@),
        None => None,
    }
}

/// The summary of the typed value that the bytes encode, if they encode one.
pub uninterp spec fn value_decoding(bytes: Seq<u8>) -> Option<ValueSummaryView>;

/// Calls `Value::consensus_deserialize` of `clarity_repl` on the bytes and
/// copies out of the value its display form and, where it is a response,
/// whether it is an `ok` and the unsigned integer it holds. Not proved here:
/// that the result depends on the bytes alone.
#[verifier::external_body]
fn decode_value(bytes: &Vec<u8>) -> (r: Option<ValueSummary>)
    ensures
        option_value(r) == value_decoding(bytes@),
{
    let value = Value::consensus_deserialize(&mut Cursor::new(bytes)).ok()?;
    let display = value.to_string();
    let response = match value {
        Value::Response(data) => Some(ResponseSummary {
            committed: data.committed,
            uint: match *data.data { Value::UInt(n) => Some(n), _ => None },
        }),
        _ => None,
    };
    Some(ValueSummary { display, response })
}

/// The value that a hexadecimal text encodes, with or without a `0x` prefix.
pub open spec fn decoded_value(raw_value: Seq<char>) -> Option<ValueSummaryView> {
    match hex_decoded(without_hex_prefix(raw_value)) {
        Some(bytes) => value_decoding(bytes),
        None => None,
    }
}

/// Decodes the typed value that a hexadecimal text encodes.
pub fn read_value(raw_value: &str) -> (r: Option<ValueSummary>)
    ensures
        option_value(r) == decoded_value(raw_value@),
{
    match hex_to_bytes(strip_hex_prefix(raw_value)) {
        Some(bytes) => decode_value(&bytes),
        None => None,
    }
}

/// Decodes the typed value that a hexadecimal text with a `0x` prefix
/// encodes. A text without the prefix encodes none.
pub fn read_prefixed_value(raw_value: &str) -> (r: Option<ValueSummary>)
    ensures
        option_value(r) == (if has_hex_prefix(raw_value@) {
            decoded_value(raw_value@)
        } else {
            None
        }),
{
    if starts_with_hex_prefix(raw_value) {
        read_value(raw_value)
    } else {
        None
    }
}

/// The display form of the value that `raw_value` encodes: the text itself
/// where it encodes none.
pub open spec fn value_description(raw_value: Seq<char>) -> Seq<char> {
    match decoded_value(raw_value) {
        Some(value) => value.display,
        None => raw_value,
    }
}

/// Describes an optional decoded value that came as `raw_value`.
pub fn describe_value(raw_value: &str, value: Option<ValueSummary>) -> (r: String)
    ensures
        r@ == match value {
            Some(v) => v.display@,
            None => raw_value@,
        },
{
    match value {
        Some(v) => v.display,
        None => String::from_str(raw_value),
    }
}

/// Describes a typed value that comes in its wire encoding.
pub fn get_value_description(raw_value: &str) -> (r: String)
    ensures
        r@ == value_description(raw_value@),
{
    describe_value(raw_value, read_value(raw_value))
}

} // verus!
