//! The events that a transaction emits, and the notation in which the node
//! announces them: an object that names the kind of the event and holds its
//! data under that name.
//!
//! Principals and asset identifiers are kept in their textual form, amounts
//! as numbers, and values of the contract language in the notation that
//! they are announced in.

use vstd::prelude::*;
use vstd::string::*;
use crate::text::{decimal_text, u128_to_string};

verus! {

/// What a member of an announced object holds.
#[derive(Clone, Debug, PartialEq, Eq)]
pub enum JsonField {
    /// A text, to be written as a string.
    Text(String),
    /// A value that is in the notation of the announcement already.
    Notation(String),
}

/// The view of [`JsonField`].
pub enum JsonFieldView {
    Text(Seq<char>),
    Notation(Seq<char>),
}

impl View for JsonField {
    type V = JsonFieldView;

    open spec fn view(&self) -> JsonFieldView {
        match *self {
            JsonField::Text(s) => JsonFieldView::Text(s@),
            JsonField::Notation(s) => JsonFieldView::Notation(s@),
        }
    }
}

/// A member of an announced object.
#[derive(Clone, Debug, PartialEq, Eq)]
pub struct JsonMember {
    pub name: String,
    pub value: JsonField,
}

/// The view of [`JsonMember`].
pub struct JsonMemberView {
    pub name: Seq<char>,
    pub value: JsonFieldView,
}

impl View for JsonMember {
    type V = JsonMemberView;

    open spec fn view(&self) -> JsonMemberView {
        JsonMemberView { name: self.name@, value: self.value@ }
    }
}

/// The views of the members of an object.
pub open spec fn members_view(members: Seq<JsonMember>) -> Seq<JsonMemberView> {
    members.map_values(|m: JsonMember| m@)
}

/// The member `name` that holds the text `value`.
pub open spec fn text_member(name: Seq<char>, value: Seq<char>) -> JsonMemberView {
    JsonMemberView { name, value: JsonFieldView::Text(value) }
}

/// The member `name` that holds a value in its notation.
pub open spec fn notation_member(name: Seq<char>, value: Seq<char>) -> JsonMemberView {
    JsonMemberView { name, value: JsonFieldView::Notation(value) }
}

fn text(name: &str, value: &str) -> (r: JsonMember)
    ensures
        r@ == text_member(name@, value@),
{
    JsonMember { name: String::from_str(name), value: JsonField::Text(String::from_str(value)) }
}

fn notation(name: &str, value: &str) -> (r: JsonMember)
    ensures
        r@ == notation_member(name@, value@),
{
    JsonMember {
        name: String::from_str(name),
        value: JsonField::Notation(String::from_str(value)),
    }
}

/// An announced event: the object `{"type": kind, kind: data}`.
#[derive(Clone, Debug, PartialEq, Eq)]
pub struct EventJson {
    /// The kind of the event, which is also the name that its data stand
    /// under.
    pub kind: String,
    /// The members of the data.
    pub data: Vec<JsonMember>,
}

/// The view of [`EventJson`].
pub struct EventJsonView {
    pub kind: Seq<char>,
    pub data: Seq<JsonMemberView>,
}

impl View for EventJson {
    type V = EventJsonView;

    open spec fn view(&self) -> EventJsonView {
        EventJsonView { kind: self.kind@, data: members_view(self.data@) }
    }
}

/// What running a transaction cost.
#[derive(Clone, Copy, Debug, PartialEq, Eq, Structural)]
pub struct ExecutionCost {
    pub write_length: u64,
    pub write_count: u64,
    pub read_length: u64,
    pub read_count: u64,
    pub runtime: u64,
}

/// What came of running a transaction.
#[derive(Clone, Debug, PartialEq, Eq)]
pub struct StacksTransactionReceipt {
    pub events: Vec<StacksTransactionEvent>,
    pub result: String,
    pub stx_burned: u128,
    pub contract_analysis: Option<String>,
    pub execution_cost: ExecutionCost,
}

/// An event of a transaction, by its kind.
#[derive(Clone, Debug, PartialEq, Eq)]
pub enum StacksTransactionEvent {
    SmartContractEvent(SmartContractEventData),
    STXEvent(STXEventType),
    NFTEvent(NFTEventType),
    FTEvent(FTEventType),
}

/// What happened to native tokens.
#[derive(Clone, Debug, PartialEq, Eq)]
pub enum STXEventType {
    STXTransferEvent(STXTransferEventData),
    STXMintEvent(STXMintEventData),
    STXBurnEvent(STXBurnEventData),
}

/// What happened to a non-fungible token.
#[derive(Clone, Debug, PartialEq, Eq)]
pub enum NFTEventType {
    NFTTransferEvent(NFTTransferEventData),
    NFTMintEvent(NFTMintEventData),
}

/// What happened to fungible tokens.
#[derive(Clone, Debug, PartialEq, Eq)]
pub enum FTEventType {
    FTTransferEvent(FTTransferEventData),
    FTMintEvent(FTMintEventData),
}

/// Native tokens went from the sender to the recipient.
#[derive(Clone, Debug, PartialEq, Eq)]
pub struct STXTransferEventData {
    pub sender: String,
    pub recipient: String,
    pub amount: u128,
}

impl STXTransferEventData {
    /// The data as they are announced.
    pub open spec fn json(self) -> Seq<JsonMemberView> {
        seq![
            text_member("sender"@, self.sender@),
            text_member("recipient"@, self.recipient@),
            text_member("amount"@, decimal_text(self.amount as nat)),
        ]
    }

    /// Writes the data as they are announced.
    pub fn json_serialize(&self) -> (r: Vec<JsonMember>)
        ensures
            members_view(r@) == self.json(),
    {
        let mut members: Vec<JsonMember> = Vec::new();
        members.push(text("sender", self.sender.as_str()));
        members.push(text("recipient", self.recipient.as_str()));
        members.push(text("amount", u128_to_string(self.amount).as_str()));
        assert(members_view(members@) == self.json());
        members
    }
}

/// Native tokens were made for the recipient.
#[derive(Clone, Debug, PartialEq, Eq)]
pub struct STXMintEventData {
    pub recipient: String,
    pub amount: u128,
}

impl STXMintEventData {
    /// The data as they are announced.
    pub open spec fn json(self) -> Seq<JsonMemberView> {
        seq![
            text_member("recipient"@, self.recipient@),
            text_member("amount"@, decimal_text(self.amount as nat)),
        ]
    }

    /// Writes the data as they are announced.
    pub fn json_serialize(&self) -> (r: Vec<JsonMember>)
        ensures
            members_view(r@) == self.json(),
    {
        let mut members: Vec<JsonMember> = Vec::new();
        members.push(text("recipient", self.recipient.as_str()));
        members.push(text("amount", u128_to_string(self.amount).as_str()));
        assert(members_view(members@) == self.json());
        members
    }
}

/// Native tokens of the sender were destroyed.
#[derive(Clone, Debug, PartialEq, Eq)]
pub struct STXBurnEventData {
    pub sender: String,
    pub amount: u128,
}

impl STXBurnEventData {
    /// The data as they are announced.
    pub open spec fn json(self) -> Seq<JsonMemberView> {
        seq![
            text_member("sender"@, self.sender@),
            text_member("amount"@, decimal_text(self.amount as nat)),
        ]
    }

    /// Writes the data as they are announced.
    pub fn json_serialize(&self) -> (r: Vec<JsonMember>)
        ensures
            members_view(r@) == self.json(),
    {
        let mut members: Vec<JsonMember> = Vec::new();
        members.push(text("sender", self.sender.as_str()));
        members.push(text("amount", u128_to_string(self.amount).as_str()));
        assert(members_view(members@) == self.json());
        members
    }
}

/// A non-fungible token went from the sender to the recipient.
#[derive(Clone, Debug, PartialEq, Eq)]
pub struct NFTTransferEventData {
    pub asset_identifier: String,
    pub sender: String,
    pub recipient: String,
    pub value: String,
}

impl NFTTransferEventData {
    /// The data as they are announced.
    pub open spec fn json(self) -> Seq<JsonMemberView> {
        seq![
            text_member("asset_identifier"@, self.asset_identifier@),
            text_member("sender"@, self.sender@),
            text_member("recipient"@, self.recipient@),
            notation_member("value"@, self.value@),
        ]
    }

    /// Writes the data as they are announced.
    pub fn json_serialize(&self) -> (r: Vec<JsonMember>)
        ensures
            members_view(r@) == self.json(),
    {
        let mut members: Vec<JsonMember> = Vec::new();
        members.push(text("asset_identifier", self.asset_identifier.as_str()));
        members.push(text("sender", self.sender.as_str()));
        members.push(text("recipient", self.recipient.as_str()));
        members.push(notation("value", self.value.as_str()));
        assert(members_view(members@) == self.json());
        members
    }
}

/// A non-fungible token was made for the recipient.
#[derive(Clone, Debug, PartialEq, Eq)]
pub struct NFTMintEventData {
    pub asset_identifier: String,
    pub recipient: String,
    pub value: String,
}

impl NFTMintEventData {
    /// The data as they are announced.
    pub open spec fn json(self) -> Seq<JsonMemberView> {
        seq![
            text_member("asset_identifier"@, self.asset_identifier@),
            text_member("recipient"@, self.recipient@),
            notation_member("value"@, self.value@),
        ]
    }

    /// Writes the data as they are announced.
    pub fn json_serialize(&self) -> (r: Vec<JsonMember>)
        ensures
            members_view(r@) == self.json(),
    {
        let mut members: Vec<JsonMember> = Vec::new();
        members.push(text("asset_identifier", self.asset_identifier.as_str()));
        members.push(text("recipient", self.recipient.as_str()));
        members.push(notation("value", self.value.as_str()));
        assert(members_view(members@) == self.json());
        members
    }
}

/// Fungible tokens went from the sender to the recipient.
#[derive(Clone, Debug, PartialEq, Eq)]
pub struct FTTransferEventData {
    pub asset_identifier: String,
    pub sender: String,
    pub recipient: String,
    pub amount: u128,
}

impl FTTransferEventData {
    /// The data as they are announced.
    pub open spec fn json(self) -> Seq<JsonMemberView> {
        seq![
            text_member("asset_identifier"@, self.asset_identifier@),
            text_member("sender"@, self.sender@),
            text_member("recipient"@, self.recipient@),
            text_member("amount"@, decimal_text(self.amount as nat)),
        ]
    }

    /// Writes the data as they are announced.
    pub fn json_serialize(&self) -> (r: Vec<JsonMember>)
        ensures
            members_view(r@) == self.json(),
    {
        let mut members: Vec<JsonMember> = Vec::new();
        members.push(text("asset_identifier", self.asset_identifier.as_str()));
        members.push(text("sender", self.sender.as_str()));
        members.push(text("recipient", self.recipient.as_str()));
        members.push(text("amount", u128_to_string(self.amount).as_str()));
        assert(members_view(members@) == self.json());
        members
    }
}

/// Fungible tokens were made for the recipient.
#[derive(Clone, Debug, PartialEq, Eq)]
pub struct FTMintEventData {
    pub asset_identifier: String,
    pub recipient: String,
    pub amount: u128,
}

impl FTMintEventData {
    /// The data as they are announced.
    pub open spec fn json(self) -> Seq<JsonMemberView> {
        seq![
            text_member("asset_identifier"@, self.asset_identifier@),
            text_member("recipient"@, self.recipient@),
            text_member("amount"@, decimal_text(self.amount as nat)),
        ]
    }

    /// Writes the data as they are announced.
    pub fn json_serialize(&self) -> (r: Vec<JsonMember>)
        ensures
            members_view(r@) == self.json(),
    {
        let mut members: Vec<JsonMember> = Vec::new();
        members.push(text("asset_identifier", self.asset_identifier.as_str()));
        members.push(text("recipient", self.recipient.as_str()));
        members.push(text("amount", u128_to_string(self.amount).as_str()));
        assert(members_view(members@) == self.json());
        members
    }
}

/// What a contract printed: the contract and the topic that it printed
/// under, and the value.
#[derive(Debug, PartialEq, Eq)]
pub struct SmartContractEventData {
    pub key: (String, String),
    pub value: String,
}

impl Clone for SmartContractEventData {
    fn clone(&self) -> (r: Self)
        ensures
            r.json() == self.json(),
    {
        SmartContractEventData {
            key: (self.key.0.clone(), self.key.1.clone()),
            value: self.value.clone(),
        }
    }
}

impl SmartContractEventData {
    /// The data as they are announced.
    pub open spec fn json(self) -> Seq<JsonMemberView> {
        seq![
            text_member("contract_identifier"@, self.key.0@),
            text_member("topic"@, self.key.1@),
            notation_member("value"@, self.value@),
        ]
    }

    /// Writes the data as they are announced.
    pub fn json_serialize(&self) -> (r: Vec<JsonMember>)
        ensures
            members_view(r@) == self.json(),
    {
        let mut members: Vec<JsonMember> = Vec::new();
        members.push(text("contract_identifier", self.key.0.as_str()));
        members.push(text("topic", self.key.1.as_str()));
        members.push(notation("value", self.value.as_str()));
        assert(members_view(members@) == self.json());
        members
    }
}

impl StacksTransactionEvent {
    /// The name of the kind of the event.
    pub open spec fn kind(self) -> Seq<char> {
        match self {
            StacksTransactionEvent::SmartContractEvent(_) => "contract_event"@,
            StacksTransactionEvent::STXEvent(STXEventType::STXTransferEvent(_)) => "stx_transfer_event"@,
            StacksTransactionEvent::STXEvent(STXEventType::STXMintEvent(_)) => "stx_mint_event"@,
            StacksTransactionEvent::STXEvent(STXEventType::STXBurnEvent(_)) => "stx_burn_event"@,
            StacksTransactionEvent::NFTEvent(NFTEventType::NFTTransferEvent(_)) => "nft_transfer_event"@,
            StacksTransactionEvent::NFTEvent(NFTEventType::NFTMintEvent(_)) => "nft_mint_event"@,
            StacksTransactionEvent::FTEvent(FTEventType::FTTransferEvent(_)) => "ft_transfer_event"@,
            StacksTransactionEvent::FTEvent(FTEventType::FTMintEvent(_)) => "ft_mint_event"@,
        }
    }

    /// The data of the event as they are announced.
    pub open spec fn data(self) -> Seq<JsonMemberView> {
        match self {
            StacksTransactionEvent::SmartContractEvent(d) => d.json(),
            StacksTransactionEvent::STXEvent(STXEventType::STXTransferEvent(d)) => d.json(),
            StacksTransactionEvent::STXEvent(STXEventType::STXMintEvent(d)) => d.json(),
            StacksTransactionEvent::STXEvent(STXEventType::STXBurnEvent(d)) => d.json(),
            StacksTransactionEvent::NFTEvent(NFTEventType::NFTTransferEvent(d)) => d.json(),
            StacksTransactionEvent::NFTEvent(NFTEventType::NFTMintEvent(d)) => d.json(),
            StacksTransactionEvent::FTEvent(FTEventType::FTTransferEvent(d)) => d.json(),
            StacksTransactionEvent::FTEvent(FTEventType::FTMintEvent(d)) => d.json(),
        }
    }

    /// Writes the data as they are announced.
    pub fn json_serialize(&self) -> (r: EventJson)
        ensures
            r@ == (EventJsonView { kind: self.kind(), data: self.data() }),
    {
        match self {
            StacksTransactionEvent::SmartContractEvent(d) => EventJson {
                kind: String::from_str("contract_event"),
                data: d.json_serialize(),
            },
            StacksTransactionEvent::STXEvent(STXEventType::STXTransferEvent(d)) => EventJson {
                kind: String::from_str("stx_transfer_event"),
                data: d.json_serialize(),
            },
            StacksTransactionEvent::STXEvent(STXEventType::STXMintEvent(d)) => EventJson {
                kind: String::from_str("stx_mint_event"),
                data: d.json_serialize(),
            },
            StacksTransactionEvent::STXEvent(STXEventType::STXBurnEvent(d)) => EventJson {
                kind: String::from_str("stx_burn_event"),
                data: d.json_serialize(),
            },
            StacksTransactionEvent::NFTEvent(NFTEventType::NFTTransferEvent(d)) => EventJson {
                kind: String::from_str("nft_transfer_event"),
                data: d.json_serialize(),
            },
            StacksTransactionEvent::NFTEvent(NFTEventType::NFTMintEvent(d)) => EventJson {
                kind: String::from_str("nft_mint_event"),
                data: d.json_serialize(),
            },
            StacksTransactionEvent::FTEvent(FTEventType::FTTransferEvent(d)) => EventJson {
                kind: String::from_str("ft_transfer_event"),
                data: d.json_serialize(),
            },
            StacksTransactionEvent::FTEvent(FTEventType::FTMintEvent(d)) => EventJson {
                kind: String::from_str("ft_mint_event"),
                data: d.json_serialize(),
            },
        }
    }
}

} // verus!
