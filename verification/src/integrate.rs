//! What the observer does with the node's notifications, and the domain
//! events that it publishes for whoever presents them.

pub mod blocks;
pub mod currency;
pub mod deployment;
pub mod describe;
pub mod endpoints;
pub mod events_observer;
pub mod lifecycle;
pub mod operations;
pub mod stacking;

use vstd::prelude::*;
use crate::types::{BitcoinBlockData, BitcoinBlockDataView, StacksBlockData, StacksBlockDataView};

verus! {

/// How a service of the network fares.
#[derive(Clone, Copy, Debug, PartialEq, Eq, Structural)]
pub enum Status {
    Red,
    Yellow,
    Green,
}

/// The state of one service of the network.
#[derive(Clone, Debug, PartialEq, Eq)]
pub struct ServiceStatusData {
    pub order: u8,
    pub status: Status,
    pub name: String,
    pub comment: String,
}

/// The view of [`ServiceStatusData`].
pub struct ServiceStatusDataView {
    pub order: u8,
    pub status: Status,
    pub name: Seq<char>,
    pub comment: Seq<char>,
}

impl View for ServiceStatusData {
    type V = ServiceStatusDataView;

    open spec fn view(&self) -> ServiceStatusDataView {
        ServiceStatusDataView {
            order: self.order,
            status: self.status,
            name: self.name@,
            comment: self.comment@,
        }
    }
}

/// A transaction that the node admitted to its mempool, described.
#[derive(Clone, Debug, PartialEq, Eq)]
pub struct MempoolAdmissionData {
    pub tx: String,
}

/// What the observer publishes. Nothing is kept of an event once it is sent.
#[derive(Clone, Debug, PartialEq, Eq)]
pub enum DevnetEvent {
    Info(String),
    Success(String),
    Debug(String),
    Error(String),
    ServiceStatus(ServiceStatusData),
    BitcoinBlock(BitcoinBlockData),
    StacksBlock(StacksBlockData),
    MempoolAdmission(MempoolAdmissionData),
}

/// The view of [`DevnetEvent`].
pub enum DevnetEventView {
    Info(Seq<char>),
    Success(Seq<char>),
    Debug(Seq<char>),
    Error(Seq<char>),
    ServiceStatus(ServiceStatusDataView),
    BitcoinBlock(BitcoinBlockDataView),
    StacksBlock(StacksBlockDataView),
    MempoolAdmission(Seq<char>),
}

impl View for DevnetEvent {
    type V = DevnetEventView;

    open spec fn view(&self) -> DevnetEventView {
        match *self {
            DevnetEvent::Info(message) => DevnetEventView::Info(message@),
            DevnetEvent::Success(message) => DevnetEventView::Success(message@),
            DevnetEvent::Debug(message) => DevnetEventView::Debug(message@),
            DevnetEvent::Error(message) => DevnetEventView::Error(message@),
            DevnetEvent::ServiceStatus(data) => DevnetEventView::ServiceStatus(data@),
            DevnetEvent::BitcoinBlock(data) => DevnetEventView::BitcoinBlock(data@),
            DevnetEvent::StacksBlock(data) => DevnetEventView::StacksBlock(data@),
            DevnetEvent::MempoolAdmission(data) => DevnetEventView::MempoolAdmission(data.tx@),
        }
    }
}

impl DevnetEvent {
    /// An event that tells something.
    pub fn info(message: String) -> (r: DevnetEvent)
        ensures
            r@ == DevnetEventView::Info(message@),
    {
        DevnetEvent::Info(message)
    }

    /// An event that tells of something that went well.
    pub fn success(message: String) -> (r: DevnetEvent)
        ensures
            r@ == DevnetEventView::Success(message@),
    {
        DevnetEvent::Success(message)
    }

    /// An event for whoever looks for a fault.
    pub fn debug(message: String) -> (r: DevnetEvent)
        ensures
            r@ == DevnetEventView::Debug(message@),
    {
        DevnetEvent::Debug(message)
    }

    /// An event that tells of a failure.
    pub fn error(message: String) -> (r: DevnetEvent)
        ensures
            r@ == DevnetEventView::Error(message@),
    {
        DevnetEvent::Error(message)
    }
}

/// The views of a sequence of events.
pub open spec fn events_view(events: Seq<DevnetEvent>) -> Seq<DevnetEventView> {
    events.map_values(|e: DevnetEvent| e@)
}

} // verus!
