//! Event-ingestion core of a local blockchain development network: it turns
//! the node's notifications into standardized operations and domain events,
//! schedules contract deployments and prepares stacking submissions.

pub mod clarity;
pub mod dap;
pub mod integrate;
pub mod lsp;
pub mod text;
pub mod types;
