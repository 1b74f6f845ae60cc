//! What an editor is told about the source of a contract.

pub mod hover_data;
