//! What the interpreter of the node reports of the transactions it runs.

pub mod events;
