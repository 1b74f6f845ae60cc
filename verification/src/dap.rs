//! The debugger of contracts, as an editor drives it.

pub mod wasm_bridge;
