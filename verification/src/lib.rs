//! Verified core of the Rayls execution layer: the native ERC-20 precompile,
//! its ABI and storage layout, and the decisions around block execution.

pub mod bytes;
pub mod uint;
pub mod address;
pub mod hash;
pub mod storage;
pub mod abi;
pub mod text;
pub mod errors;
pub mod state;
pub mod eip3009;
pub mod events;
pub mod precompile;
pub mod token_laws;
pub mod inspector;
pub mod persistence;
pub mod execution;
pub mod faucet;
pub mod genesis;
pub mod keyed;
pub mod system_contracts;
pub mod migrations;
pub mod node;
pub mod json_path;
pub mod faucet_cache;
pub mod inspector_laws;
