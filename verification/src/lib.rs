//! Credentials and configuration aggregation for a blockchain node.
//!
//! The crate resolves signing credentials ("wallets") from optional
//! configuration sections, assembles the general configuration of a node from
//! the same sections, and maps schema documents to and from the values they
//! describe. Every function carries a contract that Verus proves.

pub mod crypto;
pub mod error;
pub mod genesis;
pub mod primitives;
pub mod proto;
pub mod proto_fmt;
pub mod temp_config_store;
pub mod wallets;
