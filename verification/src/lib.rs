//! An account-based key-value store on a shared ledger: the wire format of
//! its instructions, the processor that applies them to record accounts, and
//! the client side that assembles the atomic bundles to submit.

pub mod account;
pub mod bundle;
pub mod client;
pub mod error;
pub mod instruction;
pub mod processor;
pub mod pubkey;
pub mod system;
