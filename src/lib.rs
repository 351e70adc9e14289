//! Issuance registry and transfer whitelist for share tokens bound to
//! instrument codes.
//!
//! A token manager, owned by its creator, issues one mint per instrument
//! code at an address derived from the manager and a counter, and keeps a
//! whitelist of the wallets that may receive each share's tokens. The
//! transfer hook accepts a transfer exactly when the receiving wallet is on
//! the whitelist for the mint.

pub mod address;
pub mod error;
pub mod state;
pub mod runtime;
pub mod pda;
pub mod metadata;
pub mod instructions;
pub mod laws;
