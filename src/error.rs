use vstd::prelude::*;

verus! {

/// Why an instruction of the token manager was refused.
#[derive(Clone, Copy, Debug, PartialEq, Eq, Structural)]
pub enum TokenManagerError {
    /// No share was issued under the instrument code.
    TokenNotFound,
    /// The wallet is not on the whitelist of the share.
    WalletNotFound,
    /// The receiving wallet is not on the whitelist of the share.
    TransferNotAllowed,
    /// The account sizes that a transfer-hooked mint needs could not be
    /// computed.
    TransferHookInitFailed,
    /// No program-derived address exists for the account seeds.
    InvalidTokenAccount,
    /// The instrument code is not exactly twelve bytes long.
    InvalidIsinLength,
    /// The signer is not the creator of the token manager.
    Unauthorized,
    /// The issuance counter is at its largest value.
    IndexOverflow,
    /// The whitelist holds as many entries as it can.
    WhitelistFull,
    /// The registry holds as many shares as it can.
    CapacityExceeded,
    /// A share was already issued under the instrument code.
    DuplicateIsin,
}

impl TokenManagerError {
    /// The message that goes with the error.
    pub fn message(&self) -> (r: &'static str) {
        match self {
            TokenManagerError::TokenNotFound => "Token not found",
            TokenManagerError::WalletNotFound => "Wallet not found",
            TokenManagerError::TransferNotAllowed => "Transfer not allowed",
            TokenManagerError::TransferHookInitFailed => "Failed to initialize transfer hook",
            TokenManagerError::InvalidTokenAccount => "Invalid token account",
            TokenManagerError::InvalidIsinLength => "Invalid ISIN length",
            TokenManagerError::Unauthorized => "Unauthorized operation",
            TokenManagerError::IndexOverflow => "Index overflow",
            TokenManagerError::WhitelistFull => "Whitelist is full",
            TokenManagerError::CapacityExceeded => "Token capacity exceeded",
            TokenManagerError::DuplicateIsin => "A token was already issued for this ISIN",
        }
    }
}

} // verus!
