//! Error kinds of the governor.

use vstd::prelude::*;

verus! {

/// Why a payload could not be decoded.
#[derive(Clone, Copy, Debug, PartialEq, Eq, Structural)]
pub enum DecodeError {
    /// The leading byte is not the discriminant that the caller expects.
    InvalidPayloadId,
    /// The payload is empty, truncated, or longer than its fixed layout.
    LengthMismatch,
}

/// Why an operation of the governor was aborted.
#[derive(Clone, Copy, Debug, PartialEq, Eq, Structural)]
pub enum GovernorError {
    /// The foreign chain or authority is not acceptable, or an attestation
    /// does not come from the registered authority.
    InvalidForeignEmitter,
    /// The payload does not decode as the message that the entry point takes.
    InvalidMessage,
    /// An address inside the message differs from the account supplied for it.
    WrongAccount,
    /// An account holds another asset than the one expected of it.
    WrongTokenMint,
    /// The amount exceeds the source balance, or a counter would overflow.
    Overflow,
    /// The attestation's replay slot is already claimed.
    AlreadyProcessed,
}

impl GovernorError {
    /// Every decode failure surfaces as `InvalidMessage`.
    pub fn from_decode(e: DecodeError) -> (r: GovernorError)
        ensures
            r == GovernorError::InvalidMessage,
    {
        GovernorError::InvalidMessage
    }
}

} // verus!
