use vstd::prelude::*;

verus! {

/// The failure kinds an escrow lifecycle operation can report.
///
/// Every operation checks all of its preconditions before mutating
/// anything, so an error always means that no state changed.
#[derive(Clone, Copy, Debug, PartialEq, Eq, Structural)]
pub enum EscrowError {
    /// The escrow record has already been opened (or was terminated and
    /// can never be reused).
    AlreadyInitialized,
    /// The required signer did not sign the request.
    MissingSignature,
    /// The seller's asset account does not hold exactly one unit of the asset.
    InvalidAssetQuantity,
    /// The buyer's available funds do not cover the offered payment.
    InsufficientFunds,
    /// The offered payment is not exactly the asking price.
    PriceMismatch,
    /// A supplied account does not match what the escrow record references,
    /// or no custodian capability exists for the parties involved.
    InvalidAccountBinding,
    /// The caller is not the seller who opened the escrow.
    Unauthorized,
    /// A computation would not fit in 64 bits.
    ArithmeticOverflow,
}

} // verus!
