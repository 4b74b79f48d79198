//! The errors that a hook invocation or a provisioning can end with.

use vstd::prelude::*;

verus! {

#[derive(Clone, Copy, Debug, PartialEq, Eq, Structural)]
pub enum HookError {
    /// The raw call could not be decoded, or names an operation this hook does
    /// not support.
    InvalidInstructionData,
    /// Any other error of the instruction decoder, as its numeric code.
    Program(u64),
    /// A holding account is not bound to the asset of the call.
    MintMismatch,
    /// The declared owner is not the authority recorded on the source account.
    OwnerMismatch,
    /// The metadata record is not at the address derived from the asset.
    MetadataAddressMismatch,
    /// The metadata record's address already holds an account.
    AccountAlreadyInitialized,
    /// The amount times the royalty percentage does not fit in a `u64`.
    ArithmeticOverflow,
}

} // verus!
