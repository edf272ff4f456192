use vstd::prelude::*;

verus! {

/// Why an operation of the engine failed. Every failure leaves the user's
/// state as it was.
#[derive(Clone, Copy, Debug, PartialEq, Eq, Structural)]
pub enum Error {
    /// No channel is registered, one is registered already, or the author's
    /// key is unknown.
    PreconditionUnmet,
    /// The message belongs to another channel.
    AddressMismatch,
    /// The message is of another kind than the operation expects.
    ContentTypeMismatch,
    /// A cursor, a key or a parent state that the operation needs is absent.
    StoreMiss,
    /// Authentication or decryption of the body failed.
    CryptoFailure,
    /// A header could not be built or read.
    EncodingError,
}

} // verus!
