use vstd::prelude::*;

verus! {

/// The reasons for which the codec, the processor or the client refuse an
/// operation.
#[derive(Clone, Copy, Debug, PartialEq, Eq, Structural)]
pub enum Error {
    /// The record account is not owned by this program.
    IncorrectOwner,
    /// An account that has to co-sign the bundle did not.
    MissingSignature,
    /// The payload is not exactly as long as the account's storage.
    SizeMismatch,
    /// The bytes are not the encoding of an instruction.
    MalformedInstruction,
    /// The instruction names fewer accounts than its transition reads.
    NotEnoughAccountKeys,
    /// The payload is longer than the length prefix of the wire format can say.
    PayloadTooLarge,
    /// No account is stored under the address.
    NotFound,
    /// The account under the address holds no bytes.
    AccountEmpty,
    /// Stored bytes are not the encoding of the value asked for.
    DecodeError,
    /// The ledger refused the bundle.
    LedgerRejected,
}

} // verus!
