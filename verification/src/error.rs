//! The failures that processing a block can meet.

use vstd::prelude::*;

verus! {

/// What went wrong, by kind. The first three fail the whole block; the next
/// two cost the transaction they occur in; the last costs one instruction.
#[derive(Clone, Copy, Debug, PartialEq, Eq, Structural)]
pub enum Error {
    /// The block carries no timestamp.
    MissingBlockTimestamp,
    /// A transaction carries no execution metadata.
    MissingTransactionMeta,
    /// A transaction carries no message.
    MissingMessage,
    /// An instruction refers to a position past the end of the resolved
    /// account list.
    UnresolvedAccountIndex,
    /// A table lookup selects a position past the end of the table's content.
    LookupIndexOutOfRange,
    /// An instruction's payload is shorter than the layout of its opcode.
    MalformedInstructionPayload,
}

} // verus!
