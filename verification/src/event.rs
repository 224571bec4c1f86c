//! What the library gives back for a block: one event per instruction of the
//! token program, and a note for whatever it had to pass over.

use crate::args::{Arg, ArgView};
use crate::error::Error;
use crate::roles::{Accounts, AccountsView};
use vstd::prelude::*;

verus! {

/// The event of one instruction of the token program.
#[derive(Clone, Debug, PartialEq, Eq)]
pub struct SplTokenMeta {
    /// The calendar date of the block.
    pub block_date: String,
    /// The time of the block, in seconds since the epoch.
    pub block_time: i64,
    /// The first signature of the transaction, in base58.
    pub tx_id: String,
    /// The address of the token program.
    pub dapp: String,
    pub block_slot: u64,
    pub instruction_index: u32,
    pub is_inner_instruction: bool,
    pub inner_instruction_index: u32,
    pub instruction_type: String,
    pub input_accounts: Accounts,
    pub args: Arg,
}

/// The model of [`SplTokenMeta`].
pub struct SplTokenMetaView {
    pub block_date: Seq<char>,
    pub block_time: i64,
    pub tx_id: Seq<char>,
    pub dapp: Seq<char>,
    pub block_slot: u64,
    pub instruction_index: u32,
    pub is_inner_instruction: bool,
    pub inner_instruction_index: u32,
    pub instruction_type: Seq<char>,
    pub input_accounts: AccountsView,
    pub args: ArgView,
}

impl View for SplTokenMeta {
    type V = SplTokenMetaView;

    open spec fn view(&self) -> SplTokenMetaView {
        SplTokenMetaView {
            block_date: self.block_date@,
            block_time: self.block_time,
            tx_id: self.tx_id@,
            dapp: self.dapp@,
            block_slot: self.block_slot,
            instruction_index: self.instruction_index,
            is_inner_instruction: self.is_inner_instruction,
            inner_instruction_index: self.inner_instruction_index,
            instruction_type: self.instruction_type@,
            input_accounts: self.input_accounts@,
            args: self.args@,
        }
    }
}

impl DeepView for SplTokenMeta {
    type V = SplTokenMetaView;

    open spec fn deep_view(&self) -> SplTokenMetaView {
        self@
    }
}

/// A note of something that was passed over: a whole transaction, for
/// `UnresolvedAccountIndex` and `LookupIndexOutOfRange`; one instruction, for
/// `MalformedInstructionPayload`.
#[derive(Clone, Copy, Debug, PartialEq, Eq, Structural)]
pub struct Diagnostic {
    /// The position of the transaction in the block.
    pub transaction: usize,
    pub error: Error,
}

/// The events of a block, in order, and the notes taken on the way.
#[derive(Clone, Debug, PartialEq, Eq)]
pub struct Output {
    pub data: Vec<SplTokenMeta>,
    pub diagnostics: Vec<Diagnostic>,
}

/// The model of [`Output`].
pub struct OutputView {
    pub data: Seq<SplTokenMetaView>,
    pub diagnostics: Seq<Diagnostic>,
}

impl View for Output {
    type V = OutputView;

    open spec fn view(&self) -> OutputView {
        OutputView { data: self.data.deep_view(), diagnostics: self.diagnostics@ }
    }
}

impl OutputView {
    /// No event and no note.
    pub open spec fn empty() -> OutputView {
        OutputView { data: Seq::empty(), diagnostics: Seq::empty() }
    }

    /// This output, then `other`.
    pub open spec fn followed_by(self, other: OutputView) -> OutputView {
        OutputView {
            data: self.data + other.data,
            diagnostics: self.diagnostics + other.diagnostics,
        }
    }
}

impl Output {
    /// No event and no note.
    pub fn new() -> (output: Output)
        ensures
            output@ == OutputView::empty(),
    {
        let output = Output { data: Vec::new(), diagnostics: Vec::new() };
        assert(output.data.deep_view() =~= Seq::<SplTokenMetaView>::empty());
        output
    }
}

} // verus!
