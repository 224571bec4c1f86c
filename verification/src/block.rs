//! The blocks that the library reads: plain values, as a host hands them over.

use crate::views::byte_seqs;
use vstd::prelude::*;

verus! {

/// One instruction, top-level or inner.
#[derive(Clone, Debug, PartialEq, Eq)]
pub struct CompiledInstruction {
    /// The position, in the resolved account list of the transaction, of the
    /// program that the instruction is for.
    pub program_id_index: u32,
    /// The positions, in the same list, of the accounts of the instruction.
    pub accounts: Vec<u8>,
    /// The opcode byte, then the payload.
    pub data: Vec<u8>,
}

/// The model of [`CompiledInstruction`].
pub struct CompiledInstructionView {
    pub program_id_index: u32,
    pub accounts: Seq<u8>,
    pub data: Seq<u8>,
}

impl View for CompiledInstruction {
    type V = CompiledInstructionView;

    open spec fn view(&self) -> CompiledInstructionView {
        CompiledInstructionView {
            program_id_index: self.program_id_index,
            accounts: self.accounts@,
            data: self.data@,
        }
    }
}

impl DeepView for CompiledInstruction {
    type V = CompiledInstructionView;

    open spec fn deep_view(&self) -> CompiledInstructionView {
        self@
    }
}

/// The instructions that one top-level instruction invoked, in the order of
/// the execution trace.
#[derive(Clone, Debug, PartialEq, Eq)]
pub struct InnerInstructions {
    /// The position, in the message, of the top-level instruction.
    pub index: u32,
    pub instructions: Vec<CompiledInstruction>,
}

/// The model of [`InnerInstructions`].
pub struct InnerInstructionsView {
    pub index: u32,
    pub instructions: Seq<CompiledInstructionView>,
}

impl View for InnerInstructions {
    type V = InnerInstructionsView;

    open spec fn view(&self) -> InnerInstructionsView {
        InnerInstructionsView { index: self.index, instructions: self.instructions.deep_view() }
    }
}

impl DeepView for InnerInstructions {
    type V = InnerInstructionsView;

    open spec fn deep_view(&self) -> InnerInstructionsView {
        self@
    }
}

/// What the execution of a transaction left behind.
#[derive(Clone, Debug, PartialEq, Eq)]
pub struct TransactionStatusMeta {
    pub inner_instructions: Vec<InnerInstructions>,
}

/// The model of [`TransactionStatusMeta`].
pub struct TransactionStatusMetaView {
    pub inner_instructions: Seq<InnerInstructionsView>,
}

impl View for TransactionStatusMeta {
    type V = TransactionStatusMetaView;

    open spec fn view(&self) -> TransactionStatusMetaView {
        TransactionStatusMetaView { inner_instructions: self.inner_instructions.deep_view() }
    }
}

/// One use of an address lookup table, with the positions that the
/// transaction takes from it.
#[derive(Clone, Debug, PartialEq, Eq)]
pub struct MessageAddressTableLookup {
    /// The address of the table.
    pub account_key: Vec<u8>,
    pub writable_indexes: Vec<u8>,
    pub readonly_indexes: Vec<u8>,
}

/// The model of [`MessageAddressTableLookup`].
pub struct MessageAddressTableLookupView {
    pub account_key: Seq<u8>,
    pub writable_indexes: Seq<u8>,
    pub readonly_indexes: Seq<u8>,
}

impl View for MessageAddressTableLookup {
    type V = MessageAddressTableLookupView;

    open spec fn view(&self) -> MessageAddressTableLookupView {
        MessageAddressTableLookupView {
            account_key: self.account_key@,
            writable_indexes: self.writable_indexes@,
            readonly_indexes: self.readonly_indexes@,
        }
    }
}

impl DeepView for MessageAddressTableLookup {
    type V = MessageAddressTableLookupView;

    open spec fn deep_view(&self) -> MessageAddressTableLookupView {
        self@
    }
}

/// The message of a transaction.
#[derive(Clone, Debug, PartialEq, Eq)]
pub struct Message {
    /// The static accounts, as raw addresses.
    pub account_keys: Vec<Vec<u8>>,
    pub address_table_lookups: Vec<MessageAddressTableLookup>,
    /// The top-level instructions.
    pub instructions: Vec<CompiledInstruction>,
}

/// The model of [`Message`].
pub struct MessageView {
    pub account_keys: Seq<Seq<u8>>,
    pub address_table_lookups: Seq<MessageAddressTableLookupView>,
    pub instructions: Seq<CompiledInstructionView>,
}

impl View for Message {
    type V = MessageView;

    open spec fn view(&self) -> MessageView {
        MessageView {
            account_keys: byte_seqs(self.account_keys@),
            address_table_lookups: self.address_table_lookups.deep_view(),
            instructions: self.instructions.deep_view(),
        }
    }
}

/// A transaction as it was signed.
#[derive(Clone, Debug, PartialEq, Eq)]
pub struct Transaction {
    /// The signatures, as raw bytes. The first one identifies the
    /// transaction.
    pub signatures: Vec<Vec<u8>>,
    pub message: Option<Message>,
}

/// The model of [`Transaction`].
pub struct TransactionView {
    pub signatures: Seq<Seq<u8>>,
    pub message: Option<MessageView>,
}

impl View for Transaction {
    type V = TransactionView;

    open spec fn view(&self) -> TransactionView {
        TransactionView {
            signatures: byte_seqs(self.signatures@),
            message: match self.message {
                Some(m) => Some(m@),
                None => None,
            },
        }
    }
}

/// A transaction as the block holds it: what was signed and what its
/// execution left behind.
#[derive(Clone, Debug, PartialEq, Eq)]
pub struct ConfirmedTransaction {
    pub transaction: Option<Transaction>,
    pub meta: Option<TransactionStatusMeta>,
}

/// The model of [`ConfirmedTransaction`].
pub struct ConfirmedTransactionView {
    pub transaction: Option<TransactionView>,
    pub meta: Option<TransactionStatusMetaView>,
}

impl View for ConfirmedTransaction {
    type V = ConfirmedTransactionView;

    open spec fn view(&self) -> ConfirmedTransactionView {
        ConfirmedTransactionView {
            transaction: match self.transaction {
                Some(t) => Some(t@),
                None => None,
            },
            meta: match self.meta {
                Some(m) => Some(m@),
                None => None,
            },
        }
    }
}

impl DeepView for ConfirmedTransaction {
    type V = ConfirmedTransactionView;

    open spec fn deep_view(&self) -> ConfirmedTransactionView {
        self@
    }
}

/// A block.
#[derive(Clone, Debug, PartialEq, Eq)]
pub struct Block {
    pub slot: u64,
    pub parent_slot: u64,
    /// The time of the block, in seconds since the epoch.
    pub block_time: Option<i64>,
    pub transactions: Vec<ConfirmedTransaction>,
}

/// The model of [`Block`].
pub struct BlockView {
    pub slot: u64,
    pub parent_slot: u64,
    pub block_time: Option<i64>,
    pub transactions: Seq<ConfirmedTransactionView>,
}

impl View for Block {
    type V = BlockView;

    open spec fn view(&self) -> BlockView {
        BlockView {
            slot: self.slot,
            parent_slot: self.parent_slot,
            block_time: self.block_time,
            transactions: self.transactions.deep_view(),
        }
    }
}

} // verus!
