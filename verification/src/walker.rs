//! The block walker: from a block to its events.
//!
//! The transactions of the block are walked in order; in each, the top-level
//! instructions in the order of the message; after each top-level
//! instruction, the instructions that it invoked, group after group and in
//! the order of the trace. Every instruction whose program is the token
//! program gives one event.

use crate::base58::{base58_text, encode};
use crate::block::{
    Block, BlockView, CompiledInstruction, CompiledInstructionView, ConfirmedTransactionView,
    InnerInstructions, InnerInstructionsView, Message, MessageView, TransactionStatusMeta,
};
use crate::date::{convert_to_date, timestamp_date_text};
use crate::error::Error;
use crate::event::{Diagnostic, Output, OutputView, SplTokenMeta, SplTokenMetaView};
use crate::outer_arg::{outer_arg_spec, read_outer_arg, OuterArgView};
use crate::repository::LookupRepository;
use crate::resolver::{resolve, resolve_spec};
use crate::views::{byte_seqs, lemma_deep_view_add, lemma_deep_view_push};
use vstd::prelude::*;
use vstd::string::*;

verus! {

/// The address of the token program, in display form.
pub const PROGRAM_ADDRESS: &'static str = "TokenkegQfeZyiNwAJbNbGKPFXCWuBvf9Ss623VQ5DA";

/// How the slot and the two instruction indexes of an event are numbered.
#[derive(Clone, Copy, Debug, PartialEq, Eq, Structural)]
pub enum Numbering {
    /// The numbering that the consumers of the events rely on. The slot of a
    /// top-level event is the parent slot of the block, that of an inner
    /// event the parent slot plus one. The instruction index is the program
    /// index of the top-level instruction, and the inner instruction index
    /// the program index of the inner instruction.
    Compatible,
    /// The slot is the slot of the block. The instruction index is the
    /// position of the top-level instruction in the message, and the inner
    /// instruction index the position of the inner instruction in its
    /// group. A position that does not fit in 32 bits is given as
    /// `u32::MAX`.
    Positional,
}

/// What the events of one block have in common.
#[derive(Clone, Debug, PartialEq, Eq)]
pub struct BlockFrame {
    pub block_date: String,
    pub block_time: i64,
    pub slot: u64,
    pub parent_slot: u64,
    pub numbering: Numbering,
}

/// The model of [`BlockFrame`].
pub struct BlockFrameView {
    pub block_date: Seq<char>,
    pub block_time: i64,
    pub slot: u64,
    pub parent_slot: u64,
    pub numbering: Numbering,
}

impl View for BlockFrame {
    type V = BlockFrameView;

    open spec fn view(&self) -> BlockFrameView {
        BlockFrameView {
            block_date: self.block_date@,
            block_time: self.block_time,
            slot: self.slot,
            parent_slot: self.parent_slot,
            numbering: self.numbering,
        }
    }
}

impl BlockFrameView {
    /// The compatible numbering adds one to the parent slot, which must have
    /// room for it.
    pub open spec fn wf(self) -> bool {
        self.numbering == Numbering::Compatible ==> self.parent_slot < u64::MAX
    }
}

/// What the events of one transaction have in common.
#[derive(Clone, Debug, PartialEq, Eq)]
pub struct TransactionFrame {
    /// The position of the transaction in the block.
    pub index: usize,
    /// The identifier of the transaction.
    pub id: String,
    /// The resolved account list.
    pub accounts: Vec<String>,
}

/// The model of [`TransactionFrame`].
pub struct TransactionFrameView {
    pub index: usize,
    pub id: Seq<char>,
    pub accounts: Seq<Seq<char>>,
}

impl View for TransactionFrame {
    type V = TransactionFrameView;

    open spec fn view(&self) -> TransactionFrameView {
        TransactionFrameView {
            index: self.index,
            id: self.id@,
            accounts: self.accounts.deep_view(),
        }
    }
}

/// What visiting one instruction comes to.
pub enum Visit {
    /// The instruction is for another program.
    Inert,
    /// The instruction is for the token program and its data is malformed.
    Malformed,
    /// The instruction refers to an account that the transaction does not
    /// have.
    Unresolved,
    /// The instruction gives this event.
    Event(SplTokenMetaView),
}

/// A position as an index of 32 bits.
pub open spec fn position_index(position: int) -> u32 {
    if position <= u32::MAX {
        position as u32
    } else {
        u32::MAX
    }
}

/// The identifier of a transaction: its first signature in base58, and the
/// empty text where it has no signature.
pub open spec fn tx_id_text(signatures: Seq<Seq<u8>>) -> Seq<char> {
    if signatures.len() > 0 {
        base58_text(signatures[0])
    } else {
        Seq::empty()
    }
}

/// Whether the program of `instruction` is the token program, in a
/// transaction with these accounts.
pub open spec fn is_target(accounts: Seq<Seq<char>>, instruction: CompiledInstructionView) -> bool {
    instruction.program_id_index < accounts.len() && accounts[instruction.program_id_index as int]
        == PROGRAM_ADDRESS@
}

/// The event of an instruction of the token program. `top` is the top-level
/// instruction at `top_position`; `inner` is the position in its group of
/// the instruction that the event is for, or `None` where that instruction
/// is `top` itself.
pub open spec fn event_of(
    block: BlockFrameView,
    tx: TransactionFrameView,
    top: CompiledInstructionView,
    top_position: int,
    instruction: CompiledInstructionView,
    inner: Option<int>,
    outer: OuterArgView,
) -> SplTokenMetaView {
    SplTokenMetaView {
        block_date: block.block_date,
        block_time: block.block_time,
        tx_id: tx.id,
        dapp: PROGRAM_ADDRESS@,
        block_slot: match block.numbering {
            Numbering::Compatible => if inner is Some {
                (block.parent_slot + 1) as u64
            } else {
                block.parent_slot
            },
            Numbering::Positional => block.slot,
        },
        instruction_index: match block.numbering {
            Numbering::Compatible => top.program_id_index,
            Numbering::Positional => position_index(top_position),
        },
        is_inner_instruction: inner is Some,
        inner_instruction_index: match inner {
            Some(position) => match block.numbering {
                Numbering::Compatible => instruction.program_id_index,
                Numbering::Positional => position_index(position),
            },
            None => 0,
        },
        instruction_type: outer.instruction_type,
        input_accounts: outer.input_accounts,
        args: outer.arg,
    }
}

/// What visiting `instruction` comes to.
pub open spec fn visit(
    block: BlockFrameView,
    tx: TransactionFrameView,
    top: CompiledInstructionView,
    top_position: int,
    instruction: CompiledInstructionView,
    inner: Option<int>,
) -> Visit {
    if instruction.program_id_index >= tx.accounts.len() {
        Visit::Unresolved
    } else if !is_target(tx.accounts, instruction) {
        Visit::Inert
    } else {
        match outer_arg_spec(instruction.data, instruction.accounts, tx.accounts) {
            Ok(outer) => Visit::Event(
                event_of(block, tx, top, top_position, instruction, inner, outer),
            ),
            Err(Error::UnresolvedAccountIndex) => Visit::Unresolved,
            Err(_) => Visit::Malformed,
        }
    }
}

/// The output once a visit is recorded, or `None` where the visit ends the
/// transaction.
pub open spec fn record(out: OutputView, transaction: usize, visit: Visit) -> Option<OutputView> {
    match visit {
        Visit::Inert => Some(out),
        Visit::Malformed => Some(
            OutputView {
                diagnostics: out.diagnostics.push(
                    Diagnostic { transaction, error: Error::MalformedInstructionPayload },
                ),
                ..out
            },
        ),
        Visit::Unresolved => None,
        Visit::Event(event) => Some(OutputView { data: out.data.push(event), ..out }),
    }
}

/// The output once the first `n` instructions of a group are visited,
/// starting from `out`.
pub open spec fn walk_inner(
    block: BlockFrameView,
    tx: TransactionFrameView,
    top: CompiledInstructionView,
    top_position: int,
    instructions: Seq<CompiledInstructionView>,
    n: nat,
    out: OutputView,
) -> Option<OutputView>
    decreases n,
{
    if n == 0 {
        Some(out)
    } else {
        match walk_inner(block, tx, top, top_position, instructions, (n - 1) as nat, out) {
            None => None,
            Some(so_far) => record(
                so_far,
                tx.index,
                visit(block, tx, top, top_position, instructions[n - 1], Some(n - 1)),
            ),
        }
    }
}

/// The output once the first `n` groups are gone through, starting from
/// `out`: the groups of the top-level instruction at `top_position` are
/// walked, the others are passed by.
pub open spec fn walk_groups(
    block: BlockFrameView,
    tx: TransactionFrameView,
    top: CompiledInstructionView,
    top_position: int,
    groups: Seq<InnerInstructionsView>,
    n: nat,
    out: OutputView,
) -> Option<OutputView>
    decreases n,
{
    if n == 0 {
        Some(out)
    } else {
        match walk_groups(block, tx, top, top_position, groups, (n - 1) as nat, out) {
            None => None,
            Some(so_far) => if groups[n - 1].index == top_position {
                walk_inner(
                    block,
                    tx,
                    top,
                    top_position,
                    groups[n - 1].instructions,
                    groups[n - 1].instructions.len(),
                    so_far,
                )
            } else {
                Some(so_far)
            },
        }
    }
}

/// The output once the first `n` top-level instructions are visited, each
/// followed by the instructions that it invoked, starting from `out`.
pub open spec fn walk_top(
    block: BlockFrameView,
    tx: TransactionFrameView,
    instructions: Seq<CompiledInstructionView>,
    groups: Seq<InnerInstructionsView>,
    n: nat,
    out: OutputView,
) -> Option<OutputView>
    decreases n,
{
    if n == 0 {
        Some(out)
    } else {
        match walk_top(block, tx, instructions, groups, (n - 1) as nat, out) {
            None => None,
            Some(so_far) => match record(
                so_far,
                tx.index,
                visit(block, tx, instructions[n - 1], n - 1, instructions[n - 1], None),
            ) {
                None => None,
                Some(with_top) => walk_groups(
                    block,
                    tx,
                    instructions[n - 1],
                    n - 1,
                    groups,
                    groups.len(),
                    with_top,
                ),
            },
        }
    }
}

/// The output of one transaction, or the failure that costs the
/// transaction: that of resolving its accounts, or `UnresolvedAccountIndex`
/// where an instruction refers to an account that it does not have.
pub open spec fn walk_transaction(
    block: BlockFrameView,
    index: usize,
    signatures: Seq<Seq<u8>>,
    message: MessageView,
    groups: Seq<InnerInstructionsView>,
    repository: Map<Seq<char>, Seq<Seq<char>>>,
) -> Result<OutputView, Error> {
    match resolve_spec(message, repository) {
        Err(e) => Err(e),
        Ok(accounts) => {
            let tx = TransactionFrameView { index, id: tx_id_text(signatures), accounts };
            match walk_top(
                block,
                tx,
                message.instructions,
                groups,
                message.instructions.len(),
                OutputView::empty(),
            ) {
                Some(out) => Ok(out),
                None => Err(Error::UnresolvedAccountIndex),
            }
        },
    }
}

/// The output once the transaction at `index` is added to `out`, or the
/// failure that costs the block.
///
/// An entry without a transaction is passed by. A transaction without
/// metadata fails the block, and so does one without a message. A
/// transaction that fails leaves a note and nothing else.
pub open spec fn add_transaction(
    block: BlockFrameView,
    index: usize,
    confirmed: ConfirmedTransactionView,
    repository: Map<Seq<char>, Seq<Seq<char>>>,
    out: OutputView,
) -> Result<OutputView, Error> {
    match confirmed.transaction {
        None => Ok(out),
        Some(transaction) => match confirmed.meta {
            None => Err(Error::MissingTransactionMeta),
            Some(meta) => match transaction.message {
                None => Err(Error::MissingMessage),
                Some(message) => match walk_transaction(
                    block,
                    index,
                    transaction.signatures,
                    message,
                    meta.inner_instructions,
                    repository,
                ) {
                    Ok(added) => Ok(out.followed_by(added)),
                    Err(error) => Ok(
                        OutputView {
                            diagnostics: out.diagnostics.push(
                                Diagnostic { transaction: index, error },
                            ),
                            ..out
                        },
                    ),
                },
            },
        },
    }
}

/// The output once the first `n` transactions are walked.
pub open spec fn walk_transactions(
    block: BlockFrameView,
    transactions: Seq<ConfirmedTransactionView>,
    repository: Map<Seq<char>, Seq<Seq<char>>>,
    n: nat,
) -> Result<OutputView, Error>
    decreases n,
{
    if n == 0 {
        Ok(OutputView::empty())
    } else {
        match walk_transactions(block, transactions, repository, (n - 1) as nat) {
            Err(e) => Err(e),
            Ok(so_far) => add_transaction(
                block,
                (n - 1) as usize,
                transactions[n - 1],
                repository,
                so_far,
            ),
        }
    }
}

/// What every event of `block` repeats, or `None` where the block has no
/// timestamp.
pub open spec fn frame_of(block: BlockView, block_date: Seq<char>, numbering: Numbering) -> Option<
    BlockFrameView,
> {
    match block.block_time {
        Some(block_time) => Some(
            BlockFrameView {
                block_date,
                block_time,
                slot: block.slot,
                parent_slot: block.parent_slot,
                numbering,
            },
        ),
        None => None,
    }
}

/// The output of a block, or the failure that costs the block:
/// `MissingBlockTimestamp`, or else that of the first transaction without
/// metadata or without a message.
pub open spec fn walk_block_spec(
    block: BlockView,
    block_date: Seq<char>,
    repository: Map<Seq<char>, Seq<Seq<char>>>,
    numbering: Numbering,
) -> Result<OutputView, Error> {
    match frame_of(block, block_date, numbering) {
        None => Err(Error::MissingBlockTimestamp),
        Some(frame) => walk_transactions(
            frame,
            block.transactions,
            repository,
            block.transactions.len(),
        ),
    }
}

/// Whether `found` is the outcome that `want` describes.
pub open spec fn output_matches(
    found: Result<Output, Error>,
    want: Result<OutputView, Error>,
) -> bool {
    match want {
        Ok(view) => found matches Ok(output) && output@ == view,
        Err(e) => found == Err::<Output, Error>(e),
    }
}

/// The model of an optional position.
pub open spec fn position_view(position: Option<usize>) -> Option<int> {
    match position {
        Some(p) => Some(p as int),
        None => None,
    }
}

/// Once a group has failed, it stays failed.
proof fn lemma_walk_inner_fails(
    block: BlockFrameView,
    tx: TransactionFrameView,
    top: CompiledInstructionView,
    top_position: int,
    instructions: Seq<CompiledInstructionView>,
    i: nat,
    n: nat,
    out: OutputView,
)
    requires
        i <= n,
        walk_inner(block, tx, top, top_position, instructions, i, out) is None,
    ensures
        walk_inner(block, tx, top, top_position, instructions, n, out) is None,
    decreases n,
{
    if i < n {
        lemma_walk_inner_fails(block, tx, top, top_position, instructions, i, (n - 1) as nat, out);
    }
}

/// Once the groups have failed, they stay failed.
proof fn lemma_walk_groups_fails(
    block: BlockFrameView,
    tx: TransactionFrameView,
    top: CompiledInstructionView,
    top_position: int,
    groups: Seq<InnerInstructionsView>,
    i: nat,
    n: nat,
    out: OutputView,
)
    requires
        i <= n,
        walk_groups(block, tx, top, top_position, groups, i, out) is None,
    ensures
        walk_groups(block, tx, top, top_position, groups, n, out) is None,
    decreases n,
{
    if i < n {
        lemma_walk_groups_fails(block, tx, top, top_position, groups, i, (n - 1) as nat, out);
    }
}

/// Once the top-level instructions have failed, they stay failed.
proof fn lemma_walk_top_fails(
    block: BlockFrameView,
    tx: TransactionFrameView,
    instructions: Seq<CompiledInstructionView>,
    groups: Seq<InnerInstructionsView>,
    i: nat,
    n: nat,
    out: OutputView,
)
    requires
        i <= n,
        walk_top(block, tx, instructions, groups, i, out) is None,
    ensures
        walk_top(block, tx, instructions, groups, n, out) is None,
    decreases n,
{
    if i < n {
        lemma_walk_top_fails(block, tx, instructions, groups, i, (n - 1) as nat, out);
    }
}

/// Once the block has failed, it stays failed, with the same failure.
proof fn lemma_walk_transactions_fails(
    block: BlockFrameView,
    transactions: Seq<ConfirmedTransactionView>,
    repository: Map<Seq<char>, Seq<Seq<char>>>,
    i: nat,
    n: nat,
)
    requires
        i <= n,
        walk_transactions(block, transactions, repository, i) is Err,
    ensures
        walk_transactions(block, transactions, repository, n) == walk_transactions(
            block,
            transactions,
            repository,
            i,
        ),
    decreases n,
{
    if i < n {
        lemma_walk_transactions_fails(block, transactions, repository, i, (n - 1) as nat);
    }
}

/// A position as an index of 32 bits.
fn position_index_of(position: usize) -> (index: u32)
    ensures
        index == position_index(position as int),
{
    if position <= u32::MAX as usize {
        position as u32
    } else {
        u32::MAX
    }
}

/// The identifier of a transaction.
pub fn tx_id(signatures: &Vec<Vec<u8>>) -> (id: String)
    ensures
        id@ == tx_id_text(byte_seqs(signatures@)),
{
    if signatures.len() > 0 {
        encode(signatures[0].as_slice())
    } else {
        String::new()
    }
}

/// Visits one instruction and records what comes of it. Returns `false`
/// where the visit ends the transaction.
fn visit_instruction(
    block: &BlockFrame,
    tx: &TransactionFrame,
    top: &CompiledInstruction,
    top_position: usize,
    instruction: &CompiledInstruction,
    inner: Option<usize>,
    out: &mut Output,
) -> (ok: bool)
    requires
        block@.wf(),
    ensures
        match record(
            old(out)@,
            tx.index,
            visit(block@, tx@, top@, top_position as int, instruction@, position_view(inner)),
        ) {
            Some(view) => ok && final(out)@ == view,
            None => !ok,
        },
{
    let program_index = instruction.program_id_index as usize;
    if program_index >= tx.accounts.len() {
        return false;
    }
    let program = String::from_str(PROGRAM_ADDRESS);
    if !(tx.accounts[program_index] == program) {
        return true;
    }
    match read_outer_arg(instruction.data.as_slice(), &instruction.accounts, &tx.accounts) {
        Ok(outer) => {
            let block_slot = match block.numbering {
                Numbering::Compatible => if inner.is_some() {
                    block.parent_slot + 1
                } else {
                    block.parent_slot
                },
                Numbering::Positional => block.slot,
            };
            let instruction_index = match block.numbering {
                Numbering::Compatible => top.program_id_index,
                Numbering::Positional => position_index_of(top_position),
            };
            let inner_instruction_index = match inner {
                Some(position) => match block.numbering {
                    Numbering::Compatible => instruction.program_id_index,
                    Numbering::Positional => position_index_of(position),
                },
                None => 0,
            };
            let event = SplTokenMeta {
                block_date: block.block_date.clone(),
                block_time: block.block_time,
                tx_id: tx.id.clone(),
                dapp: program,
                block_slot,
                instruction_index,
                is_inner_instruction: inner.is_some(),
                inner_instruction_index,
                instruction_type: outer.instruction_type,
                input_accounts: outer.input_accounts,
                args: outer.arg,
            };
            let ghost before = out.data;
            out.data.push(event);
            proof {
                lemma_deep_view_push(before, out.data, event);
            }
            true
        },
        Err(Error::UnresolvedAccountIndex) => false,
        Err(_) => {
            out.diagnostics.push(
                Diagnostic { transaction: tx.index, error: Error::MalformedInstructionPayload },
            );
            true
        },
    }
}

/// Visits the instructions of one group, in order. Returns `false` where a
/// visit ends the transaction.
fn walk_inner_instructions(
    block: &BlockFrame,
    tx: &TransactionFrame,
    top: &CompiledInstruction,
    top_position: usize,
    instructions: &Vec<CompiledInstruction>,
    out: &mut Output,
) -> (ok: bool)
    requires
        block@.wf(),
    ensures
        match walk_inner(
            block@,
            tx@,
            top@,
            top_position as int,
            instructions.deep_view(),
            instructions.len() as nat,
            old(out)@,
        ) {
            Some(view) => ok && final(out)@ == view,
            None => !ok,
        },
{
    let ghost start = out@;
    let mut i: usize = 0;
    while i < instructions.len()
        invariant
            i <= instructions.len(),
            block@.wf(),
            start == old(out)@,
            walk_inner(
                block@,
                tx@,
                top@,
                top_position as int,
                instructions.deep_view(),
                i as nat,
                start,
            ) == Some(out@),
        decreases instructions.len() - i,
    {
        let ok = visit_instruction(block, tx, top, top_position, &instructions[i], Some(i), out);
        if !ok {
            proof {
                lemma_walk_inner_fails(
                    block@,
                    tx@,
                    top@,
                    top_position as int,
                    instructions.deep_view(),
                    (i + 1) as nat,
                    instructions.len() as nat,
                    start,
                );
            }
            return false;
        }
        i += 1;
    }
    true
}

/// Goes through the groups of a transaction and walks those of the
/// top-level instruction at `top_position`. Returns `false` where a visit
/// ends the transaction.
fn walk_inner_groups(
    block: &BlockFrame,
    tx: &TransactionFrame,
    top: &CompiledInstruction,
    top_position: usize,
    groups: &Vec<InnerInstructions>,
    out: &mut Output,
) -> (ok: bool)
    requires
        block@.wf(),
    ensures
        match walk_groups(
            block@,
            tx@,
            top@,
            top_position as int,
            groups.deep_view(),
            groups.len() as nat,
            old(out)@,
        ) {
            Some(view) => ok && final(out)@ == view,
            None => !ok,
        },
{
    let ghost start = out@;
    let mut i: usize = 0;
    while i < groups.len()
        invariant
            i <= groups.len(),
            block@.wf(),
            start == old(out)@,
            walk_groups(block@, tx@, top@, top_position as int, groups.deep_view(), i as nat, start)
                == Some(out@),
        decreases groups.len() - i,
    {
        let group = &groups[i];
        if group.index as usize == top_position {
            let ok = walk_inner_instructions(
                block,
                tx,
                top,
                top_position,
                &group.instructions,
                out,
            );
            if !ok {
                proof {
                    lemma_walk_groups_fails(
                        block@,
                        tx@,
                        top@,
                        top_position as int,
                        groups.deep_view(),
                        (i + 1) as nat,
                        groups.len() as nat,
                        start,
                    );
                }
                return false;
            }
        }
        i += 1;
    }
    true
}

/// Visits the top-level instructions of a message, each followed by the
/// instructions that it invoked. Returns `false` where a visit ends the
/// transaction.
fn walk_top_level(
    block: &BlockFrame,
    tx: &TransactionFrame,
    instructions: &Vec<CompiledInstruction>,
    groups: &Vec<InnerInstructions>,
    out: &mut Output,
) -> (ok: bool)
    requires
        block@.wf(),
    ensures
        match walk_top(
            block@,
            tx@,
            instructions.deep_view(),
            groups.deep_view(),
            instructions.len() as nat,
            old(out)@,
        ) {
            Some(view) => ok && final(out)@ == view,
            None => !ok,
        },
{
    let ghost start = out@;
    let mut i: usize = 0;
    while i < instructions.len()
        invariant
            i <= instructions.len(),
            block@.wf(),
            start == old(out)@,
            walk_top(block@, tx@, instructions.deep_view(), groups.deep_view(), i as nat, start)
                == Some(out@),
        decreases instructions.len() - i,
    {
        let top = &instructions[i];
        let mut ok = visit_instruction(block, tx, top, i, top, None, out);
        if ok {
            ok = walk_inner_groups(block, tx, top, i, groups, out);
        }
        if !ok {
            proof {
                lemma_walk_top_fails(
                    block@,
                    tx@,
                    instructions.deep_view(),
                    groups.deep_view(),
                    (i + 1) as nat,
                    instructions.len() as nat,
                    start,
                );
            }
            return false;
        }
        i += 1;
    }
    true
}

/// Walks one transaction: resolves its accounts, then visits its
/// instructions.
///
/// Fails with what the resolution of the accounts fails with, or with
/// `UnresolvedAccountIndex` where an instruction refers to an account past
/// the end of the resolved list: the program of any instruction that is
/// visited, or an account of an instruction of the token program.
pub fn process_transaction(
    block: &BlockFrame,
    index: usize,
    signatures: &Vec<Vec<u8>>,
    message: &Message,
    meta: &TransactionStatusMeta,
    repository: &LookupRepository,
) -> (result: Result<Output, Error>)
    requires
        block@.wf(),
    ensures
        output_matches(
            result,
            walk_transaction(
                block@,
                index,
                byte_seqs(signatures@),
                message@,
                meta@.inner_instructions,
                repository@,
            ),
        ),
{
    let accounts = match resolve(message, repository) {
        Ok(accounts) => accounts,
        Err(e) => {
            return Err(e);
        },
    };
    let tx = TransactionFrame { index, id: tx_id(signatures), accounts };
    let mut out = Output::new();
    if walk_top_level(block, &tx, &message.instructions, &meta.inner_instructions, &mut out) {
        Ok(out)
    } else {
        Err(Error::UnresolvedAccountIndex)
    }
}

/// Walks a block and gives its events, in order, with the notes taken on the
/// way.
///
/// Fails with `MissingBlockTimestamp` where the block has no timestamp, and
/// otherwise with `MissingTransactionMeta` or `MissingMessage`, whichever
/// the first transaction that lacks one of the two lacks (the metadata
/// first). Nothing else fails the block.
pub fn walk_block(
    block: &Block,
    block_date: &str,
    repository: &LookupRepository,
    numbering: Numbering,
) -> (result: Result<Output, Error>)
    requires
        numbering == Numbering::Compatible ==> block.parent_slot < u64::MAX,
    ensures
        output_matches(result, walk_block_spec(block@, block_date@, repository@, numbering)),
{
    let block_time = match block.block_time {
        Some(t) => t,
        None => {
            return Err(Error::MissingBlockTimestamp);
        },
    };
    let frame = BlockFrame {
        block_date: String::from_str(block_date),
        block_time,
        slot: block.slot,
        parent_slot: block.parent_slot,
        numbering,
    };
    let ghost transactions = block@.transactions;
    let mut out = Output::new();
    let mut i: usize = 0;
    while i < block.transactions.len()
        invariant
            i <= block.transactions.len(),
            transactions == block@.transactions,
            frame_of(block@, block_date@, numbering) == Some(frame@),
            frame@.wf(),
            walk_transactions(frame@, transactions, repository@, i as nat) == Ok::<
                OutputView,
                Error,
            >(out@),
        decreases block.transactions.len() - i,
    {
        let confirmed = &block.transactions[i];
        match &confirmed.transaction {
            None => {},
            Some(transaction) => {
                let failure = match &confirmed.meta {
                    None => Some(Error::MissingTransactionMeta),
                    Some(meta) => match &transaction.message {
                        None => Some(Error::MissingMessage),
                        Some(message) => {
                            match process_transaction(
                                &frame,
                                i,
                                &transaction.signatures,
                                message,
                                meta,
                                repository,
                            ) {
                                Ok(added) => {
                                    let mut added = added;
                                    let ghost data_before = out.data;
                                    let ghost data_added = added.data;
                                    out.data.append(&mut added.data);
                                    out.diagnostics.append(&mut added.diagnostics);
                                    proof {
                                        lemma_deep_view_add(data_before, data_added, out.data);
                                    }
                                },
                                Err(error) => {
                                    out.diagnostics.push(Diagnostic { transaction: i, error });
                                },
                            }
                            None
                        },
                    },
                };
                if let Some(error) = failure {
                    proof {
                        lemma_walk_transactions_fails(
                            frame@,
                            transactions,
                            repository@,
                            (i + 1) as nat,
                            transactions.len(),
                        );
                    }
                    return Err(error);
                }
            },
        }
        i += 1;
    }
    Ok(out)
}

/// The output of a block under the compatible numbering, with the date of
/// the block taken from its timestamp.
pub open spec fn map_block_spec(
    block: BlockView,
    repository: Map<Seq<char>, Seq<Seq<char>>>,
) -> Result<OutputView, Error> {
    match block.block_time {
        None => Err(Error::MissingBlockTimestamp),
        Some(block_time) => walk_block_spec(
            block,
            timestamp_date_text(block_time),
            repository,
            Numbering::Compatible,
        ),
    }
}

/// Walks a block with the compatible numbering. Every event carries the
/// calendar date, in UTC, of the timestamp of the block.
pub fn map_block(block: &Block, repository: &LookupRepository) -> (result: Result<Output, Error>)
    requires
        block.parent_slot < u64::MAX,
    ensures
        output_matches(result, map_block_spec(block@, repository@)),
{
    match block.block_time {
        None => Err(Error::MissingBlockTimestamp),
        Some(block_time) => {
            let block_date = convert_to_date(block_time);
            walk_block(block, block_date.as_str(), repository, Numbering::Compatible)
        },
    }
}

/// Walking the same block against the same snapshot of the repository twice
/// gives the same outcome: the same events and notes in the same order, or
/// the same failure.
pub proof fn lemma_walk_block_repeats(
    block: BlockView,
    block_date: Seq<char>,
    repository: Map<Seq<char>, Seq<Seq<char>>>,
    numbering: Numbering,
    first: Result<Output, Error>,
    second: Result<Output, Error>,
)
    requires
        output_matches(first, walk_block_spec(block, block_date, repository, numbering)),
        output_matches(second, walk_block_spec(block, block_date, repository, numbering)),
    ensures
        match first {
            Ok(output) => second is Ok && second->Ok_0@ == output@,
            Err(e) => second == Err::<Output, Error>(e),
        },
{
}

/// An instruction whose program is in the account list and is not the token
/// program gives no event and no note, top-level or inner: recording its
/// visit leaves the output as it was.
pub proof fn lemma_other_program_is_inert(
    block: BlockFrameView,
    tx: TransactionFrameView,
    top: CompiledInstructionView,
    top_position: int,
    instruction: CompiledInstructionView,
    inner: Option<int>,
    out: OutputView,
)
    requires
        instruction.program_id_index < tx.accounts.len(),
        tx.accounts[instruction.program_id_index as int] != PROGRAM_ADDRESS@,
    ensures
        record(out, tx.index, visit(block, tx, top, top_position, instruction, inner)) == Some(out),
{
}

} // verus!
