//! Which account indexes the walk of a transaction depends on, and what
//! becomes of a transaction in which one of them is out of range.

use crate::block::{CompiledInstructionView, InnerInstructionsView, MessageView};
use crate::error::Error;
use crate::event::OutputView;
use crate::resolver::resolve_spec;
use crate::roles::account_args;
use crate::walker::{
    is_target, record, tx_id_text, visit, walk_groups, walk_inner, walk_top, walk_transaction,
    BlockFrameView, TransactionFrameView,
};
use vstd::prelude::*;

verus! {

/// An instruction resolves when its program index is inside the account
/// list and, where its program is the token program, every one of its
/// account indexes is too.
pub open spec fn instruction_resolves(
    accounts: Seq<Seq<char>>,
    instruction: CompiledInstructionView,
) -> bool {
    &&& instruction.program_id_index < accounts.len()
    &&& is_target(accounts, instruction) ==> account_args(instruction.accounts, accounts) is Some
}

/// Whether each of these instructions resolves.
pub open spec fn instructions_resolve(
    accounts: Seq<Seq<char>>,
    instructions: Seq<CompiledInstructionView>,
) -> bool {
    forall|k: int|
        0 <= k < instructions.len() ==> instruction_resolves(accounts, #[trigger] instructions[k])
}

/// Whether every instruction that the walk of a transaction visits resolves:
/// the top-level instructions, and the instructions of every group that
/// belongs to one of them.
pub open spec fn transaction_resolves(
    accounts: Seq<Seq<char>>,
    instructions: Seq<CompiledInstructionView>,
    groups: Seq<InnerInstructionsView>,
) -> bool {
    &&& instructions_resolve(accounts, instructions)
    &&& forall|g: int|
        0 <= g < groups.len() && (#[trigger] groups[g]).index < instructions.len()
            ==> instructions_resolve(accounts, groups[g].instructions)
}

/// A visit ends the transaction exactly when the instruction does not
/// resolve.
pub proof fn lemma_visit_unresolved(
    block: BlockFrameView,
    tx: TransactionFrameView,
    top: CompiledInstructionView,
    top_position: int,
    instruction: CompiledInstructionView,
    inner: Option<int>,
)
    ensures
        visit(block, tx, top, top_position, instruction, inner) is Unresolved
            <==> !instruction_resolves(tx.accounts, instruction),
{
}

/// The walk of a group goes through exactly when its first `n` instructions
/// resolve.
pub proof fn lemma_walk_inner_resolves(
    block: BlockFrameView,
    tx: TransactionFrameView,
    top: CompiledInstructionView,
    top_position: int,
    instructions: Seq<CompiledInstructionView>,
    n: nat,
    out: OutputView,
)
    requires
        n <= instructions.len(),
    ensures
        walk_inner(block, tx, top, top_position, instructions, n, out) is Some
            <==> instructions_resolve(tx.accounts, instructions.take(n as int)),
    decreases n,
{
    if n > 0 {
        lemma_walk_inner_resolves(
            block,
            tx,
            top,
            top_position,
            instructions,
            (n - 1) as nat,
            out,
        );
        lemma_visit_unresolved(block, tx, top, top_position, instructions[n - 1], Some(n - 1));
        assert(instructions.take(n as int)[n - 1] == instructions[n - 1]);
    }
}

/// The walk of the groups of one top-level instruction goes through exactly
/// when the instructions of those among the first `n` groups that belong to
/// it resolve.
pub proof fn lemma_walk_groups_resolves(
    block: BlockFrameView,
    tx: TransactionFrameView,
    top: CompiledInstructionView,
    top_position: int,
    groups: Seq<InnerInstructionsView>,
    n: nat,
    out: OutputView,
)
    requires
        n <= groups.len(),
    ensures
        walk_groups(block, tx, top, top_position, groups, n, out) is Some <==> forall|g: int|
            0 <= g < n && (#[trigger] groups[g]).index == top_position ==> instructions_resolve(
                tx.accounts,
                groups[g].instructions,
            ),
    decreases n,
{
    if n > 0 {
        lemma_walk_groups_resolves(block, tx, top, top_position, groups, (n - 1) as nat, out);
        match walk_groups(block, tx, top, top_position, groups, (n - 1) as nat, out) {
            Some(so_far) => {
                let last = groups[n - 1];
                lemma_walk_inner_resolves(
                    block,
                    tx,
                    top,
                    top_position,
                    last.instructions,
                    last.instructions.len(),
                    so_far,
                );
                assert(last.instructions.take(last.instructions.len() as int)
                    =~= last.instructions);
            },
            None => {},
        }
    }
}

/// The walk of the first `n` top-level instructions goes through exactly
/// when they resolve and so do the instructions of every group that belongs
/// to one of them.
pub proof fn lemma_walk_top_resolves(
    block: BlockFrameView,
    tx: TransactionFrameView,
    instructions: Seq<CompiledInstructionView>,
    groups: Seq<InnerInstructionsView>,
    n: nat,
    out: OutputView,
)
    requires
        n <= instructions.len(),
    ensures
        walk_top(block, tx, instructions, groups, n, out) is Some <==> transaction_resolves(
            tx.accounts,
            instructions.take(n as int),
            groups,
        ),
    decreases n,
{
    let longer = instructions.take(n as int);
    if n > 0 {
        let top = instructions[n - 1];
        lemma_walk_top_resolves(block, tx, instructions, groups, (n - 1) as nat, out);
        lemma_visit_unresolved(block, tx, top, n - 1, top, None);
        match walk_top(block, tx, instructions, groups, (n - 1) as nat, out) {
            Some(so_far) => {
                match record(
                    so_far,
                    tx.index,
                    visit(block, tx, top, n - 1, top, None),
                ) {
                    Some(with_top) => {
                        lemma_walk_groups_resolves(
                            block,
                            tx,
                            top,
                            n - 1,
                            groups,
                            groups.len(),
                            with_top,
                        );
                    },
                    None => {},
                }
            },
            None => {},
        }
        if transaction_resolves(tx.accounts, longer, groups) {
            assert(instruction_resolves(tx.accounts, longer[n - 1]));
        }
    }
}

/// Every account index that the walk of a transaction uses is inside the
/// resolved account list, or the transaction fails with
/// `UnresolvedAccountIndex`: once the accounts are resolved, the walk gives
/// an output exactly when every visited instruction resolves, and fails with
/// that error otherwise.
pub proof fn lemma_indexes_resolve_or_fail(
    block: BlockFrameView,
    index: usize,
    signatures: Seq<Seq<u8>>,
    message: MessageView,
    groups: Seq<InnerInstructionsView>,
    repository: Map<Seq<char>, Seq<Seq<char>>>,
)
    requires
        resolve_spec(message, repository) is Ok,
    ensures
        ({
            let accounts = resolve_spec(message, repository)->Ok_0;
            let outcome = walk_transaction(block, index, signatures, message, groups, repository);
            if transaction_resolves(accounts, message.instructions, groups) {
                outcome is Ok
            } else {
                outcome == Err::<OutputView, Error>(Error::UnresolvedAccountIndex)
            }
        }),
{
    let accounts = resolve_spec(message, repository)->Ok_0;
    let tx = TransactionFrameView { index, id: tx_id_text(signatures), accounts };
    lemma_walk_top_resolves(
        block,
        tx,
        message.instructions,
        groups,
        message.instructions.len(),
        OutputView::empty(),
    );
    assert(message.instructions.take(message.instructions.len() as int) =~= message.instructions);
}

} // verus!
