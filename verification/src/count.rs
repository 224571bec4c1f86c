//! How many events a block gives.
//!
//! Where nothing is passed over, a block gives one event for each of its
//! instructions whose program is the token program, top-level and inner
//! alike.

use crate::block::{
    BlockView, CompiledInstructionView, ConfirmedTransactionView, InnerInstructionsView,
};
use crate::event::OutputView;
use crate::resolver::resolve_spec;
use crate::walker::{
    add_transaction, frame_of, is_target, record, tx_id_text, visit, walk_block_spec, walk_groups,
    walk_inner, walk_top, walk_transactions, BlockFrameView, Numbering, TransactionFrameView,
};
use vstd::prelude::*;

verus! {

/// How many of the first `n` instructions are for the token program.
pub open spec fn count_targets(
    accounts: Seq<Seq<char>>,
    instructions: Seq<CompiledInstructionView>,
    n: nat,
) -> nat
    decreases n,
{
    if n == 0 {
        0
    } else {
        count_targets(accounts, instructions, (n - 1) as nat) + if is_target(
            accounts,
            instructions[n - 1],
        ) {
            1nat
        } else {
            0nat
        }
    }
}

/// How many instructions of the first `n` groups are for the token program.
pub open spec fn count_inner_targets(
    accounts: Seq<Seq<char>>,
    groups: Seq<InnerInstructionsView>,
    n: nat,
) -> nat
    decreases n,
{
    if n == 0 {
        0
    } else {
        count_inner_targets(accounts, groups, (n - 1) as nat) + count_targets(
            accounts,
            groups[n - 1].instructions,
            groups[n - 1].instructions.len(),
        )
    }
}

/// How many instructions of the first `n` groups are for the token program,
/// counting the groups whose top-level position is below `bound`.
spec fn count_inner_targets_below(
    accounts: Seq<Seq<char>>,
    groups: Seq<InnerInstructionsView>,
    bound: int,
    n: nat,
) -> nat
    decreases n,
{
    if n == 0 {
        0
    } else {
        count_inner_targets_below(accounts, groups, bound, (n - 1) as nat) + if groups[n
            - 1].index < bound {
            count_targets(accounts, groups[n - 1].instructions, groups[n - 1].instructions.len())
        } else {
            0nat
        }
    }
}

/// How many instructions of the first `n` groups are for the token program,
/// counting the groups of the top-level instruction at `position`.
spec fn count_group_targets(
    accounts: Seq<Seq<char>>,
    groups: Seq<InnerInstructionsView>,
    position: int,
    n: nat,
) -> nat
    decreases n,
{
    if n == 0 {
        0
    } else {
        count_group_targets(accounts, groups, position, (n - 1) as nat) + if groups[n - 1].index
            == position {
            count_targets(accounts, groups[n - 1].instructions, groups[n - 1].instructions.len())
        } else {
            0nat
        }
    }
}

/// Whether every group of a transaction belongs to one of its top-level
/// instructions.
pub open spec fn groups_in_range(groups: Seq<InnerInstructionsView>, instructions: nat) -> bool {
    forall|g: int| 0 <= g < groups.len() ==> (#[trigger] groups[g]).index < instructions
}

/// The top-level instructions of a transaction that are for the token
/// program: none where the entry is not walked.
pub open spec fn top_level_targets(
    confirmed: ConfirmedTransactionView,
    repository: Map<Seq<char>, Seq<Seq<char>>>,
) -> nat {
    if confirmed.transaction is Some && confirmed.transaction->0.message is Some {
        let message = confirmed.transaction->0.message->0;
        match resolve_spec(message, repository) {
            Ok(accounts) => count_targets(
                accounts,
                message.instructions,
                message.instructions.len(),
            ),
            Err(_) => 0,
        }
    } else {
        0
    }
}

/// The inner instructions of a transaction, across all its groups, that are
/// for the token program: none where the entry is not walked.
pub open spec fn inner_targets(
    confirmed: ConfirmedTransactionView,
    repository: Map<Seq<char>, Seq<Seq<char>>>,
) -> nat {
    if confirmed.transaction is Some && confirmed.transaction->0.message is Some
        && confirmed.meta is Some {
        let message = confirmed.transaction->0.message->0;
        let groups = confirmed.meta->0.inner_instructions;
        match resolve_spec(message, repository) {
            Ok(accounts) => count_inner_targets(accounts, groups, groups.len()),
            Err(_) => 0,
        }
    } else {
        0
    }
}

/// The instructions of the first `n` transactions that are for the token
/// program, top-level and inner.
pub open spec fn block_targets(
    transactions: Seq<ConfirmedTransactionView>,
    repository: Map<Seq<char>, Seq<Seq<char>>>,
    n: nat,
) -> nat
    decreases n,
{
    if n == 0 {
        0
    } else {
        block_targets(transactions, repository, (n - 1) as nat) + top_level_targets(
            transactions[n - 1],
            repository,
        ) + inner_targets(transactions[n - 1], repository)
    }
}

/// Whether, in every transaction that is walked, every group belongs to a
/// top-level instruction.
pub open spec fn block_groups_in_range(transactions: Seq<ConfirmedTransactionView>) -> bool {
    forall|t: int|
        0 <= t < transactions.len() && (#[trigger] transactions[t]).transaction is Some
            && transactions[t].transaction->0.message is Some && transactions[t].meta is Some
            ==> groups_in_range(
            transactions[t].meta->0.inner_instructions,
            transactions[t].transaction->0.message->0.instructions.len(),
        )
}

/// Recording a visit never drops a note, and where it adds none it adds an
/// event exactly for an instruction of the token program.
proof fn lemma_record_count(
    block: BlockFrameView,
    tx: TransactionFrameView,
    top: CompiledInstructionView,
    top_position: int,
    instruction: CompiledInstructionView,
    inner: Option<int>,
    out: OutputView,
)
    requires
        record(out, tx.index, visit(block, tx, top, top_position, instruction, inner)) is Some,
    ensures
        ({
            let after = record(
                out,
                tx.index,
                visit(block, tx, top, top_position, instruction, inner),
            )->0;
            &&& after.diagnostics.len() >= out.diagnostics.len()
            &&& after.diagnostics.len() == out.diagnostics.len() ==> after.data.len()
                == out.data.len() + if is_target(tx.accounts, instruction) {
                1nat
            } else {
                0nat
            }
        }),
{
}

/// The walk of a group never drops a note, and where it adds none it adds
/// one event for each instruction of the token program.
proof fn lemma_walk_inner_count(
    block: BlockFrameView,
    tx: TransactionFrameView,
    top: CompiledInstructionView,
    top_position: int,
    instructions: Seq<CompiledInstructionView>,
    n: nat,
    out: OutputView,
)
    requires
        walk_inner(block, tx, top, top_position, instructions, n, out) is Some,
    ensures
        ({
            let after = walk_inner(block, tx, top, top_position, instructions, n, out)->0;
            &&& after.diagnostics.len() >= out.diagnostics.len()
            &&& after.diagnostics.len() == out.diagnostics.len() ==> after.data.len()
                == out.data.len() + count_targets(tx.accounts, instructions, n)
        }),
    decreases n,
{
    if n > 0 {
        lemma_walk_inner_count(block, tx, top, top_position, instructions, (n - 1) as nat, out);
        let so_far = walk_inner(block, tx, top, top_position, instructions, (n - 1) as nat, out)->0;
        lemma_record_count(block, tx, top, top_position, instructions[n - 1], Some(n - 1), so_far);
    }
}

/// The walk of the groups of one top-level instruction never drops a note,
/// and where it adds none it adds one event for each instruction of the
/// token program in the groups that belong to it.
proof fn lemma_walk_groups_count(
    block: BlockFrameView,
    tx: TransactionFrameView,
    top: CompiledInstructionView,
    top_position: int,
    groups: Seq<InnerInstructionsView>,
    n: nat,
    out: OutputView,
)
    requires
        walk_groups(block, tx, top, top_position, groups, n, out) is Some,
    ensures
        ({
            let after = walk_groups(block, tx, top, top_position, groups, n, out)->0;
            &&& after.diagnostics.len() >= out.diagnostics.len()
            &&& after.diagnostics.len() == out.diagnostics.len() ==> after.data.len()
                == out.data.len() + count_group_targets(tx.accounts, groups, top_position, n)
        }),
    decreases n,
{
    if n > 0 {
        lemma_walk_groups_count(block, tx, top, top_position, groups, (n - 1) as nat, out);
        let so_far = walk_groups(block, tx, top, top_position, groups, (n - 1) as nat, out)->0;
        if groups[n - 1].index == top_position {
            lemma_walk_inner_count(
                block,
                tx,
                top,
                top_position,
                groups[n - 1].instructions,
                groups[n - 1].instructions.len(),
                so_far,
            );
        }
    }
}

/// The groups below a bound are those below the bound before it and those
/// at it.
proof fn lemma_count_inner_next(
    accounts: Seq<Seq<char>>,
    groups: Seq<InnerInstructionsView>,
    bound: int,
    n: nat,
)
    ensures
        count_inner_targets_below(accounts, groups, bound + 1, n) == count_inner_targets_below(
            accounts,
            groups,
            bound,
            n,
        ) + count_group_targets(accounts, groups, bound, n),
    decreases n,
{
    if n > 0 {
        lemma_count_inner_next(accounts, groups, bound, (n - 1) as nat);
    }
}

/// No group is below the bound 0.
proof fn lemma_count_inner_zero(
    accounts: Seq<Seq<char>>,
    groups: Seq<InnerInstructionsView>,
    n: nat,
)
    ensures
        count_inner_targets_below(accounts, groups, 0, n) == 0,
    decreases n,
{
    if n > 0 {
        lemma_count_inner_zero(accounts, groups, (n - 1) as nat);
    }
}

/// Where every group is below the bound, the bound leaves no group out.
proof fn lemma_count_inner_all(
    accounts: Seq<Seq<char>>,
    groups: Seq<InnerInstructionsView>,
    bound: int,
    n: nat,
)
    requires
        n <= groups.len(),
        forall|g: int| 0 <= g < groups.len() ==> (#[trigger] groups[g]).index < bound,
    ensures
        count_inner_targets_below(accounts, groups, bound, n) == count_inner_targets(
            accounts,
            groups,
            n,
        ),
    decreases n,
{
    if n > 0 {
        lemma_count_inner_all(accounts, groups, bound, (n - 1) as nat);
    }
}

/// The walk of the top-level instructions never drops a note, and where it
/// adds none it adds one event for each instruction of the token program
/// among them and in the groups that belong to them.
proof fn lemma_walk_top_count(
    block: BlockFrameView,
    tx: TransactionFrameView,
    instructions: Seq<CompiledInstructionView>,
    groups: Seq<InnerInstructionsView>,
    n: nat,
    out: OutputView,
)
    requires
        walk_top(block, tx, instructions, groups, n, out) is Some,
    ensures
        ({
            let after = walk_top(block, tx, instructions, groups, n, out)->0;
            &&& after.diagnostics.len() >= out.diagnostics.len()
            &&& after.diagnostics.len() == out.diagnostics.len() ==> after.data.len()
                == out.data.len() + count_targets(tx.accounts, instructions, n)
                + count_inner_targets_below(tx.accounts, groups, n as int, groups.len())
        }),
    decreases n,
{
    if n == 0 {
        lemma_count_inner_zero(tx.accounts, groups, groups.len());
    } else {
        lemma_walk_top_count(block, tx, instructions, groups, (n - 1) as nat, out);
        let so_far = walk_top(block, tx, instructions, groups, (n - 1) as nat, out)->0;
        let top = instructions[n - 1];
        lemma_record_count(block, tx, top, n - 1, top, None, so_far);
        let with_top = record(so_far, tx.index, visit(block, tx, top, n - 1, top, None))->0;
        lemma_walk_groups_count(block, tx, top, n - 1, groups, groups.len(), with_top);
        lemma_count_inner_next(tx.accounts, groups, n - 1, groups.len());
    }
}

/// Adding a transaction never drops a note, and where it adds none it adds
/// one event for each instruction of the token program in the transaction.
proof fn lemma_add_transaction_count(
    block: BlockFrameView,
    index: usize,
    confirmed: ConfirmedTransactionView,
    repository: Map<Seq<char>, Seq<Seq<char>>>,
    out: OutputView,
)
    requires
        add_transaction(block, index, confirmed, repository, out) is Ok,
        confirmed.transaction is Some && confirmed.transaction->0.message is Some
            && confirmed.meta is Some ==> groups_in_range(
            confirmed.meta->0.inner_instructions,
            confirmed.transaction->0.message->0.instructions.len(),
        ),
    ensures
        ({
            let after = add_transaction(block, index, confirmed, repository, out)->Ok_0;
            &&& after.diagnostics.len() >= out.diagnostics.len()
            &&& after.diagnostics.len() == out.diagnostics.len() ==> after.data.len()
                == out.data.len() + top_level_targets(confirmed, repository) + inner_targets(
                confirmed,
                repository,
            )
        }),
{
    if confirmed.transaction is Some && confirmed.transaction->0.message is Some
        && confirmed.meta is Some {
        let transaction = confirmed.transaction->0;
        let message = transaction.message->0;
        let groups = confirmed.meta->0.inner_instructions;
        match resolve_spec(message, repository) {
            Ok(accounts) => {
                let tx = TransactionFrameView {
                    index,
                    id: tx_id_text(transaction.signatures),
                    accounts,
                };
                let walked = walk_top(
                    block,
                    tx,
                    message.instructions,
                    groups,
                    message.instructions.len(),
                    OutputView::empty(),
                );
                if walked is Some {
                    lemma_walk_top_count(
                        block,
                        tx,
                        message.instructions,
                        groups,
                        message.instructions.len(),
                        OutputView::empty(),
                    );
                    lemma_count_inner_all(
                        accounts,
                        groups,
                        message.instructions.len() as int,
                        groups.len(),
                    );
                }
            },
            Err(_) => {},
        }
    }
}

/// The walk of the transactions never drops a note, and where it takes none
/// it gives one event for each instruction of the token program.
proof fn lemma_walk_transactions_count(
    block: BlockFrameView,
    transactions: Seq<ConfirmedTransactionView>,
    repository: Map<Seq<char>, Seq<Seq<char>>>,
    n: nat,
)
    requires
        n <= transactions.len(),
        walk_transactions(block, transactions, repository, n) is Ok,
        block_groups_in_range(transactions),
    ensures
        ({
            let after = walk_transactions(block, transactions, repository, n)->Ok_0;
            after.diagnostics.len() == 0 ==> after.data.len() == block_targets(
                transactions,
                repository,
                n,
            )
        }),
    decreases n,
{
    if n > 0 {
        lemma_walk_transactions_count(block, transactions, repository, (n - 1) as nat);
        let so_far = walk_transactions(block, transactions, repository, (n - 1) as nat)->Ok_0;
        lemma_add_transaction_count(
            block,
            (n - 1) as usize,
            transactions[n - 1],
            repository,
            so_far,
        );
    }
}

/// The number of events of a block.
///
/// Where the walk of a block succeeds and takes no note, and every group of
/// inner instructions belongs to a top-level instruction of its transaction,
/// the block gives as many events as it has instructions whose program is
/// the token program: the top-level ones, and the inner ones across all
/// groups.
pub proof fn lemma_event_count(
    block: BlockView,
    block_date: Seq<char>,
    repository: Map<Seq<char>, Seq<Seq<char>>>,
    numbering: Numbering,
)
    requires
        walk_block_spec(block, block_date, repository, numbering) is Ok,
        walk_block_spec(block, block_date, repository, numbering)->Ok_0.diagnostics.len() == 0,
        block_groups_in_range(block.transactions),
    ensures
        walk_block_spec(block, block_date, repository, numbering)->Ok_0.data.len() == block_targets(
            block.transactions,
            repository,
            block.transactions.len(),
        ),
{
    let frame = frame_of(block, block_date, numbering)->0;
    lemma_walk_transactions_count(
        frame,
        block.transactions,
        repository,
        block.transactions.len(),
    );
}

} // verus!
