use spl_token_events::args::Arg;
use spl_token_events::block::{
    Block, CompiledInstruction, ConfirmedTransaction, InnerInstructions, Message,
    MessageAddressTableLookup, Transaction, TransactionStatusMeta,
};
use spl_token_events::error::Error;
use spl_token_events::event::{Diagnostic, Output, SplTokenMeta};
use spl_token_events::repository::LookupRepository;
use spl_token_events::resolver::table_key;
use spl_token_events::roles::Accounts;
use spl_token_events::walker::{
    map_block, process_transaction, tx_id, walk_block, BlockFrame, Numbering, PROGRAM_ADDRESS,
};

const DATE: &str = "2023-11-14";
const TIME: i64 = 1_700_000_000;

fn target() -> Vec<u8> {
    bs58::decode(PROGRAM_ADDRESS).into_vec().unwrap()
}

fn key(byte: u8) -> Vec<u8> {
    vec![byte; 32]
}

fn text(bytes: &[u8]) -> String {
    bs58::encode(bytes).into_string()
}

fn instruction(program: u32, accounts: &[u8], data: &[u8]) -> CompiledInstruction {
    CompiledInstruction {
        program_id_index: program,
        accounts: accounts.to_vec(),
        data: data.to_vec(),
    }
}

fn transfer(amount: u64) -> Vec<u8> {
    let mut data = vec![3u8];
    data.extend_from_slice(&amount.to_le_bytes());
    data
}

fn transaction(
    keys: Vec<Vec<u8>>,
    instructions: Vec<CompiledInstruction>,
    groups: Vec<InnerInstructions>,
) -> ConfirmedTransaction {
    ConfirmedTransaction {
        transaction: Some(Transaction {
            signatures: vec![vec![0x04, 0x30, 0x5e, 0x2b, 0x24, 0x73, 0xf0, 0x58]],
            message: Some(Message {
                account_keys: keys,
                address_table_lookups: vec![],
                instructions,
            }),
        }),
        meta: Some(TransactionStatusMeta { inner_instructions: groups }),
    }
}

fn block_of(transactions: Vec<ConfirmedTransaction>) -> Block {
    Block { slot: 101, parent_slot: 100, block_time: Some(TIME), transactions }
}

fn walk(block: &Block) -> Output {
    map_block(block, &LookupRepository::new()).unwrap()
}

fn types(output: &Output) -> Vec<String> {
    output.data.iter().map(|e| e.instruction_type.clone()).collect()
}

#[test]
fn revoke_example() {
    let b = key(7);
    let block = block_of(vec![transaction(
        vec![target(), b.clone()],
        vec![instruction(0, &[1], &[9])],
        vec![],
    )]);
    let output = walk(&block);
    let mut accounts = Accounts::empty();
    accounts.account = Some(text(&b));
    assert_eq!(
        output.data,
        vec![SplTokenMeta {
            block_date: DATE.to_string(),
            block_time: TIME,
            tx_id: "he11owor1d".to_string(),
            dapp: PROGRAM_ADDRESS.to_string(),
            block_slot: 100,
            instruction_index: 0,
            is_inner_instruction: false,
            inner_instruction_index: 0,
            instruction_type: "Revoke".to_string(),
            input_accounts: accounts,
            args: Arg::empty(),
        }]
    );
    assert!(output.diagnostics.is_empty());
}

#[test]
fn set_authority_example() {
    let p = key(0x5a);
    let mut data = vec![6u8, 2, 1];
    data.extend_from_slice(&p);
    let block = block_of(vec![transaction(
        vec![key(1), target(), key(2)],
        vec![instruction(1, &[0, 2], &data)],
        vec![],
    )]);
    let output = walk(&block);
    assert_eq!(output.data.len(), 1);
    let event = &output.data[0];
    assert_eq!(event.instruction_type, "SetAuthority");
    assert_eq!(event.args.authority_type, Some("2".to_string()));
    assert_eq!(event.args.new_authority_option, Some(1));
    assert_eq!(event.args.new_authority, Some(text(&p)));
    assert_eq!(event.input_accounts.account, Some(text(&key(1))));
    assert_eq!(event.input_accounts.authority, Some(text(&key(2))));
    assert_eq!(event.instruction_index, 1);
}

#[test]
fn other_programs_give_no_event() {
    let block = block_of(vec![transaction(
        vec![key(1), target(), key(2)],
        vec![instruction(0, &[1], &transfer(1)), instruction(2, &[200], &[9])],
        vec![InnerInstructions {
            index: 0,
            instructions: vec![instruction(2, &[0], &[9]), instruction(0, &[250], &[3])],
        }],
    )]);
    let output = walk(&block);
    assert_eq!(output, Output { data: vec![], diagnostics: vec![] });
}

#[test]
fn inner_instructions_of_other_programs_are_walked() {
    let block = block_of(vec![transaction(
        vec![key(1), target(), key(2)],
        vec![instruction(0, &[], &[]), instruction(2, &[], &[])],
        vec![
            InnerInstructions { index: 1, instructions: vec![instruction(1, &[0], &[17])] },
            InnerInstructions { index: 0, instructions: vec![instruction(1, &[2], &[22])] },
        ],
    )]);
    let output = walk(&block);
    assert_eq!(types(&output), vec!["InitializeImmutableOwner", "SyncNative"]);
    assert!(output.data.iter().all(|e| e.is_inner_instruction));
}

#[test]
fn events_come_depth_first() {
    let block = block_of(vec![
        transaction(
            vec![target(), key(1), key(2), key(3)],
            vec![
                instruction(0, &[1, 2, 3], &transfer(10)),
                instruction(1, &[], &[1]),
                instruction(0, &[1], &[9]),
            ],
            vec![
                InnerInstructions {
                    index: 2,
                    instructions: vec![instruction(0, &[1], &[17])],
                },
                InnerInstructions {
                    index: 0,
                    instructions: vec![
                        instruction(0, &[1], &[22]),
                        instruction(2, &[], &[]),
                        instruction(0, &[1, 2, 3], &[10]),
                    ],
                },
                InnerInstructions {
                    index: 0,
                    instructions: vec![instruction(0, &[1, 2, 3], &[11])],
                },
                InnerInstructions {
                    index: 7,
                    instructions: vec![instruction(0, &[1], &[9])],
                },
            ],
        ),
        transaction(vec![key(1), target()], vec![instruction(1, &[0], &[5])], vec![]),
    ]);
    let output = walk(&block);
    assert_eq!(
        types(&output),
        vec![
            "Transfer",
            "InitializeImmutableOwner",
            "FreezeAccount",
            "ThawAccount",
            "Revoke",
            "SyncNative",
            "CloseAccount",
        ]
    );
    let inner: Vec<bool> = output.data.iter().map(|e| e.is_inner_instruction).collect();
    assert_eq!(inner, vec![false, true, true, true, false, true, false]);
    assert!(output.diagnostics.is_empty());
}

#[test]
fn one_event_per_target_instruction() {
    let block = block_of(vec![
        transaction(
            vec![target(), key(1)],
            vec![
                instruction(0, &[1], &[9]),
                instruction(1, &[], &[]),
                instruction(0, &[1], &[17]),
            ],
            vec![
                InnerInstructions {
                    index: 1,
                    instructions: vec![instruction(0, &[1], &[9]), instruction(1, &[], &[])],
                },
                InnerInstructions {
                    index: 2,
                    instructions: vec![instruction(0, &[1], &[9]), instruction(0, &[], &[90])],
                },
            ],
        ),
        transaction(vec![target()], vec![instruction(0, &[], &[1])], vec![]),
    ]);
    let output = walk(&block);
    let top_level = 2 + 1;
    let inner = 1 + 2;
    assert_eq!(output.data.len(), top_level + inner);
    assert!(output.diagnostics.is_empty());
}

#[test]
fn compatible_numbering() {
    let block = block_of(vec![transaction(
        vec![key(1), key(2), target()],
        vec![instruction(1, &[], &[]), instruction(2, &[0], &[9])],
        vec![InnerInstructions {
            index: 1,
            instructions: vec![instruction(1, &[], &[]), instruction(2, &[0], &[17])],
        }],
    )]);
    let output = walk(&block);
    assert_eq!(output.data.len(), 2);
    let top = &output.data[0];
    assert_eq!(top.block_slot, 100);
    assert_eq!(top.instruction_index, 2);
    assert!(!top.is_inner_instruction);
    assert_eq!(top.inner_instruction_index, 0);
    let inner = &output.data[1];
    assert_eq!(inner.block_slot, 101);
    assert_eq!(inner.instruction_index, 2);
    assert!(inner.is_inner_instruction);
    assert_eq!(inner.inner_instruction_index, 2);
    for event in &output.data {
        assert_eq!(event.block_date, DATE);
        assert_eq!(event.block_time, TIME);
        assert_eq!(event.dapp, PROGRAM_ADDRESS);
        assert_eq!(event.tx_id, "he11owor1d");
    }
}

#[test]
fn positional_numbering() {
    let mut block = block_of(vec![transaction(
        vec![key(1), key(2), target()],
        vec![instruction(1, &[], &[]), instruction(2, &[0], &[9])],
        vec![InnerInstructions {
            index: 1,
            instructions: vec![instruction(1, &[], &[]), instruction(2, &[0], &[17])],
        }],
    )]);
    block.slot = 555;
    block.parent_slot = u64::MAX;
    let output =
        walk_block(&block, DATE, &LookupRepository::new(), Numbering::Positional).unwrap();
    assert_eq!(output.data.len(), 2);
    let top = &output.data[0];
    assert_eq!(top.block_slot, 555);
    assert_eq!(top.instruction_index, 1);
    assert_eq!(top.inner_instruction_index, 0);
    let inner = &output.data[1];
    assert_eq!(inner.block_slot, 555);
    assert_eq!(inner.instruction_index, 1);
    assert!(inner.is_inner_instruction);
    assert_eq!(inner.inner_instruction_index, 1);
}

#[test]
fn walking_twice_gives_the_same_output() {
    let mut repository = LookupRepository::new();
    repository.insert(table_key(&key(9)), vec![PROGRAM_ADDRESS.to_string(), "x".to_string()]);
    let mut confirmed = transaction(
        vec![key(1)],
        vec![instruction(1, &[0, 2], &transfer(3)), instruction(1, &[], &[3])],
        vec![InnerInstructions { index: 0, instructions: vec![instruction(1, &[2], &[9])] }],
    );
    confirmed.transaction.as_mut().unwrap().message.as_mut().unwrap().address_table_lookups =
        vec![MessageAddressTableLookup {
            account_key: key(9),
            writable_indexes: vec![0],
            readonly_indexes: vec![1],
        }];
    let block = block_of(vec![confirmed]);
    let first = map_block(&block, &repository);
    let second = map_block(&block, &repository);
    assert_eq!(first, second);
    let output = first.unwrap();
    assert_eq!(types(&output), vec!["Transfer", "Revoke"]);
    assert_eq!(output.data[0].input_accounts.destination, Some("x".to_string()));
    assert_eq!(
        output.diagnostics,
        vec![Diagnostic { transaction: 0, error: Error::MalformedInstructionPayload }]
    );
}

#[test]
fn an_absent_table_raises_no_error() {
    let mut confirmed =
        transaction(vec![target(), key(1)], vec![instruction(0, &[1], &[9])], vec![]);
    confirmed.transaction.as_mut().unwrap().message.as_mut().unwrap().address_table_lookups =
        vec![MessageAddressTableLookup {
            account_key: key(9),
            writable_indexes: vec![0, 1],
            readonly_indexes: vec![2],
        }];
    let output = walk(&block_of(vec![confirmed]));
    assert_eq!(types(&output), vec!["Revoke"]);
    assert!(output.diagnostics.is_empty());
}

#[test]
fn a_malformed_payload_costs_one_instruction() {
    let block = block_of(vec![transaction(
        vec![target(), key(1)],
        vec![
            instruction(0, &[1], &[3, 1, 2]),
            instruction(0, &[1], &[]),
            instruction(0, &[1], &[9]),
        ],
        vec![InnerInstructions { index: 0, instructions: vec![instruction(0, &[1], &[12])] }],
    )]);
    let output = walk(&block);
    assert_eq!(types(&output), vec!["Revoke"]);
    let note = Diagnostic { transaction: 0, error: Error::MalformedInstructionPayload };
    assert_eq!(output.diagnostics, vec![note, note, note]);
}

#[test]
fn an_unknown_opcode_gives_an_event() {
    let block = block_of(vec![transaction(
        vec![target(), key(1)],
        vec![instruction(0, &[1], &[77, 1, 2])],
        vec![],
    )]);
    let output = walk(&block);
    assert_eq!(types(&output), vec!["Unknown Instruction"]);
    assert_eq!(output.data[0].args, Arg::empty());
    assert_eq!(output.data[0].input_accounts.signer_accounts, vec![text(&key(1))]);
}

#[test]
fn an_unresolved_account_costs_the_transaction() {
    let block = block_of(vec![
        transaction(vec![target(), key(1)], vec![instruction(0, &[1], &[9])], vec![]),
        transaction(
            vec![target(), key(1)],
            vec![instruction(0, &[1], &[9]), instruction(0, &[2], &[9])],
            vec![],
        ),
        transaction(vec![target(), key(1)], vec![instruction(0, &[1], &[17])], vec![]),
    ]);
    let output = walk(&block);
    assert_eq!(types(&output), vec!["Revoke", "SyncNative"]);
    assert_eq!(
        output.diagnostics,
        vec![Diagnostic { transaction: 1, error: Error::UnresolvedAccountIndex }]
    );
}

#[test]
fn an_unresolved_program_costs_the_transaction() {
    let top = block_of(vec![transaction(
        vec![target()],
        vec![instruction(0, &[], &[9]), instruction(1, &[], &[])],
        vec![],
    )]);
    assert_eq!(
        walk(&top),
        Output {
            data: vec![],
            diagnostics: vec![Diagnostic { transaction: 0, error: Error::UnresolvedAccountIndex }],
        }
    );
    let inner = block_of(vec![transaction(
        vec![target()],
        vec![instruction(0, &[], &[9])],
        vec![InnerInstructions { index: 0, instructions: vec![instruction(5, &[], &[])] }],
    )]);
    assert_eq!(
        walk(&inner).diagnostics,
        vec![Diagnostic { transaction: 0, error: Error::UnresolvedAccountIndex }]
    );
    assert!(walk(&inner).data.is_empty());
}

#[test]
fn an_unresolved_account_comes_before_a_malformed_payload() {
    let block = block_of(vec![transaction(
        vec![target()],
        vec![instruction(0, &[4], &[3, 1])],
        vec![],
    )]);
    assert_eq!(
        walk(&block).diagnostics,
        vec![Diagnostic { transaction: 0, error: Error::UnresolvedAccountIndex }]
    );
}

#[test]
fn a_lookup_past_its_table_costs_the_transaction() {
    let mut repository = LookupRepository::new();
    repository.insert(table_key(&key(9)), vec!["only".to_string()]);
    let mut confirmed =
        transaction(vec![target(), key(1)], vec![instruction(0, &[1], &[9])], vec![]);
    confirmed.transaction.as_mut().unwrap().message.as_mut().unwrap().address_table_lookups =
        vec![MessageAddressTableLookup {
            account_key: key(9),
            writable_indexes: vec![1],
            readonly_indexes: vec![],
        }];
    let block = block_of(vec![
        confirmed,
        transaction(vec![target(), key(1)], vec![instruction(0, &[1], &[9])], vec![]),
    ]);
    let output = map_block(&block, &repository).unwrap();
    assert_eq!(types(&output), vec!["Revoke"]);
    assert_eq!(
        output.diagnostics,
        vec![Diagnostic { transaction: 0, error: Error::LookupIndexOutOfRange }]
    );
}

#[test]
fn a_block_without_timestamp_fails() {
    let mut block = block_of(vec![]);
    block.block_time = None;
    assert_eq!(
        map_block(&block, &LookupRepository::new()),
        Err(Error::MissingBlockTimestamp)
    );
    let mut block = block_of(vec![ConfirmedTransaction { transaction: None, meta: None }]);
    block.block_time = None;
    assert_eq!(
        map_block(&block, &LookupRepository::new()),
        Err(Error::MissingBlockTimestamp)
    );
}

#[test]
fn a_transaction_without_metadata_fails_the_block() {
    let mut confirmed =
        transaction(vec![target(), key(1)], vec![instruction(0, &[1], &[9])], vec![]);
    confirmed.meta = None;
    let block = block_of(vec![
        transaction(vec![target(), key(1)], vec![instruction(0, &[1], &[9])], vec![]),
        confirmed,
    ]);
    assert_eq!(
        map_block(&block, &LookupRepository::new()),
        Err(Error::MissingTransactionMeta)
    );
}

#[test]
fn a_transaction_without_message_fails_the_block() {
    let mut confirmed = transaction(vec![target()], vec![], vec![]);
    confirmed.transaction.as_mut().unwrap().message = None;
    let block = block_of(vec![confirmed.clone()]);
    assert_eq!(map_block(&block, &LookupRepository::new()), Err(Error::MissingMessage));
    confirmed.meta = None;
    let block = block_of(vec![confirmed]);
    assert_eq!(
        map_block(&block, &LookupRepository::new()),
        Err(Error::MissingTransactionMeta)
    );
}

#[test]
fn an_entry_without_transaction_is_passed_by() {
    let block = block_of(vec![
        ConfirmedTransaction { transaction: None, meta: None },
        ConfirmedTransaction {
            transaction: None,
            meta: Some(TransactionStatusMeta { inner_instructions: vec![] }),
        },
        transaction(vec![target(), key(1)], vec![instruction(0, &[1], &[9])], vec![]),
    ]);
    let output = walk(&block);
    assert_eq!(types(&output), vec!["Revoke"]);
    assert!(output.diagnostics.is_empty());
}

#[test]
fn an_empty_block_gives_nothing() {
    assert_eq!(walk(&block_of(vec![])), Output { data: vec![], diagnostics: vec![] });
    assert_eq!(Output::new(), Output { data: vec![], diagnostics: vec![] });
}

#[test]
fn transaction_identifiers() {
    assert_eq!(tx_id(&vec![vec![0x04, 0x30, 0x5e, 0x2b, 0x24, 0x73, 0xf0, 0x58], vec![1]]), "he11owor1d");
    assert_eq!(tx_id(&vec![vec![0u8; 3]]), "111");
    assert_eq!(tx_id(&vec![]), "");
}

#[test]
fn one_transaction_on_its_own() {
    let frame = BlockFrame {
        block_date: DATE.to_string(),
        block_time: TIME,
        slot: 9,
        parent_slot: 8,
        numbering: Numbering::Compatible,
    };
    let message = Message {
        account_keys: vec![target(), key(1)],
        address_table_lookups: vec![],
        instructions: vec![instruction(0, &[1], &[9]), instruction(0, &[1], &[3])],
    };
    let meta = TransactionStatusMeta { inner_instructions: vec![] };
    let output = process_transaction(
        &frame,
        4,
        &vec![vec![0u8; 2]],
        &message,
        &meta,
        &LookupRepository::new(),
    )
    .unwrap();
    assert_eq!(types(&output), vec!["Revoke"]);
    assert_eq!(output.data[0].tx_id, "11");
    assert_eq!(output.data[0].block_slot, 8);
    assert_eq!(
        output.diagnostics,
        vec![Diagnostic { transaction: 4, error: Error::MalformedInstructionPayload }]
    );
    let bad = Message {
        account_keys: vec![target()],
        address_table_lookups: vec![],
        instructions: vec![instruction(0, &[1], &[9])],
    };
    assert_eq!(
        process_transaction(&frame, 0, &vec![], &bad, &meta, &LookupRepository::new()),
        Err(Error::UnresolvedAccountIndex)
    );
}
