use spl_token_events::args::{describe_args, Arg};
use spl_token_events::base58::get_b58_string;
use spl_token_events::error::Error;
use spl_token_events::instruction::{InstructionArgs, InstructionDescriptor, InstructionKind};
use spl_token_events::outer_arg::{get_outer_arg, parse_instruction, read_outer_arg, OuterArg};
use spl_token_events::roles::{
    assign_roles, fixed_roles_of, name_roles, prepare_account_args, Accounts, Role,
};

fn names_of(names: &[&str]) -> Vec<String> {
    names.iter().map(|n| n.to_string()).collect()
}

fn some_text(text: &str) -> Option<String> {
    Some(text.to_string())
}

#[test]
fn transfer_roles_and_signers() {
    let accounts = name_roles(InstructionKind::Transfer, &names_of(&["s", "d", "a", "x", "y"]));
    let mut want = Accounts::empty();
    want.source = some_text("s");
    want.destination = some_text("d");
    want.authority = some_text("a");
    want.signer_accounts = names_of(&["x", "y"]);
    assert_eq!(accounts, want);
}

#[test]
fn initialize_mint_roles() {
    let accounts = name_roles(InstructionKind::InitializeMint, &names_of(&["m", "r"]));
    let mut want = Accounts::empty();
    want.mint = some_text("m");
    want.rent_sysvar = some_text("r");
    assert_eq!(accounts, want);
}

#[test]
fn mint_to_roles() {
    let accounts = name_roles(InstructionKind::MintTo, &names_of(&["m", "acc", "auth"]));
    let mut want = Accounts::empty();
    want.mint = some_text("m");
    want.account = some_text("acc");
    want.authority = some_text("auth");
    assert_eq!(accounts, want);
}

#[test]
fn revoke_roles() {
    let accounts = name_roles(InstructionKind::Revoke, &names_of(&["acc"]));
    let mut want = Accounts::empty();
    want.account = some_text("acc");
    assert_eq!(accounts, want);
}

#[test]
fn roles_without_an_account_stay_absent() {
    let accounts = name_roles(InstructionKind::TransferChecked, &names_of(&["s", "m"]));
    let mut want = Accounts::empty();
    want.source = some_text("s");
    want.mint = some_text("m");
    assert_eq!(accounts, want);
    assert_eq!(accounts.destination, None);
    assert_eq!(accounts.authority, None);
    assert!(accounts.signer_accounts.is_empty());
}

#[test]
fn instructions_without_roles_have_only_signers() {
    let accounts = name_roles(InstructionKind::Unknown, &names_of(&["a", "b"]));
    let mut want = Accounts::empty();
    want.signer_accounts = names_of(&["a", "b"]);
    assert_eq!(accounts, want);
}

#[test]
fn reallocate_and_native_mint_roles() {
    let accounts = name_roles(InstructionKind::Reallocate, &names_of(&["a", "p", "sys", "o", "k"]));
    let mut want = Accounts::empty();
    want.account = some_text("a");
    want.payer = some_text("p");
    want.fund_relocation_sys_program = some_text("sys");
    want.owner = some_text("o");
    want.signer_accounts = names_of(&["k"]);
    assert_eq!(accounts, want);

    let accounts = name_roles(InstructionKind::CreateNativeMint, &names_of(&["f", "m", "sys"]));
    let mut want = Accounts::empty();
    want.funding_account = some_text("f");
    want.mint = some_text("m");
    want.mint_funding_sys_program = some_text("sys");
    assert_eq!(accounts, want);
}

#[test]
fn fixed_roles_table() {
    assert_eq!(
        fixed_roles_of(InstructionKind::Transfer),
        vec![Role::Source, Role::Destination, Role::Authority]
    );
    assert_eq!(fixed_roles_of(InstructionKind::InitializeMint), vec![Role::Mint, Role::RentSysvar]);
    assert_eq!(
        fixed_roles_of(InstructionKind::MintTo),
        vec![Role::Mint, Role::Account, Role::Authority]
    );
    assert_eq!(fixed_roles_of(InstructionKind::Unknown), Vec::<Role>::new());
}

#[test]
fn assign_keeps_the_first_name() {
    let mut accounts = Accounts::empty();
    accounts.assign(Role::Mint, "first".to_string());
    accounts.assign(Role::Mint, "second".to_string());
    assert_eq!(accounts.mint, some_text("first"));
}

#[test]
fn account_args_follow_the_indices() {
    let accounts = names_of(&["a", "b", "c"]);
    assert_eq!(prepare_account_args(&vec![2, 0, 2], &accounts), Ok(names_of(&["c", "a", "c"])));
    assert_eq!(prepare_account_args(&vec![], &accounts), Ok(vec![]));
}

#[test]
fn an_index_past_the_accounts_is_unresolved() {
    let accounts = names_of(&["a", "b", "c"]);
    assert_eq!(prepare_account_args(&vec![0, 3], &accounts), Err(Error::UnresolvedAccountIndex));
    assert_eq!(prepare_account_args(&vec![0], &vec![]), Err(Error::UnresolvedAccountIndex));
}

#[test]
fn keys_are_reported_in_base58() {
    assert_eq!(get_b58_string([0u8; 32]), some_text("11111111111111111111111111111111"));
    let mut key = [0u8; 32];
    key[31] = 1;
    assert_eq!(get_b58_string(key), some_text("11111111111111111111111111111112"));
    let key = [0xabu8; 32];
    assert_eq!(get_b58_string(key), Some(bs58::encode(key).into_string()));
}

#[test]
fn set_authority_arguments() {
    let key = [5u8; 32];
    let descriptor = InstructionDescriptor {
        kind: InstructionKind::SetAuthority,
        args: InstructionArgs::Authority {
            authority_type: 2,
            new_authority_option: 1,
            new_authority: Some(key),
        },
    };
    let mut want = Arg::empty();
    want.authority_type = some_text("2");
    want.new_authority_option = Some(1);
    want.new_authority = Some(bs58::encode(key).into_string());
    assert_eq!(describe_args(&descriptor), want);
}

#[test]
fn an_absent_key_is_reported_as_absent() {
    let descriptor = InstructionDescriptor {
        kind: InstructionKind::InitializeMint,
        args: InstructionArgs::MintSetup {
            decimals: 6,
            mint_authority: [0u8; 32],
            freeze_authority_option: 0,
            freeze_authority: None,
        },
    };
    let mut want = Arg::empty();
    want.decimals = Some(6);
    want.mint_authority = some_text("11111111111111111111111111111111");
    want.freeze_authority_option = Some(0);
    assert_eq!(describe_args(&descriptor), want);
}

#[test]
fn initialize_mint2_reports_no_flag() {
    let descriptor = InstructionDescriptor {
        kind: InstructionKind::InitializeMint2,
        args: InstructionArgs::MintSetup {
            decimals: 2,
            mint_authority: [0u8; 32],
            freeze_authority_option: 1,
            freeze_authority: Some([0u8; 32]),
        },
    };
    let mut want = Arg::empty();
    want.decimals = Some(2);
    want.mint_authority = some_text("11111111111111111111111111111111");
    want.freeze_authority = some_text("11111111111111111111111111111111");
    assert_eq!(describe_args(&descriptor), want);
}

#[test]
fn arguments_by_layout() {
    let of = |kind, args| describe_args(&InstructionDescriptor { kind, args });

    let mut want = Arg::empty();
    want.amount = Some(77);
    assert_eq!(of(InstructionKind::Burn, InstructionArgs::Amount { amount: 77 }), want);

    let mut want = Arg::empty();
    want.amount = Some(5);
    want.decimals = Some(9);
    assert_eq!(
        of(InstructionKind::BurnChecked, InstructionArgs::AmountDecimals { amount: 5, decimals: 9 }),
        want
    );

    let mut want = Arg::empty();
    want.status = Some(255);
    assert_eq!(of(InstructionKind::InitializeMultisig, InstructionArgs::Status { status: 255 }), want);

    let mut want = Arg::empty();
    want.extension_type = Some(3);
    assert_eq!(
        of(InstructionKind::GetAccountDataSize, InstructionArgs::ExtensionType { extension_type: 3 }),
        want
    );

    let mut want = Arg::empty();
    want.owner = some_text("11111111111111111111111111111111");
    assert_eq!(of(InstructionKind::InitializeAccount3, InstructionArgs::Owner { owner: [0; 32] }), want);

    let mut want = Arg::empty();
    want.ui_amount_bits = Some(2.5f64.to_bits());
    assert_eq!(
        of(InstructionKind::UiAmountToAmount, InstructionArgs::UiAmount { bits: 2.5f64.to_bits() }),
        want
    );

    assert_eq!(of(InstructionKind::SyncNative, InstructionArgs::Empty), Arg::empty());
}

#[test]
fn parse_instruction_decodes_and_assigns() {
    let mut data = vec![12u8];
    data.extend_from_slice(&10u64.to_le_bytes());
    data.push(2);
    let parsed = parse_instruction(&data, &names_of(&["s", "m", "d", "a", "k"])).unwrap();
    assert_eq!(parsed.descriptor.kind, InstructionKind::TransferChecked);
    assert_eq!(parsed.descriptor.args, InstructionArgs::AmountDecimals { amount: 10, decimals: 2 });
    assert_eq!(parsed.instruction_accounts.source, some_text("s"));
    assert_eq!(parsed.instruction_accounts.mint, some_text("m"));
    assert_eq!(parsed.instruction_accounts.destination, some_text("d"));
    assert_eq!(parsed.instruction_accounts.authority, some_text("a"));
    assert_eq!(parsed.instruction_accounts.signer_accounts, names_of(&["k"]));
    assert_eq!(
        parse_instruction(&[12, 1], &names_of(&["s"])),
        Err(Error::MalformedInstructionPayload)
    );
}

#[test]
fn outer_arg_of_a_transfer() {
    let accounts = names_of(&["p", "s", "d", "a"]);
    let mut data = vec![3u8];
    data.extend_from_slice(&42u64.to_le_bytes());
    let outer = get_outer_arg(data, &vec![1, 2, 3], &accounts).unwrap();
    let mut want_accounts = Accounts::empty();
    want_accounts.source = some_text("s");
    want_accounts.destination = some_text("d");
    want_accounts.authority = some_text("a");
    let mut want_arg = Arg::empty();
    want_arg.amount = Some(42);
    assert_eq!(
        outer,
        OuterArg {
            instruction_type: "Transfer".to_string(),
            input_accounts: want_accounts,
            arg: want_arg,
        }
    );
}

#[test]
fn outer_arg_of_an_unknown_opcode() {
    let accounts = names_of(&["p", "x"]);
    let outer = get_outer_arg(vec![200, 1, 2], &vec![1], &accounts).unwrap();
    assert_eq!(outer.instruction_type, "Unknown Instruction");
    assert_eq!(outer.arg, Arg::empty());
    assert_eq!(outer.input_accounts.signer_accounts, names_of(&["x"]));
}

#[test]
fn outer_arg_failures() {
    let accounts = names_of(&["p", "x"]);
    assert_eq!(
        get_outer_arg(vec![3, 1], &vec![1], &accounts),
        Err(Error::MalformedInstructionPayload)
    );
    assert_eq!(get_outer_arg(vec![], &vec![1], &accounts), Err(Error::MalformedInstructionPayload));
    assert_eq!(get_outer_arg(vec![9], &vec![2], &accounts), Err(Error::UnresolvedAccountIndex));
    assert_eq!(get_outer_arg(vec![3, 1], &vec![2], &accounts), Err(Error::UnresolvedAccountIndex));
    assert_eq!(
        read_outer_arg(&[3, 1], &vec![1], &accounts),
        Err(Error::MalformedInstructionPayload)
    );
}

#[test]
fn default_outer_arg_is_empty() {
    let outer = OuterArg::default();
    assert_eq!(outer.instruction_type, "");
    assert_eq!(outer.input_accounts, Accounts::empty());
    assert_eq!(outer.arg, Arg::empty());
}

#[test]
fn roles_from_indices() {
    let resolved = names_of(&["p", "s", "d", "a", "k"]);
    let descriptor = InstructionDescriptor {
        kind: InstructionKind::Transfer,
        args: InstructionArgs::Amount { amount: 1 },
    };
    let accounts = assign_roles(&descriptor, &vec![3, 1, 2, 4, 4], &resolved).unwrap();
    let mut want = Accounts::empty();
    want.source = some_text("a");
    want.destination = some_text("s");
    want.authority = some_text("d");
    want.signer_accounts = names_of(&["k", "k"]);
    assert_eq!(accounts, want);
    assert_eq!(
        assign_roles(&descriptor, &vec![1, 5], &resolved),
        Err(Error::UnresolvedAccountIndex)
    );
}

#[test]
fn the_crate_root_offers_the_entry_points() {
    let accounts = names_of(&["p", "x"]);
    let names = spl_token_events::prepare_account_args(&vec![1], &accounts).unwrap();
    assert_eq!(names, names_of(&["x"]));
    let outer: spl_token_events::OuterArg =
        spl_token_events::get_outer_arg(vec![17], &vec![1], &accounts).unwrap();
    assert_eq!(outer.instruction_type, "SyncNative");
    assert_eq!(outer.input_accounts.account, some_text("x"));
    assert_eq!(
        spl_token_events::get_b58_string([0u8; 32]),
        some_text("11111111111111111111111111111111")
    );
}
