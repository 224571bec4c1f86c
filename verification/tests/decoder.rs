use spl_token_events::error::Error;
use spl_token_events::instruction::{
    decode, decode_args, decode_data, encode, encode_args, InstructionArgs, InstructionDescriptor,
    InstructionKind, PayloadLayout,
};
use spl_token_events::numeric::{decimal_string, read_u64_le, write_u64_le};

fn key_bytes(first: u8) -> [u8; 32] {
    let mut key = [0u8; 32];
    let mut i = 0;
    while i < 32 {
        key[i] = first.wrapping_add(i as u8);
        i += 1;
    }
    key
}

#[test]
fn every_opcode_selects_its_instruction() {
    let expected = [
        InstructionKind::InitializeMint,
        InstructionKind::InitializeAccount,
        InstructionKind::InitializeMultisig,
        InstructionKind::Transfer,
        InstructionKind::Approve,
        InstructionKind::CloseAccount,
        InstructionKind::SetAuthority,
        InstructionKind::MintTo,
        InstructionKind::Burn,
        InstructionKind::Revoke,
        InstructionKind::FreezeAccount,
        InstructionKind::ThawAccount,
        InstructionKind::TransferChecked,
        InstructionKind::ApproveChecked,
        InstructionKind::MintToChecked,
        InstructionKind::BurnChecked,
        InstructionKind::InitializeAccount2,
        InstructionKind::SyncNative,
        InstructionKind::InitializeAccount3,
        InstructionKind::InitializeMultisig2,
        InstructionKind::InitializeMint2,
        InstructionKind::GetAccountDataSize,
        InstructionKind::InitializeImmutableOwner,
        InstructionKind::AmountToUiAmount,
        InstructionKind::UiAmountToAmount,
        InstructionKind::InitializeMintCloseAuthority,
        InstructionKind::TransferFeeExtension,
        InstructionKind::ConfidentialTransferExtension,
        InstructionKind::DefaultAccountStateExtension,
        InstructionKind::Reallocate,
        InstructionKind::MemoTransferExtension,
        InstructionKind::CreateNativeMint,
        InstructionKind::InitializeNonTransferableMint,
        InstructionKind::InterestBearingMintExtension,
    ];
    let mut opcode = 0usize;
    while opcode < expected.len() {
        assert_eq!(InstructionKind::from_opcode(opcode as u8), expected[opcode]);
        opcode += 1;
    }
}

#[test]
fn opcodes_past_the_table_are_unknown() {
    let mut opcode = 34u16;
    while opcode <= 255 {
        assert_eq!(InstructionKind::from_opcode(opcode as u8), InstructionKind::Unknown);
        let decoded = decode(opcode as u8, &[1, 2, 3]);
        assert_eq!(
            decoded,
            Ok(InstructionDescriptor { kind: InstructionKind::Unknown, args: InstructionArgs::Empty })
        );
        opcode += 1;
    }
}

#[test]
fn labels_are_the_instruction_names() {
    assert_eq!(InstructionKind::InitializeMint.label(), "InitializeMint");
    assert_eq!(InstructionKind::Revoke.label(), "Revoke");
    assert_eq!(InstructionKind::CloseAccount.label(), "CloseAccount");
    assert_eq!(InstructionKind::TransferChecked.label(), "TransferChecked");
    assert_eq!(
        InstructionKind::InterestBearingMintExtension.label(),
        "InterestBearingMintExtension"
    );
    assert_eq!(InstructionKind::Unknown.label(), "Unknown Instruction");
}

#[test]
fn set_authority_with_a_new_authority() {
    let key = key_bytes(40);
    let mut data = vec![6u8, 2, 1];
    data.extend_from_slice(&key);
    let decoded = decode_data(&data).unwrap();
    assert_eq!(decoded.kind, InstructionKind::SetAuthority);
    assert_eq!(
        decoded.args,
        InstructionArgs::Authority {
            authority_type: 2,
            new_authority_option: 1,
            new_authority: Some(key),
        }
    );
}

#[test]
fn set_authority_without_a_new_authority() {
    let decoded = decode(6, &[3, 0]).unwrap();
    assert_eq!(
        decoded.args,
        InstructionArgs::Authority { authority_type: 3, new_authority_option: 0, new_authority: None }
    );
}

#[test]
fn an_all_zero_key_is_a_key() {
    let mut payload = vec![0u8, 1];
    payload.extend_from_slice(&[0u8; 32]);
    let decoded = decode(6, &payload).unwrap();
    assert_eq!(
        decoded.args,
        InstructionArgs::Authority {
            authority_type: 0,
            new_authority_option: 1,
            new_authority: Some([0u8; 32]),
        }
    );
}

#[test]
fn a_flag_that_is_not_one_announces_no_key() {
    let decoded = decode(6, &[1, 2, 9, 9, 9]).unwrap();
    assert_eq!(
        decoded.args,
        InstructionArgs::Authority { authority_type: 1, new_authority_option: 2, new_authority: None }
    );
}

#[test]
fn initialize_mint_round_trip() {
    let authority = key_bytes(1);
    let freeze = key_bytes(100);
    let mut payload = vec![9u8];
    payload.extend_from_slice(&authority);
    payload.push(1);
    payload.extend_from_slice(&freeze);
    let want = InstructionArgs::MintSetup {
        decimals: 9,
        mint_authority: authority,
        freeze_authority_option: 1,
        freeze_authority: Some(freeze),
    };
    assert_eq!(
        decode(0, &payload),
        Ok(InstructionDescriptor { kind: InstructionKind::InitializeMint, args: want })
    );
    assert_eq!(
        decode(20, &payload),
        Ok(InstructionDescriptor { kind: InstructionKind::InitializeMint2, args: want })
    );
}

#[test]
fn initialize_mint_without_freeze_authority() {
    let authority = key_bytes(1);
    let mut payload = vec![6u8];
    payload.extend_from_slice(&authority);
    payload.push(0);
    assert_eq!(
        decode(0, &payload).unwrap().args,
        InstructionArgs::MintSetup {
            decimals: 6,
            mint_authority: authority,
            freeze_authority_option: 0,
            freeze_authority: None,
        }
    );
}

#[test]
fn amount_round_trip() {
    let amount: u64 = 0x0102_0304_0506_0708;
    let payload = [8u8, 7, 6, 5, 4, 3, 2, 1];
    for opcode in [3u8, 4, 7, 8, 23] {
        assert_eq!(decode(opcode, &payload).unwrap().args, InstructionArgs::Amount { amount });
    }
    assert_eq!(
        decode(3, &u64::MAX.to_le_bytes()).unwrap().args,
        InstructionArgs::Amount { amount: u64::MAX }
    );
}

#[test]
fn checked_amount_round_trip() {
    let mut payload = 1_000_000u64.to_le_bytes().to_vec();
    payload.push(6);
    for opcode in [12u8, 13, 14, 15] {
        assert_eq!(
            decode(opcode, &payload).unwrap().args,
            InstructionArgs::AmountDecimals { amount: 1_000_000, decimals: 6 }
        );
    }
}

#[test]
fn owner_round_trip() {
    let owner = key_bytes(200);
    for opcode in [16u8, 18, 25] {
        assert_eq!(decode(opcode, &owner).unwrap().args, InstructionArgs::Owner { owner });
    }
}

#[test]
fn single_byte_round_trips() {
    assert_eq!(decode(2, &[3]).unwrap().args, InstructionArgs::Status { status: 3 });
    assert_eq!(decode(19, &[11]).unwrap().args, InstructionArgs::Status { status: 11 });
    assert_eq!(
        decode(21, &[7]).unwrap().args,
        InstructionArgs::ExtensionType { extension_type: 7 }
    );
}

#[test]
fn ui_amount_keeps_the_bits_of_the_float() {
    let payload = 1.5f64.to_le_bytes();
    let decoded = decode(24, &payload).unwrap();
    match decoded.args {
        InstructionArgs::UiAmount { bits } => assert_eq!(f64::from_bits(bits), 1.5),
        _ => panic!("not a ui amount"),
    }
}

#[test]
fn instructions_without_fields_ignore_their_payload() {
    for opcode in [1u8, 5, 9, 10, 11, 17, 22, 26, 27, 28, 29, 30, 31, 32, 33] {
        assert_eq!(decode(opcode, &[]).unwrap().args, InstructionArgs::Empty);
        assert_eq!(decode(opcode, &[1, 2, 3]).unwrap().args, InstructionArgs::Empty);
    }
}

#[test]
fn bytes_past_the_layout_are_ignored() {
    let mut payload = 5u64.to_le_bytes().to_vec();
    payload.extend_from_slice(&[0xff, 0xff]);
    assert_eq!(decode(3, &payload).unwrap().args, InstructionArgs::Amount { amount: 5 });
}

#[test]
fn short_payloads_are_malformed() {
    let malformed = Err(Error::MalformedInstructionPayload);
    assert_eq!(decode(3, &[1, 2, 3, 4, 5, 6, 7]), malformed);
    assert_eq!(decode(12, &[1, 2, 3, 4, 5, 6, 7, 8]), malformed);
    assert_eq!(decode(2, &[]), malformed);
    assert_eq!(decode(21, &[]), malformed);
    assert_eq!(decode(24, &[0; 7]), malformed);
    assert_eq!(decode(16, &[0; 31]), malformed);
    assert_eq!(decode(6, &[1]), malformed);
    assert_eq!(decode(6, &[1; 33]), malformed);
    assert_eq!(decode(0, &[0; 33]), malformed);
    let mut mint = vec![0u8; 33];
    mint.push(1);
    mint.extend_from_slice(&[0u8; 31]);
    assert_eq!(decode(0, &mint), malformed);
}

#[test]
fn data_without_an_opcode_is_malformed() {
    assert_eq!(decode_data(&[]), Err(Error::MalformedInstructionPayload));
}

#[test]
fn decode_args_follows_the_layout() {
    assert_eq!(decode_args(PayloadLayout::Empty, &[]), Ok(InstructionArgs::Empty));
    assert_eq!(
        decode_args(PayloadLayout::Amount, &[1, 0, 0, 0, 0, 0, 0, 0]),
        Ok(InstructionArgs::Amount { amount: 1 })
    );
    assert_eq!(
        decode_args(PayloadLayout::Status, &[]),
        Err(Error::MalformedInstructionPayload)
    );
    assert_eq!(InstructionKind::Transfer.layout(), PayloadLayout::Amount);
    assert_eq!(InstructionKind::Revoke.layout(), PayloadLayout::Empty);
    assert_eq!(InstructionKind::SetAuthority.layout(), PayloadLayout::Authority);
}

#[test]
fn little_endian_numbers() {
    assert_eq!(read_u64_le(&[1, 0, 0, 0, 0, 0, 0, 0], 0), 1);
    assert_eq!(read_u64_le(&[0, 1, 0, 0, 0, 0, 0, 0], 0), 256);
    assert_eq!(read_u64_le(&[9, 0, 0, 0, 0, 0, 0, 0, 0x80], 1), 1u64 << 63);
    assert_eq!(read_u64_le(&[0xff; 8], 0), u64::MAX);
}

#[test]
fn decimal_numerals() {
    assert_eq!(decimal_string(0), "0");
    assert_eq!(decimal_string(7), "7");
    assert_eq!(decimal_string(10), "10");
    assert_eq!(decimal_string(99), "99");
    assert_eq!(decimal_string(100), "100");
    assert_eq!(decimal_string(205), "205");
    assert_eq!(decimal_string(255), "255");
    let mut n = 0u16;
    while n <= 255 {
        assert_eq!(decimal_string(n as u8), format!("{}", n));
        n += 1;
    }
}

fn sample_args(layout: PayloadLayout, seed: u8) -> Vec<InstructionArgs> {
    let amount = 0x0123_4567_89ab_cdefu64.wrapping_mul(seed as u64 + 1);
    match layout {
        PayloadLayout::Empty => vec![InstructionArgs::Empty],
        PayloadLayout::MintSetup => vec![
            InstructionArgs::MintSetup {
                decimals: seed,
                mint_authority: key_bytes(seed),
                freeze_authority_option: 1,
                freeze_authority: Some(key_bytes(seed.wrapping_add(90))),
            },
            InstructionArgs::MintSetup {
                decimals: seed,
                mint_authority: key_bytes(seed),
                freeze_authority_option: 0,
                freeze_authority: None,
            },
            InstructionArgs::MintSetup {
                decimals: seed,
                mint_authority: [0u8; 32],
                freeze_authority_option: 7,
                freeze_authority: None,
            },
        ],
        PayloadLayout::Status => vec![
            InstructionArgs::Status { status: seed },
            InstructionArgs::Status { status: 255 },
        ],
        PayloadLayout::Amount => vec![
            InstructionArgs::Amount { amount },
            InstructionArgs::Amount { amount: 0 },
            InstructionArgs::Amount { amount: u64::MAX },
        ],
        PayloadLayout::Authority => vec![
            InstructionArgs::Authority {
                authority_type: seed,
                new_authority_option: 1,
                new_authority: Some(key_bytes(seed)),
            },
            InstructionArgs::Authority {
                authority_type: seed,
                new_authority_option: 0,
                new_authority: None,
            },
        ],
        PayloadLayout::AmountDecimals => vec![
            InstructionArgs::AmountDecimals { amount, decimals: seed },
            InstructionArgs::AmountDecimals { amount: u64::MAX, decimals: 255 },
        ],
        PayloadLayout::Owner => vec![InstructionArgs::Owner { owner: key_bytes(seed) }],
        PayloadLayout::ExtensionType => {
            vec![InstructionArgs::ExtensionType { extension_type: seed }]
        }
        PayloadLayout::UiAmount => vec![
            InstructionArgs::UiAmount { bits: 1.5f64.to_bits() },
            InstructionArgs::UiAmount { bits: (-0.0f64).to_bits() },
            InstructionArgs::UiAmount { bits: f64::MAX.to_bits() },
        ],
    }
}

#[test]
fn decoding_undoes_encoding_for_every_opcode() {
    let mut opcode = 0u8;
    let mut checked = 0;
    while opcode < 34 {
        let kind = InstructionKind::from_opcode(opcode);
        assert_eq!(kind.opcode(), opcode);
        for args in sample_args(kind.layout(), opcode) {
            let descriptor = InstructionDescriptor { kind, args };
            let data = encode(&descriptor);
            assert_eq!(data[0], opcode);
            assert_eq!(decode_data(&data), Ok(descriptor));
            assert_eq!(decode(opcode, &data[1..]), Ok(descriptor));
            let mut longer = data.clone();
            longer.extend_from_slice(&[0xaa, 0xbb, 0xcc]);
            assert_eq!(decode_data(&longer), Ok(descriptor));
            checked += 1;
        }
        opcode += 1;
    }
    assert_eq!(checked, 15 + 2 * 3 + 2 * 2 + 5 * 3 + 2 + 4 * 2 + 3 + 1 + 3);
}

#[test]
fn encoded_payloads_are_laid_out_without_padding() {
    assert_eq!(encode_args(&InstructionArgs::Empty), Vec::<u8>::new());
    assert_eq!(encode_args(&InstructionArgs::Status { status: 4 }), vec![4]);
    assert_eq!(
        encode_args(&InstructionArgs::AmountDecimals { amount: 258, decimals: 9 }),
        vec![2, 1, 0, 0, 0, 0, 0, 0, 9]
    );
    let key = key_bytes(3);
    let mut want = vec![6u8, 2, 1];
    want.extend_from_slice(&key);
    assert_eq!(
        encode(&InstructionDescriptor {
            kind: InstructionKind::SetAuthority,
            args: InstructionArgs::Authority {
                authority_type: 2,
                new_authority_option: 1,
                new_authority: Some(key),
            },
        }),
        want
    );
    assert_eq!(
        encode(&InstructionDescriptor { kind: InstructionKind::Revoke, args: InstructionArgs::Empty }),
        vec![9]
    );
    assert_eq!(InstructionKind::Unknown.opcode(), 255);
}

#[test]
fn numbers_are_written_least_significant_byte_first() {
    assert_eq!(write_u64_le(1), vec![1, 0, 0, 0, 0, 0, 0, 0]);
    assert_eq!(write_u64_le(0x0102_0304_0506_0708), vec![8, 7, 6, 5, 4, 3, 2, 1]);
    assert_eq!(write_u64_le(u64::MAX), vec![0xff; 8]);
    for v in [0u64, 255, 256, 65_535, 1 << 40, u64::MAX - 1] {
        assert_eq!(write_u64_le(v), v.to_le_bytes().to_vec());
        assert_eq!(read_u64_le(&write_u64_le(v), 0), v);
    }
}
