//! The instruction decoder: from an opcode and its payload bytes to a typed
//! descriptor.
//!
//! Every opcode has a fixed payload layout, read from the front of the payload
//! without padding. Bytes past the end of the layout are ignored; a payload
//! that ends before its layout does is malformed.

use crate::error::Error;
use crate::numeric::{le_u64, lemma_le_u64_of_bytes, read_u64_le, u64_le_bytes, write_u64_le};
use vstd::prelude::*;

verus! {

/// The instructions of the token program, and `Unknown` for every opcode that
/// is none of them.
#[derive(Clone, Copy, Debug, PartialEq, Eq, Structural)]
pub enum InstructionKind {
    InitializeMint,
    InitializeAccount,
    InitializeMultisig,
    Transfer,
    Approve,
    CloseAccount,
    SetAuthority,
    MintTo,
    Burn,
    Revoke,
    FreezeAccount,
    ThawAccount,
    TransferChecked,
    ApproveChecked,
    MintToChecked,
    BurnChecked,
    InitializeAccount2,
    SyncNative,
    InitializeAccount3,
    InitializeMultisig2,
    InitializeMint2,
    GetAccountDataSize,
    InitializeImmutableOwner,
    AmountToUiAmount,
    UiAmountToAmount,
    InitializeMintCloseAuthority,
    TransferFeeExtension,
    ConfidentialTransferExtension,
    DefaultAccountStateExtension,
    Reallocate,
    MemoTransferExtension,
    CreateNativeMint,
    InitializeNonTransferableMint,
    InterestBearingMintExtension,
    Unknown,
}

/// The shapes that a payload can have.
#[derive(Clone, Copy, Debug, PartialEq, Eq, Structural)]
pub enum PayloadLayout {
    /// No field.
    Empty,
    /// Decimals (1 byte), mint authority (32 bytes), then an optional freeze
    /// authority: a flag byte and, where the flag is 1, 32 bytes.
    MintSetup,
    /// A status code (1 byte).
    Status,
    /// An amount (8 bytes, least significant first).
    Amount,
    /// An authority type (1 byte), then an optional new authority: a flag
    /// byte and, where the flag is 1, 32 bytes.
    Authority,
    /// An amount (8 bytes, least significant first), then decimals (1 byte).
    AmountDecimals,
    /// An owner (32 bytes).
    Owner,
    /// An extension type (1 byte).
    ExtensionType,
    /// A 64-bit binary float (8 bytes, least significant first), kept as its
    /// bit pattern.
    UiAmount,
}

/// The typed fields of one payload. A public key is kept as its 32 raw bytes.
/// An optional key comes with the flag byte that announced it.
#[derive(Clone, Copy, Debug, PartialEq, Eq)]
pub enum InstructionArgs {
    Empty,
    MintSetup {
        decimals: u8,
        mint_authority: [u8; 32],
        freeze_authority_option: u8,
        freeze_authority: Option<[u8; 32]>,
    },
    Status { status: u8 },
    Amount { amount: u64 },
    Authority { authority_type: u8, new_authority_option: u8, new_authority: Option<[u8; 32]> },
    AmountDecimals { amount: u64, decimals: u8 },
    Owner { owner: [u8; 32] },
    ExtensionType { extension_type: u8 },
    UiAmount { bits: u64 },
}

/// The model of [`InstructionArgs`]: keys are byte sequences.
pub enum ArgsView {
    Empty,
    MintSetup {
        decimals: u8,
        mint_authority: Seq<u8>,
        freeze_authority_option: u8,
        freeze_authority: Option<Seq<u8>>,
    },
    Status { status: u8 },
    Amount { amount: u64 },
    Authority { authority_type: u8, new_authority_option: u8, new_authority: Option<Seq<u8>> },
    AmountDecimals { amount: u64, decimals: u8 },
    Owner { owner: Seq<u8> },
    ExtensionType { extension_type: u8 },
    UiAmount { bits: u64 },
}

/// The model of an optional key.
pub open spec fn key_option_view(key: Option<[u8; 32]>) -> Option<Seq<u8>> {
    match key {
        Some(k) => Some(k@),
        None => None,
    }
}

impl View for InstructionArgs {
    type V = ArgsView;

    open spec fn view(&self) -> ArgsView {
        match *self {
            InstructionArgs::Empty => ArgsView::Empty,
            InstructionArgs::MintSetup {
                decimals,
                mint_authority,
                freeze_authority_option,
                freeze_authority,
            } => ArgsView::MintSetup {
                decimals,
                mint_authority: mint_authority@,
                freeze_authority_option,
                freeze_authority: key_option_view(freeze_authority),
            },
            InstructionArgs::Status { status } => ArgsView::Status { status },
            InstructionArgs::Amount { amount } => ArgsView::Amount { amount },
            InstructionArgs::Authority { authority_type, new_authority_option, new_authority } => {
                ArgsView::Authority {
                    authority_type,
                    new_authority_option,
                    new_authority: key_option_view(new_authority),
                }
            },
            InstructionArgs::AmountDecimals { amount, decimals } => ArgsView::AmountDecimals {
                amount,
                decimals,
            },
            InstructionArgs::Owner { owner } => ArgsView::Owner { owner: owner@ },
            InstructionArgs::ExtensionType { extension_type } => ArgsView::ExtensionType {
                extension_type,
            },
            InstructionArgs::UiAmount { bits } => ArgsView::UiAmount { bits },
        }
    }
}

/// What the decoder makes of one instruction: which instruction it is, and
/// the fields of its payload.
#[derive(Clone, Copy, Debug, PartialEq, Eq)]
pub struct InstructionDescriptor {
    pub kind: InstructionKind,
    pub args: InstructionArgs,
}

/// The model of [`InstructionDescriptor`].
pub struct DescriptorView {
    pub kind: InstructionKind,
    pub args: ArgsView,
}

impl View for InstructionDescriptor {
    type V = DescriptorView;

    open spec fn view(&self) -> DescriptorView {
        DescriptorView { kind: self.kind, args: self.args@ }
    }
}

/// The instruction that an opcode selects.
pub open spec fn kind_of_opcode(opcode: u8) -> InstructionKind {
    match opcode {
        0 => InstructionKind::InitializeMint,
        1 => InstructionKind::InitializeAccount,
        2 => InstructionKind::InitializeMultisig,
        3 => InstructionKind::Transfer,
        4 => InstructionKind::Approve,
        5 => InstructionKind::CloseAccount,
        6 => InstructionKind::SetAuthority,
        7 => InstructionKind::MintTo,
        8 => InstructionKind::Burn,
        9 => InstructionKind::Revoke,
        10 => InstructionKind::FreezeAccount,
        11 => InstructionKind::ThawAccount,
        12 => InstructionKind::TransferChecked,
        13 => InstructionKind::ApproveChecked,
        14 => InstructionKind::MintToChecked,
        15 => InstructionKind::BurnChecked,
        16 => InstructionKind::InitializeAccount2,
        17 => InstructionKind::SyncNative,
        18 => InstructionKind::InitializeAccount3,
        19 => InstructionKind::InitializeMultisig2,
        20 => InstructionKind::InitializeMint2,
        21 => InstructionKind::GetAccountDataSize,
        22 => InstructionKind::InitializeImmutableOwner,
        23 => InstructionKind::AmountToUiAmount,
        24 => InstructionKind::UiAmountToAmount,
        25 => InstructionKind::InitializeMintCloseAuthority,
        26 => InstructionKind::TransferFeeExtension,
        27 => InstructionKind::ConfidentialTransferExtension,
        28 => InstructionKind::DefaultAccountStateExtension,
        29 => InstructionKind::Reallocate,
        30 => InstructionKind::MemoTransferExtension,
        31 => InstructionKind::CreateNativeMint,
        32 => InstructionKind::InitializeNonTransferableMint,
        33 => InstructionKind::InterestBearingMintExtension,
        _ => InstructionKind::Unknown,
    }
}

/// The opcode of an instruction. `Unknown` has none of its own; it is given
/// 255 here, one of the opcodes that select it.
pub open spec fn opcode_of_kind(kind: InstructionKind) -> u8 {
    match kind {
        InstructionKind::InitializeMint => 0,
        InstructionKind::InitializeAccount => 1,
        InstructionKind::InitializeMultisig => 2,
        InstructionKind::Transfer => 3,
        InstructionKind::Approve => 4,
        InstructionKind::CloseAccount => 5,
        InstructionKind::SetAuthority => 6,
        InstructionKind::MintTo => 7,
        InstructionKind::Burn => 8,
        InstructionKind::Revoke => 9,
        InstructionKind::FreezeAccount => 10,
        InstructionKind::ThawAccount => 11,
        InstructionKind::TransferChecked => 12,
        InstructionKind::ApproveChecked => 13,
        InstructionKind::MintToChecked => 14,
        InstructionKind::BurnChecked => 15,
        InstructionKind::InitializeAccount2 => 16,
        InstructionKind::SyncNative => 17,
        InstructionKind::InitializeAccount3 => 18,
        InstructionKind::InitializeMultisig2 => 19,
        InstructionKind::InitializeMint2 => 20,
        InstructionKind::GetAccountDataSize => 21,
        InstructionKind::InitializeImmutableOwner => 22,
        InstructionKind::AmountToUiAmount => 23,
        InstructionKind::UiAmountToAmount => 24,
        InstructionKind::InitializeMintCloseAuthority => 25,
        InstructionKind::TransferFeeExtension => 26,
        InstructionKind::ConfidentialTransferExtension => 27,
        InstructionKind::DefaultAccountStateExtension => 28,
        InstructionKind::Reallocate => 29,
        InstructionKind::MemoTransferExtension => 30,
        InstructionKind::CreateNativeMint => 31,
        InstructionKind::InitializeNonTransferableMint => 32,
        InstructionKind::InterestBearingMintExtension => 33,
        InstructionKind::Unknown => 255,
    }
}

/// The payload layout of an instruction.
pub open spec fn layout_of(kind: InstructionKind) -> PayloadLayout {
    match kind {
        InstructionKind::InitializeMint => PayloadLayout::MintSetup,
        InstructionKind::InitializeMultisig => PayloadLayout::Status,
        InstructionKind::Transfer => PayloadLayout::Amount,
        InstructionKind::Approve => PayloadLayout::Amount,
        InstructionKind::SetAuthority => PayloadLayout::Authority,
        InstructionKind::MintTo => PayloadLayout::Amount,
        InstructionKind::Burn => PayloadLayout::Amount,
        InstructionKind::TransferChecked => PayloadLayout::AmountDecimals,
        InstructionKind::ApproveChecked => PayloadLayout::AmountDecimals,
        InstructionKind::MintToChecked => PayloadLayout::AmountDecimals,
        InstructionKind::BurnChecked => PayloadLayout::AmountDecimals,
        InstructionKind::InitializeAccount2 => PayloadLayout::Owner,
        InstructionKind::InitializeAccount3 => PayloadLayout::Owner,
        InstructionKind::InitializeMultisig2 => PayloadLayout::Status,
        InstructionKind::InitializeMint2 => PayloadLayout::MintSetup,
        InstructionKind::GetAccountDataSize => PayloadLayout::ExtensionType,
        InstructionKind::AmountToUiAmount => PayloadLayout::Amount,
        InstructionKind::UiAmountToAmount => PayloadLayout::UiAmount,
        InstructionKind::InitializeMintCloseAuthority => PayloadLayout::Owner,
        _ => PayloadLayout::Empty,
    }
}

/// The label under which an instruction is reported.
pub open spec fn label_text(kind: InstructionKind) -> Seq<char> {
    match kind {
        InstructionKind::InitializeMint => "InitializeMint"@,
        InstructionKind::InitializeAccount => "InitializeAccount"@,
        InstructionKind::InitializeMultisig => "InitializeMultisig"@,
        InstructionKind::Transfer => "Transfer"@,
        InstructionKind::Approve => "Approve"@,
        InstructionKind::CloseAccount => "CloseAccount"@,
        InstructionKind::SetAuthority => "SetAuthority"@,
        InstructionKind::MintTo => "MintTo"@,
        InstructionKind::Burn => "Burn"@,
        InstructionKind::Revoke => "Revoke"@,
        InstructionKind::FreezeAccount => "FreezeAccount"@,
        InstructionKind::ThawAccount => "ThawAccount"@,
        InstructionKind::TransferChecked => "TransferChecked"@,
        InstructionKind::ApproveChecked => "ApproveChecked"@,
        InstructionKind::MintToChecked => "MintToChecked"@,
        InstructionKind::BurnChecked => "BurnChecked"@,
        InstructionKind::InitializeAccount2 => "InitializeAccount2"@,
        InstructionKind::SyncNative => "SyncNative"@,
        InstructionKind::InitializeAccount3 => "InitializeAccount3"@,
        InstructionKind::InitializeMultisig2 => "InitializeMultisig2"@,
        InstructionKind::InitializeMint2 => "InitializeMint2"@,
        InstructionKind::GetAccountDataSize => "GetAccountDataSize"@,
        InstructionKind::InitializeImmutableOwner => "InitializeImmutableOwner"@,
        InstructionKind::AmountToUiAmount => "AmountToUiAmount"@,
        InstructionKind::UiAmountToAmount => "UiAmountToAmount"@,
        InstructionKind::InitializeMintCloseAuthority => "InitializeMintCloseAuthority"@,
        InstructionKind::TransferFeeExtension => "TransferFeeExtension"@,
        InstructionKind::ConfidentialTransferExtension => "ConfidentialTransferExtension"@,
        InstructionKind::DefaultAccountStateExtension => "DefaultAccountStateExtension"@,
        InstructionKind::Reallocate => "Reallocate"@,
        InstructionKind::MemoTransferExtension => "MemoTransferExtension"@,
        InstructionKind::CreateNativeMint => "CreateNativeMint"@,
        InstructionKind::InitializeNonTransferableMint => "InitializeNonTransferableMint"@,
        InstructionKind::InterestBearingMintExtension => "InterestBearingMintExtension"@,
        InstructionKind::Unknown => "Unknown Instruction"@,
    }
}

/// The optional key that follows the flag byte at `at`: present exactly when
/// the flag is 1.
pub open spec fn optional_key_at(payload: Seq<u8>, at: int) -> Option<Seq<u8>> {
    if payload[at] == 1 {
        Some(payload.subrange(at + 1, at + 33))
    } else {
        None
    }
}

/// The number of bytes that an optional key takes, flag included, when its
/// flag byte is `flag`.
pub open spec fn optional_key_len(flag: u8) -> int {
    if flag == 1 {
        33
    } else {
        1
    }
}

/// The fields that `layout` reads from the front of `payload`, or `None`
/// where the payload ends before the layout does.
pub open spec fn decode_args_spec(layout: PayloadLayout, payload: Seq<u8>) -> Option<ArgsView> {
    match layout {
        PayloadLayout::Empty => Some(ArgsView::Empty),
        PayloadLayout::MintSetup => if payload.len() >= 34 && payload.len() >= 33
            + optional_key_len(payload[33]) {
            Some(
                ArgsView::MintSetup {
                    decimals: payload[0],
                    mint_authority: payload.subrange(1, 33),
                    freeze_authority_option: payload[33],
                    freeze_authority: optional_key_at(payload, 33),
                },
            )
        } else {
            None
        },
        PayloadLayout::Status => if payload.len() >= 1 {
            Some(ArgsView::Status { status: payload[0] })
        } else {
            None
        },
        PayloadLayout::Amount => if payload.len() >= 8 {
            Some(ArgsView::Amount { amount: le_u64(payload.subrange(0, 8)) as u64 })
        } else {
            None
        },
        PayloadLayout::Authority => if payload.len() >= 2 && payload.len() >= 1 + optional_key_len(
            payload[1],
        ) {
            Some(
                ArgsView::Authority {
                    authority_type: payload[0],
                    new_authority_option: payload[1],
                    new_authority: optional_key_at(payload, 1),
                },
            )
        } else {
            None
        },
        PayloadLayout::AmountDecimals => if payload.len() >= 9 {
            Some(
                ArgsView::AmountDecimals {
                    amount: le_u64(payload.subrange(0, 8)) as u64,
                    decimals: payload[8],
                },
            )
        } else {
            None
        },
        PayloadLayout::Owner => if payload.len() >= 32 {
            Some(ArgsView::Owner { owner: payload.subrange(0, 32) })
        } else {
            None
        },
        PayloadLayout::ExtensionType => if payload.len() >= 1 {
            Some(ArgsView::ExtensionType { extension_type: payload[0] })
        } else {
            None
        },
        PayloadLayout::UiAmount => if payload.len() >= 8 {
            Some(ArgsView::UiAmount { bits: le_u64(payload.subrange(0, 8)) as u64 })
        } else {
            None
        },
    }
}

/// The descriptor of the instruction with this opcode and payload, or `None`
/// where the payload is too short for the opcode.
pub open spec fn decode_spec(opcode: u8, payload: Seq<u8>) -> Option<DescriptorView> {
    let kind = kind_of_opcode(opcode);
    match decode_args_spec(layout_of(kind), payload) {
        Some(args) => Some(DescriptorView { kind, args }),
        None => None,
    }
}

/// The descriptor of an instruction given as its whole data: the opcode byte,
/// then the payload. Data without an opcode has no descriptor.
pub open spec fn decode_data_spec(data: Seq<u8>) -> Option<DescriptorView> {
    if data.len() == 0 {
        None
    } else {
        decode_spec(data[0], data.skip(1))
    }
}

/// The bytes of an optional key: the flag, then the key where there is one.
pub open spec fn encode_optional_key(flag: u8, key: Option<Seq<u8>>) -> Seq<u8> {
    match key {
        Some(k) => seq![flag] + k,
        None => seq![flag],
    }
}

/// The payload that holds `args`, field after field.
pub open spec fn encode_args_spec(args: ArgsView) -> Seq<u8> {
    match args {
        ArgsView::Empty => Seq::empty(),
        ArgsView::MintSetup {
            decimals,
            mint_authority,
            freeze_authority_option,
            freeze_authority,
        } => seq![decimals] + mint_authority + encode_optional_key(
            freeze_authority_option,
            freeze_authority,
        ),
        ArgsView::Status { status } => seq![status],
        ArgsView::Amount { amount } => u64_le_bytes(amount),
        ArgsView::Authority { authority_type, new_authority_option, new_authority } => seq![
            authority_type,
        ] + encode_optional_key(new_authority_option, new_authority),
        ArgsView::AmountDecimals { amount, decimals } => u64_le_bytes(amount) + seq![decimals],
        ArgsView::Owner { owner } => owner,
        ArgsView::ExtensionType { extension_type } => seq![extension_type],
        ArgsView::UiAmount { bits } => u64_le_bytes(bits),
    }
}

/// The data of the instruction that `descriptor` describes: its opcode, then
/// its payload.
pub open spec fn encode_spec(descriptor: DescriptorView) -> Seq<u8> {
    seq![opcode_of_kind(descriptor.kind)] + encode_args_spec(descriptor.args)
}

/// An optional key is well formed when its flag is 1 exactly if the key is
/// there, and the key has 32 bytes.
pub open spec fn optional_key_fits(flag: u8, key: Option<Seq<u8>>) -> bool {
    match key {
        Some(k) => flag == 1 && k.len() == 32,
        None => flag != 1,
    }
}

/// Fields are well formed for a layout when they are of its shape.
pub open spec fn args_fit(layout: PayloadLayout, args: ArgsView) -> bool {
    match args {
        ArgsView::Empty => layout == PayloadLayout::Empty,
        ArgsView::MintSetup { mint_authority, freeze_authority_option, freeze_authority, .. } => {
            &&& layout == PayloadLayout::MintSetup
            &&& mint_authority.len() == 32
            &&& optional_key_fits(freeze_authority_option, freeze_authority)
        },
        ArgsView::Status { .. } => layout == PayloadLayout::Status,
        ArgsView::Amount { .. } => layout == PayloadLayout::Amount,
        ArgsView::Authority { new_authority_option, new_authority, .. } => {
            &&& layout == PayloadLayout::Authority
            &&& optional_key_fits(new_authority_option, new_authority)
        },
        ArgsView::AmountDecimals { .. } => layout == PayloadLayout::AmountDecimals,
        ArgsView::Owner { owner } => layout == PayloadLayout::Owner && owner.len() == 32,
        ArgsView::ExtensionType { .. } => layout == PayloadLayout::ExtensionType,
        ArgsView::UiAmount { .. } => layout == PayloadLayout::UiAmount,
    }
}

impl DescriptorView {
    /// A descriptor is well formed when its fields are of the shape that its
    /// instruction lays out.
    pub open spec fn wf(self) -> bool {
        args_fit(layout_of(self.kind), self.args)
    }
}

impl InstructionKind {
    /// The instruction that `opcode` selects.
    pub fn from_opcode(opcode: u8) -> (kind: InstructionKind)
        ensures
            kind == kind_of_opcode(opcode),
    {
        match opcode {
            0 => InstructionKind::InitializeMint,
            1 => InstructionKind::InitializeAccount,
            2 => InstructionKind::InitializeMultisig,
            3 => InstructionKind::Transfer,
            4 => InstructionKind::Approve,
            5 => InstructionKind::CloseAccount,
            6 => InstructionKind::SetAuthority,
            7 => InstructionKind::MintTo,
            8 => InstructionKind::Burn,
            9 => InstructionKind::Revoke,
            10 => InstructionKind::FreezeAccount,
            11 => InstructionKind::ThawAccount,
            12 => InstructionKind::TransferChecked,
            13 => InstructionKind::ApproveChecked,
            14 => InstructionKind::MintToChecked,
            15 => InstructionKind::BurnChecked,
            16 => InstructionKind::InitializeAccount2,
            17 => InstructionKind::SyncNative,
            18 => InstructionKind::InitializeAccount3,
            19 => InstructionKind::InitializeMultisig2,
            20 => InstructionKind::InitializeMint2,
            21 => InstructionKind::GetAccountDataSize,
            22 => InstructionKind::InitializeImmutableOwner,
            23 => InstructionKind::AmountToUiAmount,
            24 => InstructionKind::UiAmountToAmount,
            25 => InstructionKind::InitializeMintCloseAuthority,
            26 => InstructionKind::TransferFeeExtension,
            27 => InstructionKind::ConfidentialTransferExtension,
            28 => InstructionKind::DefaultAccountStateExtension,
            29 => InstructionKind::Reallocate,
            30 => InstructionKind::MemoTransferExtension,
            31 => InstructionKind::CreateNativeMint,
            32 => InstructionKind::InitializeNonTransferableMint,
            33 => InstructionKind::InterestBearingMintExtension,
            _ => InstructionKind::Unknown,
        }
    }

    /// The opcode of this instruction; 255 for `Unknown`, which has none of
    /// its own.
    pub fn opcode(self) -> (opcode: u8)
        ensures
            opcode == opcode_of_kind(self),
    {
        match self {
            InstructionKind::InitializeMint => 0,
            InstructionKind::InitializeAccount => 1,
            InstructionKind::InitializeMultisig => 2,
            InstructionKind::Transfer => 3,
            InstructionKind::Approve => 4,
            InstructionKind::CloseAccount => 5,
            InstructionKind::SetAuthority => 6,
            InstructionKind::MintTo => 7,
            InstructionKind::Burn => 8,
            InstructionKind::Revoke => 9,
            InstructionKind::FreezeAccount => 10,
            InstructionKind::ThawAccount => 11,
            InstructionKind::TransferChecked => 12,
            InstructionKind::ApproveChecked => 13,
            InstructionKind::MintToChecked => 14,
            InstructionKind::BurnChecked => 15,
            InstructionKind::InitializeAccount2 => 16,
            InstructionKind::SyncNative => 17,
            InstructionKind::InitializeAccount3 => 18,
            InstructionKind::InitializeMultisig2 => 19,
            InstructionKind::InitializeMint2 => 20,
            InstructionKind::GetAccountDataSize => 21,
            InstructionKind::InitializeImmutableOwner => 22,
            InstructionKind::AmountToUiAmount => 23,
            InstructionKind::UiAmountToAmount => 24,
            InstructionKind::InitializeMintCloseAuthority => 25,
            InstructionKind::TransferFeeExtension => 26,
            InstructionKind::ConfidentialTransferExtension => 27,
            InstructionKind::DefaultAccountStateExtension => 28,
            InstructionKind::Reallocate => 29,
            InstructionKind::MemoTransferExtension => 30,
            InstructionKind::CreateNativeMint => 31,
            InstructionKind::InitializeNonTransferableMint => 32,
            InstructionKind::InterestBearingMintExtension => 33,
            InstructionKind::Unknown => 255,
        }
    }

    /// The payload layout of this instruction.
    pub fn layout(self) -> (layout: PayloadLayout)
        ensures
            layout == layout_of(self),
    {
        match self {
            InstructionKind::InitializeMint => PayloadLayout::MintSetup,
            InstructionKind::InitializeMultisig => PayloadLayout::Status,
            InstructionKind::Transfer => PayloadLayout::Amount,
            InstructionKind::Approve => PayloadLayout::Amount,
            InstructionKind::SetAuthority => PayloadLayout::Authority,
            InstructionKind::MintTo => PayloadLayout::Amount,
            InstructionKind::Burn => PayloadLayout::Amount,
            InstructionKind::TransferChecked => PayloadLayout::AmountDecimals,
            InstructionKind::ApproveChecked => PayloadLayout::AmountDecimals,
            InstructionKind::MintToChecked => PayloadLayout::AmountDecimals,
            InstructionKind::BurnChecked => PayloadLayout::AmountDecimals,
            InstructionKind::InitializeAccount2 => PayloadLayout::Owner,
            InstructionKind::InitializeAccount3 => PayloadLayout::Owner,
            InstructionKind::InitializeMultisig2 => PayloadLayout::Status,
            InstructionKind::InitializeMint2 => PayloadLayout::MintSetup,
            InstructionKind::GetAccountDataSize => PayloadLayout::ExtensionType,
            InstructionKind::AmountToUiAmount => PayloadLayout::Amount,
            InstructionKind::UiAmountToAmount => PayloadLayout::UiAmount,
            InstructionKind::InitializeMintCloseAuthority => PayloadLayout::Owner,
            _ => PayloadLayout::Empty,
        }
    }

    /// The label under which this instruction is reported.
    pub fn label(self) -> (label: &'static str)
        ensures
            label@ == label_text(self),
    {
        match self {
            InstructionKind::InitializeMint => "InitializeMint",
            InstructionKind::InitializeAccount => "InitializeAccount",
            InstructionKind::InitializeMultisig => "InitializeMultisig",
            InstructionKind::Transfer => "Transfer",
            InstructionKind::Approve => "Approve",
            InstructionKind::CloseAccount => "CloseAccount",
            InstructionKind::SetAuthority => "SetAuthority",
            InstructionKind::MintTo => "MintTo",
            InstructionKind::Burn => "Burn",
            InstructionKind::Revoke => "Revoke",
            InstructionKind::FreezeAccount => "FreezeAccount",
            InstructionKind::ThawAccount => "ThawAccount",
            InstructionKind::TransferChecked => "TransferChecked",
            InstructionKind::ApproveChecked => "ApproveChecked",
            InstructionKind::MintToChecked => "MintToChecked",
            InstructionKind::BurnChecked => "BurnChecked",
            InstructionKind::InitializeAccount2 => "InitializeAccount2",
            InstructionKind::SyncNative => "SyncNative",
            InstructionKind::InitializeAccount3 => "InitializeAccount3",
            InstructionKind::InitializeMultisig2 => "InitializeMultisig2",
            InstructionKind::InitializeMint2 => "InitializeMint2",
            InstructionKind::GetAccountDataSize => "GetAccountDataSize",
            InstructionKind::InitializeImmutableOwner => "InitializeImmutableOwner",
            InstructionKind::AmountToUiAmount => "AmountToUiAmount",
            InstructionKind::UiAmountToAmount => "UiAmountToAmount",
            InstructionKind::InitializeMintCloseAuthority => "InitializeMintCloseAuthority",
            InstructionKind::TransferFeeExtension => "TransferFeeExtension",
            InstructionKind::ConfidentialTransferExtension => "ConfidentialTransferExtension",
            InstructionKind::DefaultAccountStateExtension => "DefaultAccountStateExtension",
            InstructionKind::Reallocate => "Reallocate",
            InstructionKind::MemoTransferExtension => "MemoTransferExtension",
            InstructionKind::CreateNativeMint => "CreateNativeMint",
            InstructionKind::InitializeNonTransferableMint => "InitializeNonTransferableMint",
            InstructionKind::InterestBearingMintExtension => "InterestBearingMintExtension",
            InstructionKind::Unknown => "Unknown Instruction",
        }
    }
}

/// Copies the 32 bytes of a key that start at `at`.
fn read_key(bytes: &[u8], at: usize) -> (key: [u8; 32])
    requires
        at + 32 <= bytes@.len(),
    ensures
        key@ == bytes@.subrange(at as int, at + 32),
{
    let len = bytes.len();
    let mut key = [0u8; 32];
    let mut i: usize = 0;
    while i < 32
        invariant
            i <= 32,
            at + 32 <= len == bytes@.len(),
            forall|j: int| 0 <= j < i ==> key@[j] == bytes@[at + j],
        decreases 32 - i,
    {
        key[i] = bytes[at + i];
        i += 1;
    }
    key
}

/// Reads the optional key whose flag byte is at `at`.
fn read_optional_key(bytes: &[u8], at: usize) -> (key: Option<[u8; 32]>)
    requires
        at < bytes@.len(),
        at + optional_key_len(bytes@[at as int]) <= bytes@.len(),
    ensures
        key_option_view(key) == optional_key_at(bytes@, at as int),
{
    if bytes[at] == 1 {
        Some(read_key(bytes, at + 1))
    } else {
        None
    }
}

/// Reads the fields that `layout` lays out from the front of `payload`.
///
/// Fails, with `MalformedInstructionPayload`, exactly when the payload ends
/// before the layout does.
pub fn decode_args(layout: PayloadLayout, payload: &[u8]) -> (result: Result<
    InstructionArgs,
    Error,
>)
    ensures
        match decode_args_spec(layout, payload@) {
            Some(args) => result matches Ok(found) && found@ == args,
            None => result == Err::<InstructionArgs, Error>(Error::MalformedInstructionPayload),
        },
{
    let len = payload.len();
    match layout {
        PayloadLayout::Empty => Ok(InstructionArgs::Empty),
        PayloadLayout::MintSetup => {
            if len < 34 || (payload[33] == 1 && len < 66) {
                return Err(Error::MalformedInstructionPayload);
            }
            Ok(
                InstructionArgs::MintSetup {
                    decimals: payload[0],
                    mint_authority: read_key(payload, 1),
                    freeze_authority_option: payload[33],
                    freeze_authority: read_optional_key(payload, 33),
                },
            )
        },
        PayloadLayout::Status => {
            if len < 1 {
                return Err(Error::MalformedInstructionPayload);
            }
            Ok(InstructionArgs::Status { status: payload[0] })
        },
        PayloadLayout::Amount => {
            if len < 8 {
                return Err(Error::MalformedInstructionPayload);
            }
            Ok(InstructionArgs::Amount { amount: read_u64_le(payload, 0) })
        },
        PayloadLayout::Authority => {
            if len < 2 || (payload[1] == 1 && len < 34) {
                return Err(Error::MalformedInstructionPayload);
            }
            Ok(
                InstructionArgs::Authority {
                    authority_type: payload[0],
                    new_authority_option: payload[1],
                    new_authority: read_optional_key(payload, 1),
                },
            )
        },
        PayloadLayout::AmountDecimals => {
            if len < 9 {
                return Err(Error::MalformedInstructionPayload);
            }
            Ok(
                InstructionArgs::AmountDecimals {
                    amount: read_u64_le(payload, 0),
                    decimals: payload[8],
                },
            )
        },
        PayloadLayout::Owner => {
            if len < 32 {
                return Err(Error::MalformedInstructionPayload);
            }
            Ok(InstructionArgs::Owner { owner: read_key(payload, 0) })
        },
        PayloadLayout::ExtensionType => {
            if len < 1 {
                return Err(Error::MalformedInstructionPayload);
            }
            Ok(InstructionArgs::ExtensionType { extension_type: payload[0] })
        },
        PayloadLayout::UiAmount => {
            if len < 8 {
                return Err(Error::MalformedInstructionPayload);
            }
            Ok(InstructionArgs::UiAmount { bits: read_u64_le(payload, 0) })
        },
    }
}

/// Decodes one instruction from its opcode and its payload.
///
/// Every opcode decodes: one that selects no instruction gives `Unknown`,
/// without fields. The only failure is `MalformedInstructionPayload`, which
/// comes exactly when the payload is shorter than the layout of the opcode.
pub fn decode(opcode: u8, payload: &[u8]) -> (result: Result<InstructionDescriptor, Error>)
    ensures
        match decode_spec(opcode, payload@) {
            Some(descriptor) => result matches Ok(found) && found@ == descriptor,
            None => result == Err::<InstructionDescriptor, Error>(
                Error::MalformedInstructionPayload,
            ),
        },
        result matches Ok(found) ==> found@.wf(),
{
    proof {
        lemma_decoded_is_wf(opcode, payload@);
    }
    let kind = InstructionKind::from_opcode(opcode);
    match decode_args(kind.layout(), payload) {
        Ok(args) => Ok(InstructionDescriptor { kind, args }),
        Err(e) => Err(e),
    }
}

/// Decodes one instruction from its whole data: the opcode byte, then the
/// payload. Data without an opcode byte is malformed.
pub fn decode_data(data: &[u8]) -> (result: Result<InstructionDescriptor, Error>)
    ensures
        match decode_data_spec(data@) {
            Some(descriptor) => result matches Ok(found) && found@ == descriptor,
            None => result == Err::<InstructionDescriptor, Error>(
                Error::MalformedInstructionPayload,
            ),
        },
{
    if data.len() == 0 {
        return Err(Error::MalformedInstructionPayload);
    }
    let payload = vstd::slice::slice_subrange(data, 1, data.len());
    decode(data[0], payload)
}

/// Writes an optional key after `payload`: the flag, then the key where
/// there is one.
fn write_optional_key(payload: &mut Vec<u8>, flag: u8, key: &Option<[u8; 32]>)
    ensures
        final(payload)@ == old(payload)@ + encode_optional_key(flag, key_option_view(*key)),
{
    payload.push(flag);
    match key {
        Some(k) => {
            payload.extend_from_slice(k.as_slice());
        },
        None => {},
    }
    assert(payload@ =~= old(payload)@ + encode_optional_key(flag, key_option_view(*key)));
}

/// Lays the fields of a payload out, field after field.
pub fn encode_args(args: &InstructionArgs) -> (payload: Vec<u8>)
    ensures
        payload@ == encode_args_spec(args@),
{
    let mut payload: Vec<u8> = Vec::new();
    match args {
        InstructionArgs::Empty => {},
        InstructionArgs::MintSetup {
            decimals,
            mint_authority,
            freeze_authority_option,
            freeze_authority,
        } => {
            payload.push(*decimals);
            payload.extend_from_slice(mint_authority.as_slice());
            write_optional_key(&mut payload, *freeze_authority_option, freeze_authority);
        },
        InstructionArgs::Status { status } => {
            payload.push(*status);
        },
        InstructionArgs::Amount { amount } => {
            payload = write_u64_le(*amount);
        },
        InstructionArgs::Authority { authority_type, new_authority_option, new_authority } => {
            payload.push(*authority_type);
            write_optional_key(&mut payload, *new_authority_option, new_authority);
        },
        InstructionArgs::AmountDecimals { amount, decimals } => {
            payload = write_u64_le(*amount);
            payload.push(*decimals);
        },
        InstructionArgs::Owner { owner } => {
            payload.extend_from_slice(owner.as_slice());
        },
        InstructionArgs::ExtensionType { extension_type } => {
            payload.push(*extension_type);
        },
        InstructionArgs::UiAmount { bits } => {
            payload = write_u64_le(*bits);
        },
    }
    assert(payload@ =~= encode_args_spec(args@));
    payload
}

/// The data of the instruction that a descriptor describes: its opcode, then
/// its payload.
pub fn encode(descriptor: &InstructionDescriptor) -> (data: Vec<u8>)
    ensures
        data@ == encode_spec(descriptor@),
{
    let mut data: Vec<u8> = Vec::new();
    data.push(descriptor.kind.opcode());
    let mut payload = encode_args(&descriptor.args);
    data.append(&mut payload);
    assert(data@ =~= encode_spec(descriptor@));
    data
}

/// Every instruction but `Unknown` is selected by its own opcode.
pub proof fn lemma_opcode_selects_kind(kind: InstructionKind)
    requires
        kind != InstructionKind::Unknown,
    ensures
        kind_of_opcode(opcode_of_kind(kind)) == kind,
{
}

/// Decoding undoes encoding: a payload that lays out well-formed fields
/// decodes to those fields, whatever bytes follow it.
pub proof fn lemma_decode_args_of_encode(layout: PayloadLayout, args: ArgsView, rest: Seq<u8>)
    requires
        args_fit(layout, args),
    ensures
        decode_args_spec(layout, encode_args_spec(args) + rest) == Some(args),
{
    let payload = encode_args_spec(args) + rest;
    match args {
        ArgsView::Empty => {},
        ArgsView::MintSetup {
            decimals,
            mint_authority,
            freeze_authority_option,
            freeze_authority,
        } => {
            assert(payload.subrange(1, 33) =~= mint_authority);
            match freeze_authority {
                Some(k) => {
                    assert(payload.subrange(34, 66) =~= k);
                },
                None => {},
            }
        },
        ArgsView::Status { status } => {},
        ArgsView::Amount { amount } => {
            lemma_le_u64_of_bytes(amount);
        },
        ArgsView::Authority { authority_type, new_authority_option, new_authority } => {
            match new_authority {
                Some(k) => {
                    assert(payload.subrange(2, 34) =~= k);
                },
                None => {},
            }
        },
        ArgsView::AmountDecimals { amount, decimals } => {
            lemma_le_u64_of_bytes(amount);
        },
        ArgsView::Owner { owner } => {
            assert(payload.subrange(0, 32) =~= owner);
        },
        ArgsView::ExtensionType { extension_type } => {},
        ArgsView::UiAmount { bits } => {
            lemma_le_u64_of_bytes(bits);
        },
    }
}

/// Round trip: the data that encodes a well-formed descriptor of any
/// instruction but `Unknown` decodes to that descriptor.
pub proof fn lemma_decode_of_encode(descriptor: DescriptorView)
    requires
        descriptor.wf(),
        descriptor.kind != InstructionKind::Unknown,
    ensures
        decode_data_spec(encode_spec(descriptor)) == Some(descriptor),
{
    let data = encode_spec(descriptor);
    lemma_opcode_selects_kind(descriptor.kind);
    lemma_decode_args_of_encode(layout_of(descriptor.kind), descriptor.args, Seq::empty());
    assert(data.skip(1) =~= encode_args_spec(descriptor.args) + Seq::<u8>::empty());
}

/// What decodes is well formed.
pub proof fn lemma_decoded_is_wf(opcode: u8, payload: Seq<u8>)
    ensures
        decode_spec(opcode, payload) matches Some(descriptor) ==> descriptor.wf(),
{
}

} // verus!
