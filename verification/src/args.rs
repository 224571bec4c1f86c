//! The arguments that an event reports for its instruction.

use crate::base58::{base58_text, get_b58_string};
use crate::instruction::{
    key_option_view, ArgsView, DescriptorView, InstructionArgs, InstructionDescriptor,
    InstructionKind,
};
use crate::numeric::{decimal_string, decimal_text};
use vstd::prelude::*;

verus! {

/// The arguments of one instruction, each under its name. An argument that
/// the instruction does not have is `None`. Public keys are reported in
/// base58; the authority type is reported as its decimal numeral; the
/// ui amount is reported as the bit pattern of its 64-bit binary float.
#[derive(Clone, Debug, PartialEq, Eq)]
pub struct Arg {
    pub decimals: Option<i32>,
    pub mint_authority: Option<String>,
    pub freeze_authority_option: Option<i32>,
    pub freeze_authority: Option<String>,
    pub status: Option<i32>,
    pub amount: Option<u64>,
    pub authority_type: Option<String>,
    pub new_authority_option: Option<i32>,
    pub new_authority: Option<String>,
    pub owner: Option<String>,
    pub extension_type: Option<i32>,
    pub ui_amount_bits: Option<u64>,
}

/// The model of [`Arg`]: texts are sequences of characters.
pub struct ArgView {
    pub decimals: Option<i32>,
    pub mint_authority: Option<Seq<char>>,
    pub freeze_authority_option: Option<i32>,
    pub freeze_authority: Option<Seq<char>>,
    pub status: Option<i32>,
    pub amount: Option<u64>,
    pub authority_type: Option<Seq<char>>,
    pub new_authority_option: Option<i32>,
    pub new_authority: Option<Seq<char>>,
    pub owner: Option<Seq<char>>,
    pub extension_type: Option<i32>,
    pub ui_amount_bits: Option<u64>,
}

impl View for Arg {
    type V = ArgView;

    open spec fn view(&self) -> ArgView {
        ArgView {
            decimals: self.decimals,
            mint_authority: self.mint_authority.deep_view(),
            freeze_authority_option: self.freeze_authority_option,
            freeze_authority: self.freeze_authority.deep_view(),
            status: self.status,
            amount: self.amount,
            authority_type: self.authority_type.deep_view(),
            new_authority_option: self.new_authority_option,
            new_authority: self.new_authority.deep_view(),
            owner: self.owner.deep_view(),
            extension_type: self.extension_type,
            ui_amount_bits: self.ui_amount_bits,
        }
    }
}

impl DeepView for Arg {
    type V = ArgView;

    open spec fn deep_view(&self) -> ArgView {
        self@
    }
}

impl ArgView {
    /// No argument at all.
    pub open spec fn empty() -> ArgView {
        ArgView {
            decimals: None,
            mint_authority: None,
            freeze_authority_option: None,
            freeze_authority: None,
            status: None,
            amount: None,
            authority_type: None,
            new_authority_option: None,
            new_authority: None,
            owner: None,
            extension_type: None,
            ui_amount_bits: None,
        }
    }
}

/// The base58 text of an optional key.
pub open spec fn optional_key_text(key: Option<Seq<u8>>) -> Option<Seq<char>> {
    match key {
        Some(k) => Some(base58_text(k)),
        None => None,
    }
}

/// The arguments that are reported for a decoded instruction.
///
/// The flag byte of an optional freeze authority is reported for
/// `InitializeMint` only. An optional key that is absent is reported as
/// absent.
pub open spec fn args_of(descriptor: DescriptorView) -> ArgView {
    match descriptor.args {
        ArgsView::Empty => ArgView::empty(),
        ArgsView::MintSetup {
            decimals,
            mint_authority,
            freeze_authority_option,
            freeze_authority,
        } => ArgView {
            decimals: Some(decimals as i32),
            mint_authority: Some(base58_text(mint_authority)),
            freeze_authority_option: if descriptor.kind == InstructionKind::InitializeMint {
                Some(freeze_authority_option as i32)
            } else {
                None
            },
            freeze_authority: optional_key_text(freeze_authority),
            ..ArgView::empty()
        },
        ArgsView::Status { status } => ArgView { status: Some(status as i32), ..ArgView::empty() },
        ArgsView::Amount { amount } => ArgView { amount: Some(amount), ..ArgView::empty() },
        ArgsView::Authority { authority_type, new_authority_option, new_authority } => ArgView {
            authority_type: Some(decimal_text(authority_type as nat)),
            new_authority_option: Some(new_authority_option as i32),
            new_authority: optional_key_text(new_authority),
            ..ArgView::empty()
        },
        ArgsView::AmountDecimals { amount, decimals } => ArgView {
            amount: Some(amount),
            decimals: Some(decimals as i32),
            ..ArgView::empty()
        },
        ArgsView::Owner { owner } => ArgView {
            owner: Some(base58_text(owner)),
            ..ArgView::empty()
        },
        ArgsView::ExtensionType { extension_type } => ArgView {
            extension_type: Some(extension_type as i32),
            ..ArgView::empty()
        },
        ArgsView::UiAmount { bits } => ArgView { ui_amount_bits: Some(bits), ..ArgView::empty() },
    }
}

impl Arg {
    /// No argument at all.
    pub fn empty() -> (arg: Arg)
        ensures
            arg@ == ArgView::empty(),
    {
        Arg {
            decimals: None,
            mint_authority: None,
            freeze_authority_option: None,
            freeze_authority: None,
            status: None,
            amount: None,
            authority_type: None,
            new_authority_option: None,
            new_authority: None,
            owner: None,
            extension_type: None,
            ui_amount_bits: None,
        }
    }
}

/// Renders an optional key in base58.
fn optional_key_string(key: Option<[u8; 32]>) -> (text: Option<String>)
    ensures
        text.deep_view() == optional_key_text(key_option_view(key)),
{
    match key {
        Some(k) => get_b58_string(k),
        None => None,
    }
}

/// The arguments that are reported for a decoded instruction.
pub fn describe_args(descriptor: &InstructionDescriptor) -> (arg: Arg)
    ensures
        arg@ == args_of(descriptor@),
{
    let mut arg = Arg::empty();
    match descriptor.args {
        InstructionArgs::Empty => {},
        InstructionArgs::MintSetup {
            decimals,
            mint_authority,
            freeze_authority_option,
            freeze_authority,
        } => {
            arg.decimals = Some(decimals as i32);
            arg.mint_authority = get_b58_string(mint_authority);
            if descriptor.kind == InstructionKind::InitializeMint {
                arg.freeze_authority_option = Some(freeze_authority_option as i32);
            }
            arg.freeze_authority = optional_key_string(freeze_authority);
        },
        InstructionArgs::Status { status } => {
            arg.status = Some(status as i32);
        },
        InstructionArgs::Amount { amount } => {
            arg.amount = Some(amount);
        },
        InstructionArgs::Authority { authority_type, new_authority_option, new_authority } => {
            arg.authority_type = Some(decimal_string(authority_type));
            arg.new_authority_option = Some(new_authority_option as i32);
            arg.new_authority = optional_key_string(new_authority);
        },
        InstructionArgs::AmountDecimals { amount, decimals } => {
            arg.amount = Some(amount);
            arg.decimals = Some(decimals as i32);
        },
        InstructionArgs::Owner { owner } => {
            arg.owner = get_b58_string(owner);
        },
        InstructionArgs::ExtensionType { extension_type } => {
            arg.extension_type = Some(extension_type as i32);
        },
        InstructionArgs::UiAmount { bits } => {
            arg.ui_amount_bits = Some(bits);
        },
    }
    arg
}

} // verus!
