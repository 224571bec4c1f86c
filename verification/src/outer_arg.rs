//! One instruction of the token program, read in full: its label, the parts
//! of its accounts and its arguments.

use crate::args::{args_of, describe_args, Arg, ArgView};
use crate::error::Error;
use crate::instruction::{
    decode_data, decode_data_spec, label_text, DescriptorView, InstructionDescriptor,
};
use crate::roles::{
    account_args, name_roles, name_roles_spec, prepare_account_args, Accounts, AccountsView,
};
use vstd::prelude::*;
use vstd::string::*;

verus! {

/// A parsed instruction: what the decoder made of its data, and its accounts
/// by the part they play.
#[derive(Clone, Debug, PartialEq, Eq)]
pub struct Instruction {
    pub descriptor: InstructionDescriptor,
    pub instruction_accounts: Accounts,
}

/// The model of [`Instruction`].
pub struct InstructionView {
    pub descriptor: DescriptorView,
    pub instruction_accounts: AccountsView,
}

impl View for Instruction {
    type V = InstructionView;

    open spec fn view(&self) -> InstructionView {
        InstructionView {
            descriptor: self.descriptor@,
            instruction_accounts: self.instruction_accounts@,
        }
    }
}

/// What an event says of its instruction.
#[derive(Clone, Debug, PartialEq, Eq)]
pub struct OuterArg {
    pub instruction_type: String,
    pub input_accounts: Accounts,
    pub arg: Arg,
}

/// The model of [`OuterArg`].
pub struct OuterArgView {
    pub instruction_type: Seq<char>,
    pub input_accounts: AccountsView,
    pub arg: ArgView,
}

impl View for OuterArg {
    type V = OuterArgView;

    open spec fn view(&self) -> OuterArgView {
        OuterArgView {
            instruction_type: self.instruction_type@,
            input_accounts: self.input_accounts@,
            arg: self.arg@,
        }
    }
}

impl Default for OuterArg {
    /// An empty label, no account and no argument.
    fn default() -> (outer: OuterArg)
        ensures
            outer@ == (OuterArgView {
                instruction_type: Seq::empty(),
                input_accounts: AccountsView::empty(),
                arg: ArgView::empty(),
            }),
    {
        OuterArg {
            instruction_type: String::new(),
            input_accounts: Accounts::empty(),
            arg: Arg::empty(),
        }
    }
}

/// The parsed form of the instruction with this data whose accounts, already
/// resolved, are `names`; or `None` where the data is malformed.
pub open spec fn parse_instruction_spec(data: Seq<u8>, names: Seq<Seq<char>>) -> Option<
    InstructionView,
> {
    match decode_data_spec(data) {
        Some(descriptor) => Some(
            InstructionView {
                descriptor,
                instruction_accounts: name_roles_spec(descriptor.kind, names),
            },
        ),
        None => None,
    }
}

/// What is reported of a parsed instruction.
pub open spec fn outer_arg_of(instruction: InstructionView) -> OuterArgView {
    OuterArgView {
        instruction_type: label_text(instruction.descriptor.kind),
        input_accounts: instruction.instruction_accounts,
        arg: args_of(instruction.descriptor),
    }
}

/// What is reported of the instruction with this data and these account
/// indices, in a transaction whose resolved account list is `accounts`.
///
/// The account indices are resolved first: an index past the end of
/// `accounts` is `UnresolvedAccountIndex`, whatever the data holds. Data that
/// is too short for its opcode is `MalformedInstructionPayload`.
pub open spec fn outer_arg_spec(
    data: Seq<u8>,
    indices: Seq<u8>,
    accounts: Seq<Seq<char>>,
) -> Result<OuterArgView, Error> {
    match account_args(indices, accounts) {
        None => Err(Error::UnresolvedAccountIndex),
        Some(names) => match parse_instruction_spec(data, names) {
            None => Err(Error::MalformedInstructionPayload),
            Some(instruction) => Ok(outer_arg_of(instruction)),
        },
    }
}

/// Whether `found` is the outcome that `want` describes.
pub open spec fn outer_arg_matches(
    found: Result<OuterArg, Error>,
    want: Result<OuterArgView, Error>,
) -> bool {
    match want {
        Ok(view) => found matches Ok(outer) && outer@ == view,
        Err(e) => found == Err::<OuterArg, Error>(e),
    }
}

/// Parses an instruction from its data, the opcode byte first, and gives its
/// accounts, already resolved, their parts.
///
/// Fails, with `MalformedInstructionPayload`, exactly when the data has no
/// opcode byte or its payload is shorter than the layout of the opcode.
pub fn parse_instruction(bytes_stream: &[u8], accounts: &Vec<String>) -> (result: Result<
    Instruction,
    Error,
>)
    ensures
        match parse_instruction_spec(bytes_stream@, accounts.deep_view()) {
            Some(instruction) => result matches Ok(found) && found@ == instruction,
            None => result == Err::<Instruction, Error>(Error::MalformedInstructionPayload),
        },
{
    match decode_data(bytes_stream) {
        Ok(descriptor) => {
            let instruction_accounts = name_roles(descriptor.kind, accounts);
            Ok(Instruction { descriptor, instruction_accounts })
        },
        Err(_) => Err(Error::MalformedInstructionPayload),
    }
}

/// Reads one instruction in full, from borrowed data.
pub fn read_outer_arg(
    instruction_data: &[u8],
    account_indices: &Vec<u8>,
    accounts: &Vec<String>,
) -> (result: Result<OuterArg, Error>)
    ensures
        outer_arg_matches(
            result,
            outer_arg_spec(instruction_data@, account_indices@, accounts.deep_view()),
        ),
{
    let account_args = match prepare_account_args(account_indices, accounts) {
        Ok(names) => names,
        Err(_) => {
            return Err(Error::UnresolvedAccountIndex);
        },
    };
    let instruction = match parse_instruction(instruction_data, &account_args) {
        Ok(instruction) => instruction,
        Err(_) => {
            return Err(Error::MalformedInstructionPayload);
        },
    };
    let arg = describe_args(&instruction.descriptor);
    let instruction_type = String::from_str(instruction.descriptor.kind.label());
    Ok(OuterArg { instruction_type, input_accounts: instruction.instruction_accounts, arg })
}

/// Reads one instruction in full: its label, its accounts by the part they
/// play, and its arguments.
///
/// `accounts` is the resolved account list of the transaction, and
/// `account_indices` are the positions in it of the accounts of the
/// instruction.
pub fn get_outer_arg(
    instruction_data: Vec<u8>,
    account_indices: &Vec<u8>,
    accounts: &Vec<String>,
) -> (result: Result<OuterArg, Error>)
    ensures
        outer_arg_matches(
            result,
            outer_arg_spec(instruction_data@, account_indices@, accounts.deep_view()),
        ),
{
    read_outer_arg(instruction_data.as_slice(), account_indices, accounts)
}

} // verus!
