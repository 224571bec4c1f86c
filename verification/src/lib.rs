//! Decoding of token-program instructions out of Solana blocks.
//!
//! The crate turns the raw instructions that a block carries for the token
//! program into one typed event per instruction, nested (inner) instructions
//! included. Every function is verified against a mathematical model of the
//! block, of the lookup-table repository and of the emitted events.
//!
//! - [`resolver`] builds the account list of a transaction, with the
//!   addresses that it takes from lookup tables ([`repository`]).
//! - [`instruction`] decodes an opcode and its payload into a descriptor.
//! - [`roles`] gives the accounts of an instruction their parts, and
//!   [`args`] names its arguments; [`outer_arg`] puts the two together.
//! - [`walker`] walks a block and emits the events ([`event`]).
//! - [`count`] and [`indexes`] state what holds of every walk.
//! - [`base58`], [`date`] and [`numeric`] render keys, dates and numbers.

pub mod args;
pub mod base58;
pub mod block;
pub mod count;
pub mod date;
pub mod error;
pub mod event;
pub mod indexes;
pub mod instruction;
pub mod numeric;
pub mod outer_arg;
pub mod repository;
pub mod resolver;
pub mod roles;
pub mod views;
pub mod walker;

pub use base58::get_b58_string;
pub use outer_arg::{get_outer_arg, OuterArg};
pub use roles::prepare_account_args;
pub use walker::map_block;
