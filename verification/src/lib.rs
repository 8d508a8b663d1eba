//! The initialization step of a two-party token escrow, written as a
//! state-transition function over account records handed in by the caller.
//!
//! The handler keeps no state of its own. It decodes an instruction, checks
//! the accounts it was given, fills in the escrow record and says which
//! custody transfer has to be delegated to the token program.

pub mod account;
pub mod bytes;
pub mod error;
pub mod instruction;
pub mod pda;
pub mod processor;
pub mod rent;
pub mod state;
pub mod token;
