//! The instructions that the program accepts, and their wire format.
//!
//! An instruction travels as one tag byte followed by its payload. The only
//! tag in use is `0`, followed by an amount as eight little-endian bytes.
//! Bytes after the payload are not looked at.

use vstd::prelude::*;
use vstd::slice::slice_subrange;
use crate::bytes::{le_bytes, le_value, lemma_u64_round_trip, read_u64_le, write_u64_le};
use crate::error::{EscrowError, ProgramError};

verus! {

/// What the program can be asked to do.
#[derive(Debug, Copy, Clone, PartialEq, Eq, Structural)]
pub enum EscrowInstruction {
    /// Opens a trade: fills in the escrow account and hands the temporary
    /// token account over to the program's custodian address.
    ///
    /// Accounts, in this order:
    ///
    /// 0. signer: the party that opens the trade
    /// 1. writable: the temporary token account, owned by that party
    /// 2. the token account of that party on which it wants to be paid
    /// 3. writable: the escrow account that takes the record of the trade
    /// 4. the rent parameters
    /// 5. the token program
    InitEscrow {
        /// How much the party that opens the trade wants to receive.
        amount: u64,
    },
}

/// The tag byte of `InitEscrow`.
pub const INIT_ESCROW_TAG: u8 = 0;

/// The failure that every undecodable input gives.
pub open spec fn invalid_instruction() -> ProgramError {
    ProgramError::Custom(EscrowError::InvalidInstruction.spec_code())
}

/// The amount at the head of a payload: its first eight bytes, read as a
/// little-endian number; a failure where the payload is shorter.
pub open spec fn decode_amount(payload: Seq<u8>) -> Result<u64, ProgramError> {
    if payload.len() >= 8 {
        Ok(le_value(payload.subrange(0, 8)) as u64)
    } else {
        Err(invalid_instruction())
    }
}

impl EscrowInstruction {
    /// The instruction that `input` spells.
    pub open spec fn decode(input: Seq<u8>) -> Result<EscrowInstruction, ProgramError> {
        if input.len() == 0 {
            Err(invalid_instruction())
        } else if input[0] == INIT_ESCROW_TAG {
            match decode_amount(input.drop_first()) {
                Ok(amount) => Ok(EscrowInstruction::InitEscrow { amount }),
                Err(e) => Err(e),
            }
        } else {
            Err(invalid_instruction())
        }
    }

    /// The bytes under which the instruction travels.
    pub open spec fn encoding(self) -> Seq<u8> {
        match self {
            EscrowInstruction::InitEscrow { amount } => seq![INIT_ESCROW_TAG] + le_bytes(
                amount as nat,
                8,
            ),
        }
    }

    /// Decodes an instruction from the bytes that came with the invocation.
    pub fn unpack(input: &[u8]) -> (r: Result<Self, ProgramError>)
        ensures
            r == Self::decode(input@),
    {
        if input.len() == 0 {
            return Err(ProgramError::from(EscrowError::InvalidInstruction));
        }
        let tag = input[0];
        let rest = slice_subrange(input, 1, input.len());
        assert(rest@ =~= input@.drop_first());
        if tag == INIT_ESCROW_TAG {
            match Self::unpack_amount(rest) {
                Ok(amount) => Ok(EscrowInstruction::InitEscrow { amount }),
                Err(e) => Err(e),
            }
        } else {
            Err(ProgramError::from(EscrowError::InvalidInstruction))
        }
    }

    /// Reads the amount at the head of a payload.
    pub fn unpack_amount(input: &[u8]) -> (r: Result<u64, ProgramError>)
        ensures
            r == decode_amount(input@),
    {
        if input.len() < 8 {
            return Err(ProgramError::from(EscrowError::InvalidInstruction));
        }
        Ok(read_u64_le(input, 0))
    }

    /// Encodes the instruction for the wire.
    pub fn pack(&self) -> (out: Vec<u8>)
        ensures
            out@ == self.encoding(),
    {
        let mut out: Vec<u8> = Vec::new();
        match self {
            EscrowInstruction::InitEscrow { amount } => {
                out.push(INIT_ESCROW_TAG);
                write_u64_le(*amount, &mut out);
            },
        }
        out
    }
}

/// An input of fewer than nine bytes that starts with the tag `0` is no
/// instruction.
pub proof fn lemma_truncated_init_escrow_rejected(input: Seq<u8>)
    requires
        input.len() < 9,
        input.len() > 0 ==> input[0] == 0,
    ensures
        EscrowInstruction::decode(input) == Err::<EscrowInstruction, ProgramError>(
            ProgramError::Custom(0),
        ),
{
}

/// An input decodes to `InitEscrow` exactly when it starts with the tag `0`
/// and holds at least eight more bytes; every other input gives the one
/// failure.
pub proof fn lemma_decode_cases(input: Seq<u8>)
    ensures
        input.len() >= 9 && input[0] == 0 ==> EscrowInstruction::decode(input) == Ok::<
            EscrowInstruction,
            ProgramError,
        >(EscrowInstruction::InitEscrow { amount: le_value(input.subrange(1, 9)) as u64 }),
        !(input.len() >= 9 && input[0] == 0) ==> EscrowInstruction::decode(input) == Err::<
            EscrowInstruction,
            ProgramError,
        >(ProgramError::Custom(0)),
{
    if input.len() >= 9 {
        assert(input.drop_first().subrange(0, 8) =~= input.subrange(1, 9));
    }
}

/// The tag `0` followed by the eight little-endian bytes of an amount decodes
/// to `InitEscrow` with that amount, whatever bytes follow.
pub proof fn lemma_decode_tag_and_amount(amount: u64, trailing: Seq<u8>)
    ensures
        EscrowInstruction::decode(seq![0u8] + le_bytes(amount as nat, 8) + trailing) == Ok::<
            EscrowInstruction,
            ProgramError,
        >(EscrowInstruction::InitEscrow { amount }),
{
    let input = seq![0u8] + le_bytes(amount as nat, 8) + trailing;
    lemma_u64_round_trip(amount);
    assert(input.drop_first().subrange(0, 8) =~= le_bytes(amount as nat, 8));
}

/// Decoding what was encoded gives the instruction back.
pub proof fn lemma_decode_encoding(instruction: EscrowInstruction)
    ensures
        EscrowInstruction::decode(instruction.encoding()) == Ok::<EscrowInstruction, ProgramError>(
            instruction,
        ),
{
    match instruction {
        EscrowInstruction::InitEscrow { amount } => {
            lemma_decode_tag_and_amount(amount, Seq::empty());
            assert(seq![0u8] + le_bytes(amount as nat, 8) + Seq::<u8>::empty()
                =~= instruction.encoding());
        },
    }
}

} // verus!
