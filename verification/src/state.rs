//! The record of one trade, as it is kept in the escrow account.
//!
//! The record has a fixed width and no padding: one byte that says whether
//! it is in use, three addresses of 32 bytes each, and the expected amount as
//! eight little-endian bytes.

use vstd::prelude::*;
use crate::account::{read_key, write_key};
use crate::bytes::{le_bytes, lemma_le_bytes_len, lemma_le_bytes_of_le_value,
    lemma_u64_round_trip, read_u64_le, write_u64_le};
use crate::error::ProgramError;

verus! {

/// The state of one trade.
#[derive(Debug, Copy, Clone, PartialEq, Eq)]
pub struct Escrow {
    /// Whether the record is in use.
    pub is_initialized: bool,
    /// The party that opened the trade.
    pub initializer_pubkey: [u8; 32],
    /// The temporary token account that holds what this party offers.
    pub temp_token_account_pubkey: [u8; 32],
    /// The token account on which this party wants to be paid.
    pub initializer_token_to_receive_account_pubkey: [u8; 32],
    /// How much this party wants to be paid.
    pub expected_amount: u64,
}

/// The width of a record in bytes.
pub const ESCROW_LEN: usize = 105;

/// Whether `data` has the shape of a record: the right width, and `0` or `1`
/// in the byte that says whether the record is in use.
pub open spec fn is_record(data: Seq<u8>) -> bool {
    data.len() == ESCROW_LEN && data[0] <= 1
}

impl Escrow {
    /// The bytes that store the record.
    pub open spec fn encoding(self) -> Seq<u8> {
        seq![if self.is_initialized { 1u8 } else { 0u8 }] + self.initializer_pubkey@
            + self.temp_token_account_pubkey@ + self.initializer_token_to_receive_account_pubkey@
            + le_bytes(self.expected_amount as nat, 8)
    }

    /// Whether the record is in use.
    pub fn is_initialized(&self) -> (r: bool)
        ensures
            r == self.is_initialized,
    {
        self.is_initialized
    }

    /// Reads a record, in use or not, out of the data of an account.
    ///
    /// Data of the wrong width, or with another byte than `0` or `1` at the
    /// front, holds no record.
    pub fn unpack_unchecked(input: &[u8]) -> (r: Result<Escrow, ProgramError>)
        ensures
            is_record(input@) ==> r is Ok && r->Ok_0.encoding() == input@,
            !is_record(input@) ==> r == Err::<Escrow, ProgramError>(
                ProgramError::InvalidAccountData,
            ),
    {
        if input.len() != ESCROW_LEN {
            return Err(ProgramError::InvalidAccountData);
        }
        let is_initialized = match input[0] {
            0 => false,
            1 => true,
            _ => {
                return Err(ProgramError::InvalidAccountData);
            },
        };
        let record = Escrow {
            is_initialized,
            initializer_pubkey: read_key(input, 1),
            temp_token_account_pubkey: read_key(input, 33),
            initializer_token_to_receive_account_pubkey: read_key(input, 65),
            expected_amount: read_u64_le(input, 97),
        };
        proof {
            lemma_le_bytes_of_le_value(input@.subrange(97, 105));
            assert(record.encoding() =~= input@);
        }
        Ok(record)
    }

    /// Writes the record over the data of an account.
    ///
    /// Data of another width than a record's is left as it is, and the call
    /// fails.
    pub fn pack(src: Escrow, dst: &mut Vec<u8>) -> (r: Result<(), ProgramError>)
        ensures
            old(dst)@.len() == ESCROW_LEN ==> r is Ok && final(dst)@ == src.encoding(),
            old(dst)@.len() != ESCROW_LEN ==> r == Err::<(), ProgramError>(
                ProgramError::InvalidAccountData,
            ) && final(dst)@ == old(dst)@,
    {
        if dst.len() != ESCROW_LEN {
            return Err(ProgramError::InvalidAccountData);
        }
        let mut out: Vec<u8> = Vec::new();
        out.push(if src.is_initialized { 1u8 } else { 0u8 });
        write_key(&src.initializer_pubkey, &mut out);
        write_key(&src.temp_token_account_pubkey, &mut out);
        write_key(&src.initializer_token_to_receive_account_pubkey, &mut out);
        write_u64_le(src.expected_amount, &mut out);
        assert(out@ =~= src.encoding());
        *dst = out;
        Ok(())
    }
}

/// Every record is stored in exactly `ESCROW_LEN` bytes that have the shape of
/// a record.
pub proof fn lemma_encoding_is_record(record: Escrow)
    ensures
        is_record(record.encoding()),
{
    lemma_le_bytes_len(record.expected_amount as nat, 8);
}

/// Two records that are stored as the same bytes are the same record.
pub proof fn lemma_encoding_injective(a: Escrow, b: Escrow)
    requires
        a.encoding() == b.encoding(),
    ensures
        a == b,
{
    let ea = a.encoding();
    let eb = b.encoding();
    lemma_le_bytes_len(a.expected_amount as nat, 8);
    lemma_le_bytes_len(b.expected_amount as nat, 8);
    assert(a.is_initialized == b.is_initialized) by {
        assert(ea[0] == eb[0]);
    }
    assert(a.initializer_pubkey =~= b.initializer_pubkey) by {
        assert forall|i: int| 0 <= i < 32 implies a.initializer_pubkey[i]
            == b.initializer_pubkey[i] by {
            assert(ea[1 + i] == a.initializer_pubkey[i]);
            assert(eb[1 + i] == b.initializer_pubkey[i]);
        }
    }
    assert(a.temp_token_account_pubkey =~= b.temp_token_account_pubkey) by {
        assert forall|i: int| 0 <= i < 32 implies a.temp_token_account_pubkey[i]
            == b.temp_token_account_pubkey[i] by {
            assert(ea[33 + i] == a.temp_token_account_pubkey[i]);
            assert(eb[33 + i] == b.temp_token_account_pubkey[i]);
        }
    }
    assert(a.initializer_token_to_receive_account_pubkey
        =~= b.initializer_token_to_receive_account_pubkey) by {
        assert forall|i: int| 0 <= i < 32 implies a.initializer_token_to_receive_account_pubkey[i]
            == b.initializer_token_to_receive_account_pubkey[i] by {
            assert(ea[65 + i] == a.initializer_token_to_receive_account_pubkey[i]);
            assert(eb[65 + i] == b.initializer_token_to_receive_account_pubkey[i]);
        }
    }
    assert(a.expected_amount == b.expected_amount) by {
        assert(ea.subrange(97, 105) =~= le_bytes(a.expected_amount as nat, 8));
        assert(eb.subrange(97, 105) =~= le_bytes(b.expected_amount as nat, 8));
        lemma_u64_round_trip(a.expected_amount);
        lemma_u64_round_trip(b.expected_amount);
    }
}

} // verus!
