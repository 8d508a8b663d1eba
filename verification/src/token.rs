//! What the handler needs of the token program: its address, and the request
//! that hands an account over to a new authority.

use vstd::prelude::*;
use solana_program::pubkey::Pubkey;
use spl_token::instruction;
use crate::account::{AccountMeta, Instruction, InstructionView};

verus! {

/// The authorities over a token account or a mint that can be handed over.
#[derive(Debug, Copy, Clone, PartialEq, Eq, Structural)]
pub enum AuthorityType {
    /// The right to mint new tokens.
    MintTokens,
    /// The right to freeze accounts of a mint.
    FreezeAccount,
    /// The ownership of a token account.
    AccountOwner,
    /// The right to close a token account.
    CloseAccount,
}

impl AuthorityType {
    /// The byte that stands for the authority in a request.
    pub open spec fn code(self) -> u8 {
        match self {
            AuthorityType::MintTokens => 0,
            AuthorityType::FreezeAccount => 1,
            AuthorityType::AccountOwner => 2,
            AuthorityType::CloseAccount => 3,
        }
    }
}

/// The address of the token program, `TokenkegQfeZyiNwAJbNbGKPFXCWuBvf9Ss623VQ5DA`
/// in base 58.
pub const TOKEN_PROGRAM_KEY: [u8; 32] = [
    6, 221, 246, 225, 215, 101, 161, 147, 217, 203, 225, 70, 206, 235, 121, 172,
    28, 180, 133, 237, 95, 91, 55, 145, 58, 140, 245, 133, 126, 255, 0, 169,
];

/// The tag byte of the token program's request to set an authority.
pub const SET_AUTHORITY_TAG: u8 = 6;

/// The request that makes `new_authority` the authority of kind `kind` over
/// `owned`, asked by `owner` and signed by `signer`.
///
/// It names three accounts: `owned`, which it writes to; `owner`, which need
/// not sign where another account signs for it; and `signer`, which must
/// sign. Its data are the tag, the kind, a `1` that says a new authority
/// follows, and that address.
pub open spec fn set_authority_request(
    program: [u8; 32],
    owned: [u8; 32],
    new_authority: [u8; 32],
    kind: AuthorityType,
    owner: [u8; 32],
    signer: [u8; 32],
) -> InstructionView {
    InstructionView {
        program_id: program,
        accounts: seq![
            AccountMeta { pubkey: owned, is_signer: false, is_writable: true },
            AccountMeta { pubkey: owner, is_signer: false, is_writable: false },
            AccountMeta { pubkey: signer, is_signer: true, is_writable: false },
        ],
        data: seq![SET_AUTHORITY_TAG, kind.code(), 1u8] + new_authority@,
    }
}

/// Trusted: `spl_token::id`. The address that the token program is deployed
/// under is the constant `TOKEN_PROGRAM_KEY`.
#[verifier::external_body]
pub(crate) fn token_program_id() -> (id: [u8; 32])
    ensures
        id == TOKEN_PROGRAM_KEY,
{
    spl_token::id().to_bytes()
}

/// Trusted: `spl_token::instruction::set_authority`, called with a new
/// authority and with one signer. It refuses every program address but the
/// token program's own, and otherwise builds `set_authority_request`.
#[verifier::external_body]
pub(crate) fn set_authority(
    program: &[u8; 32],
    owned: &[u8; 32],
    new_authority: &[u8; 32],
    kind: AuthorityType,
    owner: &[u8; 32],
    signer: &[u8; 32],
) -> (r: Option<Instruction>)
    ensures
        *program != TOKEN_PROGRAM_KEY ==> r is None,
        *program == TOKEN_PROGRAM_KEY ==> r is Some && r->Some_0@ == set_authority_request(
            *program,
            *owned,
            *new_authority,
            kind,
            *owner,
            *signer,
        ),
{
    let kind = match kind {
        AuthorityType::MintTokens => instruction::AuthorityType::MintTokens,
        AuthorityType::FreezeAccount => instruction::AuthorityType::FreezeAccount,
        AuthorityType::AccountOwner => instruction::AuthorityType::AccountOwner,
        AuthorityType::CloseAccount => instruction::AuthorityType::CloseAccount,
    };
    let key = |bytes: &[u8; 32]| Pubkey::new_from_array(*bytes);
    let meta = |m: &solana_program::instruction::AccountMeta| AccountMeta { pubkey: m.pubkey.to_bytes(), is_signer: m.is_signer, is_writable: m.is_writable };
    instruction::set_authority(&key(program), &key(owned), Some(&key(new_authority)), kind, &key(owner), &[&key(signer)])
        .ok()
        .map(|ix| Instruction { program_id: ix.program_id.to_bytes(), accounts: ix.accounts.iter().map(meta).collect(), data: ix.data })
}

} // verus!
