//! Accounts as the handler sees them, and the requests it hands on.
//!
//! An address is the 32 bytes of a public key.

use vstd::prelude::*;

verus! {

/// One account of the invocation: who it is, who owns it, what it holds.
#[derive(Debug, Clone, PartialEq, Eq)]
pub struct Account {
    /// The address of the account.
    pub key: [u8; 32],
    /// Whether the account signed the transaction.
    pub is_signer: bool,
    /// Whether the transaction may write to the account.
    pub is_writable: bool,
    /// The balance of the account.
    pub lamports: u64,
    /// The data that the account stores.
    pub data: Vec<u8>,
    /// The address of the program that owns the account.
    pub owner: [u8; 32],
    /// Whether the account holds a program.
    pub executable: bool,
    /// The epoch at which the account next owes rent.
    pub rent_epoch: u64,
}

/// An account as a value: its data as a sequence of bytes.
pub struct AccountView {
    pub key: [u8; 32],
    pub is_signer: bool,
    pub is_writable: bool,
    pub lamports: u64,
    pub data: Seq<u8>,
    pub owner: [u8; 32],
    pub executable: bool,
    pub rent_epoch: u64,
}

impl View for Account {
    type V = AccountView;

    open spec fn view(&self) -> AccountView {
        AccountView {
            key: self.key,
            is_signer: self.is_signer,
            is_writable: self.is_writable,
            lamports: self.lamports,
            data: self.data@,
            owner: self.owner,
            executable: self.executable,
            rent_epoch: self.rent_epoch,
        }
    }
}

impl DeepView for Account {
    type V = AccountView;

    open spec fn deep_view(&self) -> AccountView {
        self@
    }
}

/// How a request refers to one of the accounts it touches.
#[derive(Debug, Copy, Clone, PartialEq, Eq)]
pub struct AccountMeta {
    /// The address of the account.
    pub pubkey: [u8; 32],
    /// Whether the request needs the account's signature.
    pub is_signer: bool,
    /// Whether the request may write to the account.
    pub is_writable: bool,
}

/// A request to another program.
#[derive(Debug, Clone, PartialEq, Eq)]
pub struct Instruction {
    /// The address of the program that is to carry the request out.
    pub program_id: [u8; 32],
    /// The accounts that the request touches.
    pub accounts: Vec<AccountMeta>,
    /// What is asked, in the other program's wire format.
    pub data: Vec<u8>,
}

/// A request as a value.
pub struct InstructionView {
    pub program_id: [u8; 32],
    pub accounts: Seq<AccountMeta>,
    pub data: Seq<u8>,
}

impl View for Instruction {
    type V = InstructionView;

    open spec fn view(&self) -> InstructionView {
        InstructionView { program_id: self.program_id, accounts: self.accounts@, data: self.data@ }
    }
}

/// Whether two addresses are the same.
pub fn same_key(a: &[u8; 32], b: &[u8; 32]) -> (same: bool)
    ensures
        same == (*a == *b),
{
    let mut i: usize = 0;
    while i < 32
        invariant
            i <= 32,
            forall|j: int| 0 <= j < i ==> a[j] == b[j],
        decreases 32 - i,
    {
        if a[i] != b[i] {
            return false;
        }
        i = i + 1;
    }
    assert(*a =~= *b);
    true
}

/// Copies the address that starts at `start` out of `bytes`.
pub fn read_key(bytes: &[u8], start: usize) -> (key: [u8; 32])
    requires
        start + 32 <= bytes@.len(),
    ensures
        key@ == bytes@.subrange(start as int, start + 32),
{
    let len: usize = bytes.len();
    let mut key: [u8; 32] = [0u8; 32];
    let mut i: usize = 0;
    while i < 32
        invariant
            i <= 32,
            bytes@.len() == len,
            start + 32 <= len,
            forall|j: int| 0 <= j < i ==> key[j] == bytes@[start + j],
        decreases 32 - i,
    {
        key[i] = bytes[start + i];
        i = i + 1;
    }
    assert(key@ =~= bytes@.subrange(start as int, start + 32));
    key
}

/// Appends the 32 bytes of `key` to `out`.
pub fn write_key(key: &[u8; 32], out: &mut Vec<u8>)
    ensures
        final(out)@ == old(out)@ + key@,
{
    let mut i: usize = 0;
    while i < 32
        invariant
            i <= 32,
            out@ == old(out)@ + key@.subrange(0, i as int),
        decreases 32 - i,
    {
        out.push(key[i]);
        assert(key@.subrange(0, i + 1) =~= key@.subrange(0, i as int).push(key[i as int]));
        i = i + 1;
    }
    assert(key@.subrange(0, 32) =~= key@);
}

} // verus!
