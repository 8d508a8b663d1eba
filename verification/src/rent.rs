//! The balance that keeps an account exempt from rent.
//!
//! The rent parameters live in an account of their own. What they ask for an
//! account of a given size is computed by the runtime's own code; here it has
//! a name, and the handler compares balances with it.

use vstd::prelude::*;
use solana_program::account_info::AccountInfo;
use solana_program::pubkey::Pubkey;
use solana_program::rent::Rent;
use solana_program::sysvar::Sysvar;
use crate::account::{Account, AccountView};
use crate::error::ProgramError;

verus! {

/// The rate in lamports per byte and year that the rent parameters in an
/// account with this address and these data name; `None` where the account
/// is not the one that holds the rent parameters, or its data do not spell
/// them.
pub uninterp spec fn rent_rate(key: [u8; 32], data: Seq<u8>) -> Option<u64>;

/// The least balance that the rent parameters in an account with this address
/// and these data exempt from rent, for an account that stores `data_len`
/// bytes.
pub uninterp spec fn rent_minimum_balance(key: [u8; 32], data: Seq<u8>, data_len: nat) -> u64;

/// The address of the account that holds the rent parameters,
/// `SysvarRent111111111111111111111111111111111` in base 58.
pub const RENT_KEY: [u8; 32] = [
    6, 167, 213, 23, 25, 44, 92, 81, 33, 140, 201, 76, 61, 74, 241, 127,
    88, 218, 238, 8, 155, 161, 253, 68, 227, 219, 217, 138, 0, 0, 0, 0,
];

/// The bytes that every account is charged for besides its data.
pub const ACCOUNT_STORAGE_OVERHEAD: u64 = 128;

/// Whether the yearly charge for `data_len` bytes at `rate` leaves the 64-bit
/// numbers: the size with the overhead, or its product with the rate.
pub open spec fn charge_overflows(data_len: nat, rate: u64) -> bool {
    ACCOUNT_STORAGE_OVERHEAD + data_len > u64::MAX || (ACCOUNT_STORAGE_OVERHEAD + data_len) * rate
        > u64::MAX
}

/// Trusted: `Rent::from_account_info`, and of the parameters it reads the
/// field `lamports_per_byte_year`. The result depends on the account's
/// address and data alone, and an account under another address than
/// `RENT_KEY` is refused.
#[verifier::external_body]
pub(crate) fn lamports_per_byte_year(rent_account: &Account) -> (r: Option<u64>)
    ensures
        r == rent_rate(rent_account.key, rent_account.data@),
        rent_account.key != RENT_KEY ==> r is None,
{
    let key = Pubkey::new_from_array(rent_account.key);
    let owner = Pubkey::new_from_array(rent_account.owner);
    let (mut lamports, mut data) = (rent_account.lamports, rent_account.data.clone());
    let info = AccountInfo::new(&key, rent_account.is_signer, rent_account.is_writable, &mut lamports, &mut data, &owner, rent_account.executable, rent_account.rent_epoch);
    Rent::from_account_info(&info).ok().map(|rent| rent.lamports_per_byte_year)
}

/// Trusted: `Rent::from_account_info` followed by `Rent::minimum_balance`.
/// The parameters are read as in `lamports_per_byte_year`, so the two succeed
/// on the same accounts. The balance is computed in floating point from the
/// parameters and the size; the size with the overhead, and its product with
/// the rate, must fit in 64 bits.
#[verifier::external_body]
pub(crate) fn minimum_balance(rent_account: &Account, data_len: usize) -> (r: Option<u64>)
    requires
        rent_rate(rent_account.key, rent_account.data@) matches Some(rate) ==> !charge_overflows(
            data_len as nat,
            rate,
        ),
    ensures
        r == match rent_rate(rent_account.key, rent_account.data@) {
            Some(_) => Some(
                rent_minimum_balance(rent_account.key, rent_account.data@, data_len as nat),
            ),
            None => None,
        },
{
    let key = Pubkey::new_from_array(rent_account.key);
    let owner = Pubkey::new_from_array(rent_account.owner);
    let (mut lamports, mut data) = (rent_account.lamports, rent_account.data.clone());
    let info = AccountInfo::new(&key, rent_account.is_signer, rent_account.is_writable, &mut lamports, &mut data, &owner, rent_account.executable, rent_account.rent_epoch);
    Rent::from_account_info(&info).ok().map(|rent| rent.minimum_balance(data_len))
}

/// What the rent parameters in `rent_account` ask of an account that stores
/// `data_len` bytes: the least balance that is exempt, or why there is none.
pub open spec fn exemption_minimum(rent_account: AccountView, data_len: nat) -> Result<
    u64,
    ProgramError,
> {
    match rent_rate(rent_account.key, rent_account.data) {
        None => Err(ProgramError::InvalidArgument),
        Some(rate) => if charge_overflows(data_len, rate) {
            Err(ProgramError::ArithmeticOverflow)
        } else {
            Ok(rent_minimum_balance(rent_account.key, rent_account.data, data_len))
        },
    }
}

/// Asks the rent parameters in `rent_account` for the least balance that
/// exempts an account of `data_len` bytes from rent.
///
/// Fails with `InvalidArgument` where the account does not hold rent
/// parameters, as is so of every account but the one at `RENT_KEY`, and with
/// `ArithmeticOverflow` where the yearly charge leaves the 64-bit numbers.
pub fn rent_exemption_minimum(rent_account: &Account, data_len: usize) -> (r: Result<
    u64,
    ProgramError,
>)
    ensures
        r == exemption_minimum(rent_account@, data_len as nat),
        rent_account.key != RENT_KEY ==> r == Err::<u64, ProgramError>(
            ProgramError::InvalidArgument,
        ),
{
    match lamports_per_byte_year(rent_account) {
        None => Err(ProgramError::InvalidArgument),
        Some(rate) => {
            if data_len as u64 > u64::MAX - ACCOUNT_STORAGE_OVERHEAD {
                return Err(ProgramError::ArithmeticOverflow);
            }
            let charged: u64 = ACCOUNT_STORAGE_OVERHEAD + data_len as u64;
            assert(charged * rate <= u128::MAX) by (nonlinear_arith)
                requires
                    0 <= charged <= 0xffff_ffff_ffff_ffff,
                    0 <= rate <= 0xffff_ffff_ffff_ffff,
            ;
            if (charged as u128) * (rate as u128) > u64::MAX as u128 {
                return Err(ProgramError::ArithmeticOverflow);
            }
            match minimum_balance(rent_account, data_len) {
                Some(minimum) => Ok(minimum),
                None => Err(ProgramError::InvalidArgument),
            }
        },
    }
}

} // verus!
