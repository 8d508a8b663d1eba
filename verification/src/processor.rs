//! The handler: from an instruction and its accounts to the new escrow record
//! and the custody transfer that has to follow.
//!
//! The handler writes the record and names the transfer; it does not carry
//! the transfer out. Whoever invokes it delegates the returned request to the
//! token program, and keeps the record only if that request goes through:
//! the two are one transition, and a failed transfer takes the record with it.

use vstd::prelude::*;
use crate::account::{same_key, Account, AccountView, Instruction, InstructionView};
use crate::error::{EscrowError, ProgramError};
use crate::instruction::EscrowInstruction;
use crate::pda::{custodian, find_custodian};
use crate::rent::{exemption_minimum, rent_exemption_minimum, RENT_KEY};
use crate::state::{is_record, lemma_encoding_is_record, Escrow};
use crate::token::{set_authority, set_authority_request, token_program_id, AuthorityType,
    TOKEN_PROGRAM_KEY};

verus! {

/// The request that the handler hands back, and the accounts that go with it.
#[derive(Debug, Clone, PartialEq, Eq)]
pub struct Invocation {
    /// The request to the token program.
    pub instruction: Instruction,
    /// The positions, in the handler's own account list, of the accounts that
    /// are handed on with the request, in the order in which they are handed
    /// on.
    pub accounts: [usize; 3],
}

/// What a successful initialization comes to: the record that is written and
/// the request that is handed back.
pub struct Transition {
    pub record: Escrow,
    pub request: InstructionView,
}

/// The position of the party that opens the trade in the account list.
pub const INITIALIZER: usize = 0;

/// The position of the temporary token account.
pub const TEMP_TOKEN_ACCOUNT: usize = 1;

/// The position of the account on which the initializer wants to be paid.
pub const TOKEN_TO_RECEIVE_ACCOUNT: usize = 2;

/// The position of the escrow account.
pub const ESCROW_ACCOUNT: usize = 3;

/// The position of the account with the rent parameters.
pub const RENT_ACCOUNT: usize = 4;

/// The position of the token program.
pub const TOKEN_PROGRAM: usize = 5;

/// The record of a trade that the first four accounts open for `amount`.
pub open spec fn opened_record(accounts: Seq<AccountView>, amount: u64) -> Escrow {
    Escrow {
        is_initialized: true,
        initializer_pubkey: accounts[INITIALIZER as int].key,
        temp_token_account_pubkey: accounts[TEMP_TOKEN_ACCOUNT as int].key,
        initializer_token_to_receive_account_pubkey: accounts[TOKEN_TO_RECEIVE_ACCOUNT as int].key,
        expected_amount: amount,
    }
}

/// The request that makes `new_owner` the owner of the temporary token
/// account, asked and signed by the initializer.
pub open spec fn custody_request(accounts: Seq<AccountView>, new_owner: [u8; 32]) -> InstructionView {
    set_authority_request(
        accounts[TOKEN_PROGRAM as int].key,
        accounts[TEMP_TOKEN_ACCOUNT as int].key,
        new_owner,
        AuthorityType::AccountOwner,
        accounts[INITIALIZER as int].key,
        accounts[INITIALIZER as int].key,
    )
}

/// What initializing an escrow comes to, check by check in the order in which
/// the checks are made. `rent_minimum` is what the rent account asks of the
/// escrow account, and `custodian` the program's custodian address with its
/// bump; each is looked at only once the checks before it have passed.
pub open spec fn init_escrow_outcome(
    accounts: Seq<AccountView>,
    amount: u64,
    rent_minimum: Result<u64, ProgramError>,
    custodian: Option<([u8; 32], u8)>,
) -> Result<Transition, ProgramError> {
    if accounts.len() <= INITIALIZER {
        Err(ProgramError::NotEnoughAccountKeys)
    } else if !accounts[INITIALIZER as int].is_signer {
        Err(ProgramError::MissingRequiredSignature)
    } else if accounts.len() <= TOKEN_TO_RECEIVE_ACCOUNT {
        Err(ProgramError::NotEnoughAccountKeys)
    } else if accounts[TOKEN_TO_RECEIVE_ACCOUNT as int].owner != TOKEN_PROGRAM_KEY {
        Err(ProgramError::IncorrectProgramId)
    } else if accounts.len() <= RENT_ACCOUNT {
        Err(ProgramError::NotEnoughAccountKeys)
    } else if rent_minimum is Err {
        Err(rent_minimum->Err_0)
    } else if accounts[ESCROW_ACCOUNT as int].lamports < rent_minimum->Ok_0 {
        Err(ProgramError::Custom(EscrowError::NotRentExempt.spec_code()))
    } else if !is_record(accounts[ESCROW_ACCOUNT as int].data) {
        Err(ProgramError::InvalidAccountData)
    } else if accounts[ESCROW_ACCOUNT as int].data[0] == 1 {
        Err(ProgramError::AccountAlreadyInitialized)
    } else if custodian is None {
        Err(ProgramError::InvalidSeeds)
    } else if accounts.len() <= TOKEN_PROGRAM {
        Err(ProgramError::NotEnoughAccountKeys)
    } else if accounts[TOKEN_PROGRAM as int].key != TOKEN_PROGRAM_KEY {
        Err(ProgramError::IncorrectProgramId)
    } else {
        Ok(
            Transition {
                record: opened_record(accounts, amount),
                request: custody_request(accounts, custodian->Some_0.0),
            },
        )
    }
}

/// The accounts after a record was written into the escrow account: that
/// account's data are the record's bytes, and nothing else has changed.
pub open spec fn with_record(accounts: Seq<AccountView>, record: Escrow) -> Seq<AccountView> {
    accounts.update(
        ESCROW_ACCOUNT as int,
        AccountView { data: record.encoding(), ..accounts[ESCROW_ACCOUNT as int] },
    )
}

/// How the handler leaves the accounts and what it returns, given what the
/// initialization comes to: on a failure the failure, with every account as
/// it was; on success the request with the accounts that go with it, and the
/// record in the escrow account.
pub open spec fn carried_out(
    outcome: Result<Transition, ProgramError>,
    before: Seq<AccountView>,
    after: Seq<AccountView>,
    returned: Result<Invocation, ProgramError>,
) -> bool {
    match outcome {
        Err(e) => returned == Err::<Invocation, ProgramError>(e) && after == before,
        Ok(transition) => {
            &&& returned is Ok
            &&& returned->Ok_0.instruction@ == transition.request
            &&& returned->Ok_0.accounts@ == seq![TEMP_TOKEN_ACCOUNT, INITIALIZER, TOKEN_PROGRAM]
            &&& after == with_record(before, transition.record)
        },
    }
}

/// Whether the checks that come before the look at the escrow account's
/// balance pass: the initializer signed, the account to be paid on belongs to
/// the token program, and the first five accounts are there.
pub open spec fn authorized(accounts: Seq<AccountView>) -> bool {
    &&& accounts.len() > RENT_ACCOUNT
    &&& accounts[INITIALIZER as int].is_signer
    &&& accounts[TOKEN_TO_RECEIVE_ACCOUNT as int].owner == TOKEN_PROGRAM_KEY
}

/// A failure leaves every account as it was, and is what the handler returns.
pub proof fn lemma_failure_changes_nothing(
    e: ProgramError,
    before: Seq<AccountView>,
    after: Seq<AccountView>,
    returned: Result<Invocation, ProgramError>,
)
    requires
        carried_out(Err(e), before, after, returned),
    ensures
        returned == Err::<Invocation, ProgramError>(e),
        after == before,
{
}

/// Without the initializer's signature the initialization fails with
/// `MissingRequiredSignature`, whatever else the accounts hold.
pub proof fn lemma_unsigned_initializer_refused(
    accounts: Seq<AccountView>,
    amount: u64,
    rent_minimum: Result<u64, ProgramError>,
    custodian: Option<([u8; 32], u8)>,
)
    requires
        accounts.len() > INITIALIZER,
        !accounts[INITIALIZER as int].is_signer,
    ensures
        init_escrow_outcome(accounts, amount, rent_minimum, custodian) == Err::<
            Transition,
            ProgramError,
        >(ProgramError::MissingRequiredSignature),
{
}

/// An escrow account that holds less than the rent account asks of it fails
/// the initialization with the escrow's `NotRentExempt`, once the checks
/// before that have passed.
pub proof fn lemma_underfunded_escrow_refused(
    accounts: Seq<AccountView>,
    amount: u64,
    minimum: u64,
    custodian: Option<([u8; 32], u8)>,
)
    requires
        authorized(accounts),
        accounts[ESCROW_ACCOUNT as int].lamports < minimum,
    ensures
        init_escrow_outcome(accounts, amount, Ok(minimum), custodian) == Err::<
            Transition,
            ProgramError,
        >(ProgramError::Custom(1)),
{
}

/// An escrow account whose record is in use fails the initialization with
/// `AccountAlreadyInitialized`, once the checks before that have passed.
pub proof fn lemma_initialized_escrow_refused(
    accounts: Seq<AccountView>,
    amount: u64,
    minimum: u64,
    custodian: Option<([u8; 32], u8)>,
)
    requires
        authorized(accounts),
        accounts[ESCROW_ACCOUNT as int].lamports >= minimum,
        is_record(accounts[ESCROW_ACCOUNT as int].data),
        accounts[ESCROW_ACCOUNT as int].data[0] == 1,
    ensures
        init_escrow_outcome(accounts, amount, Ok(minimum), custodian) == Err::<
            Transition,
            ProgramError,
        >(ProgramError::AccountAlreadyInitialized),
{
}

/// A successful initialization writes a record that is in use, names the
/// three addresses it was given and the amount, and asks the token program to
/// make the custodian the owner of the temporary token account.
pub proof fn lemma_success_opens_the_trade(
    accounts: Seq<AccountView>,
    amount: u64,
    rent_minimum: Result<u64, ProgramError>,
    custodian: Option<([u8; 32], u8)>,
)
    requires
        init_escrow_outcome(accounts, amount, rent_minimum, custodian) is Ok,
    ensures
        ({
            let transition = init_escrow_outcome(accounts, amount, rent_minimum, custodian)->Ok_0;
            let after = with_record(accounts, transition.record);
            &&& custodian is Some
            &&& transition.record.is_initialized
            &&& transition.record.expected_amount == amount
            &&& transition.record.initializer_pubkey == accounts[INITIALIZER as int].key
            &&& transition.record.temp_token_account_pubkey
                == accounts[TEMP_TOKEN_ACCOUNT as int].key
            &&& transition.record.initializer_token_to_receive_account_pubkey
                == accounts[TOKEN_TO_RECEIVE_ACCOUNT as int].key
            &&& transition.request.program_id == TOKEN_PROGRAM_KEY
            &&& transition.request.accounts[0].pubkey == accounts[TEMP_TOKEN_ACCOUNT as int].key
            &&& transition.request.data == seq![6u8, 2u8, 1u8] + custodian->Some_0.0@
            &&& is_record(after[ESCROW_ACCOUNT as int].data)
            &&& after[ESCROW_ACCOUNT as int].data[0] == 1
        }),
{
    let transition = init_escrow_outcome(accounts, amount, rent_minimum, custodian)->Ok_0;
    lemma_encoding_is_record(transition.record);
}

/// A record is initialized once: after a successful initialization, every
/// further one on the same accounts fails, and with
/// `AccountAlreadyInitialized` where the escrow account still holds what the
/// rent account asks of it.
pub proof fn lemma_initialized_once(
    accounts: Seq<AccountView>,
    amount: u64,
    rent_minimum: Result<u64, ProgramError>,
    custodian: Option<([u8; 32], u8)>,
    next_amount: u64,
    next_rent_minimum: Result<u64, ProgramError>,
    next_custodian: Option<([u8; 32], u8)>,
)
    requires
        init_escrow_outcome(accounts, amount, rent_minimum, custodian) is Ok,
    ensures
        ({
            let transition = init_escrow_outcome(accounts, amount, rent_minimum, custodian)->Ok_0;
            let after = with_record(accounts, transition.record);
            let again = init_escrow_outcome(after, next_amount, next_rent_minimum, next_custodian);
            &&& again is Err
            &&& next_rent_minimum is Ok && after[ESCROW_ACCOUNT as int].lamports
                >= next_rent_minimum->Ok_0 ==> again == Err::<Transition, ProgramError>(
                ProgramError::AccountAlreadyInitialized,
            )
        }),
{
    lemma_success_opens_the_trade(accounts, amount, rent_minimum, custodian);
}

/// The handler of the escrow program.
pub struct Processor;

impl Processor {
    /// Handles one invocation: decodes the instruction and carries it out.
    ///
    /// An input that is no instruction fails with the escrow's
    /// `InvalidInstruction` and leaves the accounts as they were.
    pub fn process(
        program_id: &[u8; 32],
        accounts: &mut Vec<Account>,
        instruction_data: &[u8],
    ) -> (r: Result<Invocation, ProgramError>)
        ensures
            match EscrowInstruction::decode(instruction_data@) {
                Err(e) => r == Err::<Invocation, ProgramError>(e) && final(accounts).deep_view()
                    == old(accounts).deep_view(),
                Ok(EscrowInstruction::InitEscrow { amount }) => carried_out(
                    Self::init_escrow_result(old(accounts).deep_view(), amount, *program_id),
                    old(accounts).deep_view(),
                    final(accounts).deep_view(),
                    r,
                ),
            },
    {
        match EscrowInstruction::unpack(instruction_data) {
            Err(e) => Err(e),
            Ok(EscrowInstruction::InitEscrow { amount }) => Self::process_init_escrow(
                accounts,
                amount,
                program_id,
            ),
        }
    }

    /// What `InitEscrow` comes to for the program at `program_id`: the outcome
    /// of the checks, with the rent account asked about the escrow account
    /// and the custodian derived from the program's address.
    pub open spec fn init_escrow_result(
        accounts: Seq<AccountView>,
        amount: u64,
        program_id: [u8; 32],
    ) -> Result<Transition, ProgramError> {
        init_escrow_outcome(
            accounts,
            amount,
            if accounts.len() > RENT_ACCOUNT {
                exemption_minimum(
                    accounts[RENT_ACCOUNT as int],
                    accounts[ESCROW_ACCOUNT as int].data.len(),
                )
            } else {
                Err(ProgramError::NotEnoughAccountKeys)
            },
            custodian(program_id),
        )
    }

    /// Opens a trade for `amount` on behalf of the program at `program_id`.
    ///
    /// Asks the rent account what the escrow account has to hold, derives the
    /// program's custodian address, and initializes the escrow with both. An
    /// account that is not the one at `RENT_KEY` cannot stand in for the rent
    /// account.
    pub fn process_init_escrow(
        accounts: &mut Vec<Account>,
        amount: u64,
        program_id: &[u8; 32],
    ) -> (r: Result<Invocation, ProgramError>)
        ensures
            carried_out(
                Self::init_escrow_result(old(accounts).deep_view(), amount, *program_id),
                old(accounts).deep_view(),
                final(accounts).deep_view(),
                r,
            ),
            authorized(old(accounts).deep_view()) && old(accounts)@[RENT_ACCOUNT as int].key
                != RENT_KEY ==> r == Err::<Invocation, ProgramError>(ProgramError::InvalidArgument),
    {
        assert forall|i: int| 0 <= i < accounts@.len() implies #[trigger] accounts.deep_view()[i]
            == accounts@[i]@ by {}
        let rent_minimum = if accounts.len() > RENT_ACCOUNT {
            rent_exemption_minimum(&accounts[RENT_ACCOUNT], accounts[ESCROW_ACCOUNT].data.len())
        } else {
            Err(ProgramError::NotEnoughAccountKeys)
        };
        let custodian = find_custodian(program_id);
        Self::init_escrow(accounts, amount, rent_minimum, custodian)
    }

    /// Opens a trade for `amount`, given what the rent account asks of the
    /// escrow account and the program's custodian address.
    ///
    /// The checks are made in a fixed order, and the first that fails decides
    /// the failure: the initializer must have signed; the account to be paid
    /// on must belong to the token program; the escrow account must hold at
    /// least `rent_minimum`; its data must be a record that is not in use;
    /// there must be a custodian; and the last account must be the token
    /// program. Every account that a check looks at must be there.
    ///
    /// On success the record of the trade is written into the escrow account,
    /// and the request that makes the custodian the owner of the temporary
    /// token account is returned. On a failure nothing is written.
    pub fn init_escrow(
        accounts: &mut Vec<Account>,
        amount: u64,
        rent_minimum: Result<u64, ProgramError>,
        custodian: Option<([u8; 32], u8)>,
    ) -> (r: Result<Invocation, ProgramError>)
        ensures
            carried_out(
                init_escrow_outcome(old(accounts).deep_view(), amount, rent_minimum, custodian),
                old(accounts).deep_view(),
                final(accounts).deep_view(),
                r,
            ),
    {
        let ghost before = accounts.deep_view();
        assert forall|i: int| 0 <= i < accounts@.len() implies #[trigger] before[i]
            == accounts@[i]@ by {}
        if accounts.len() <= INITIALIZER {
            return Err(ProgramError::NotEnoughAccountKeys);
        }
        if !accounts[INITIALIZER].is_signer {
            return Err(ProgramError::MissingRequiredSignature);
        }
        if accounts.len() <= TOKEN_TO_RECEIVE_ACCOUNT {
            return Err(ProgramError::NotEnoughAccountKeys);
        }
        let token_program = token_program_id();
        if !same_key(&accounts[TOKEN_TO_RECEIVE_ACCOUNT].owner, &token_program) {
            return Err(ProgramError::IncorrectProgramId);
        }
        if accounts.len() <= RENT_ACCOUNT {
            return Err(ProgramError::NotEnoughAccountKeys);
        }
        let minimum = match rent_minimum {
            Ok(minimum) => minimum,
            Err(e) => {
                return Err(e);
            },
        };
        if accounts[ESCROW_ACCOUNT].lamports < minimum {
            return Err(ProgramError::from(EscrowError::NotRentExempt));
        }
        let mut escrow_info = match Escrow::unpack_unchecked(accounts[ESCROW_ACCOUNT].data.as_slice()) {
            Ok(record) => record,
            Err(e) => {
                return Err(e);
            },
        };
        if escrow_info.is_initialized() {
            return Err(ProgramError::AccountAlreadyInitialized);
        }
        escrow_info.is_initialized = true;
        escrow_info.initializer_pubkey = accounts[INITIALIZER].key;
        escrow_info.temp_token_account_pubkey = accounts[TEMP_TOKEN_ACCOUNT].key;
        escrow_info.initializer_token_to_receive_account_pubkey =
            accounts[TOKEN_TO_RECEIVE_ACCOUNT].key;
        escrow_info.expected_amount = amount;
        let pda = match custodian {
            Some((address, _bump)) => address,
            None => {
                return Err(ProgramError::InvalidSeeds);
            },
        };
        if accounts.len() <= TOKEN_PROGRAM {
            return Err(ProgramError::NotEnoughAccountKeys);
        }
        let owner_change_ix = match set_authority(
            &accounts[TOKEN_PROGRAM].key,
            &accounts[TEMP_TOKEN_ACCOUNT].key,
            &pda,
            AuthorityType::AccountOwner,
            &accounts[INITIALIZER].key,
            &accounts[INITIALIZER].key,
        ) {
            Some(instruction) => instruction,
            None => {
                return Err(ProgramError::IncorrectProgramId);
            },
        };
        if let Err(e) = Escrow::pack(escrow_info, &mut accounts[ESCROW_ACCOUNT].data) {
            return Err(e);
        }
        proof {
            assert(escrow_info == opened_record(before, amount));
            assert(accounts.deep_view() =~= with_record(before, escrow_info));
        }
        Ok(
            Invocation {
                instruction: owner_change_ix,
                accounts: [TEMP_TOKEN_ACCOUNT, INITIALIZER, TOKEN_PROGRAM],
            },
        )
    }
}

} // verus!
