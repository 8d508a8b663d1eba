use escrow::account::{Account, AccountMeta, Instruction};
use escrow::error::ProgramError;
use escrow::pda::find_custodian;
use escrow::processor::{Invocation, Processor};
use escrow::rent::rent_exemption_minimum;
use escrow::state::Escrow;
use solana_program::account_info::AccountInfo;
use solana_program::pubkey::Pubkey;
use solana_program::rent::Rent;
use solana_program::sysvar::Sysvar;

const PROGRAM: [u8; 32] = [42u8; 32];
const INITIALIZER: [u8; 32] = [1u8; 32];
const TEMP_TOKEN: [u8; 32] = [2u8; 32];
const TO_RECEIVE: [u8; 32] = [3u8; 32];
const ESCROW: [u8; 32] = [4u8; 32];

/// What the default rent parameters ask of 105 bytes: (128 + 105) * 3480 * 2.
const MINIMUM: u64 = 1_621_680;

fn account(key: [u8; 32], owner: [u8; 32], lamports: u64, data: Vec<u8>) -> Account {
    Account {
        key,
        is_signer: false,
        is_writable: false,
        lamports,
        data,
        owner,
        executable: false,
        rent_epoch: 0,
    }
}

fn rent_data(rent: &Rent) -> Vec<u8> {
    let key = solana_program::sysvar::rent::id();
    let owner = solana_program::sysvar::id();
    let mut lamports = 1u64;
    let mut data = vec![0u8; Rent::size_of()];
    {
        let mut info =
            AccountInfo::new(&key, false, false, &mut lamports, &mut data, &owner, false, 0);
        rent.to_account_info(&mut info).unwrap();
    }
    data
}

fn rent_account(rent: &Rent) -> Account {
    account(
        solana_program::sysvar::rent::id().to_bytes(),
        solana_program::sysvar::id().to_bytes(),
        1,
        rent_data(rent),
    )
}

fn valid_accounts() -> Vec<Account> {
    let token = spl_token::id().to_bytes();
    let mut initializer = account(INITIALIZER, [0u8; 32], 10, vec![]);
    initializer.is_signer = true;
    let mut temp = account(TEMP_TOKEN, token, 10, vec![5u8; 165]);
    temp.is_writable = true;
    let to_receive = account(TO_RECEIVE, token, 10, vec![6u8; 165]);
    let mut escrow = account(ESCROW, PROGRAM, MINIMUM, vec![0u8; 105]);
    escrow.is_writable = true;
    let mut token_program = account(token, [7u8; 32], 1, vec![]);
    token_program.executable = true;
    vec![initializer, temp, to_receive, escrow, rent_account(&Rent::default()), token_program]
}

fn expected_request(custodian: &Pubkey) -> Instruction {
    let built = spl_token::instruction::set_authority(
        &spl_token::id(),
        &Pubkey::new_from_array(TEMP_TOKEN),
        Some(custodian),
        spl_token::instruction::AuthorityType::AccountOwner,
        &Pubkey::new_from_array(INITIALIZER),
        &[&Pubkey::new_from_array(INITIALIZER)],
    )
    .unwrap();
    Instruction {
        program_id: built.program_id.to_bytes(),
        accounts: built
            .accounts
            .iter()
            .map(|m| AccountMeta {
                pubkey: m.pubkey.to_bytes(),
                is_signer: m.is_signer,
                is_writable: m.is_writable,
            })
            .collect(),
        data: built.data,
    }
}

fn init(accounts: &mut Vec<Account>, amount: u64) -> Result<Invocation, ProgramError> {
    Processor::process_init_escrow(accounts, amount, &PROGRAM)
}

#[test]
fn init_escrow_end_to_end() {
    let mut accounts = valid_accounts();
    let before = accounts.clone();
    let (custodian, _bump) =
        Pubkey::find_program_address(&[b"escrow"], &Pubkey::new_from_array(PROGRAM));

    let invocation = init(&mut accounts, 500).unwrap();

    let record = Escrow::unpack_unchecked(&accounts[3].data).unwrap();
    assert!(record.is_initialized);
    assert_eq!(record.expected_amount, 500);
    assert_eq!(record.initializer_pubkey, INITIALIZER);
    assert_eq!(record.temp_token_account_pubkey, TEMP_TOKEN);
    assert_eq!(record.initializer_token_to_receive_account_pubkey, TO_RECEIVE);

    assert_eq!(invocation.instruction, expected_request(&custodian));
    assert_eq!(invocation.accounts, [1, 0, 5]);
    assert_eq!(&invocation.instruction.data[3..], &custodian.to_bytes());

    for i in [0usize, 1, 2, 4, 5] {
        assert_eq!(accounts[i], before[i]);
    }
    let mut untouched = accounts[3].clone();
    untouched.data = before[3].data.clone();
    assert_eq!(untouched, before[3]);
}

#[test]
fn init_escrow_writes_the_record_byte_for_byte() {
    let mut accounts = valid_accounts();
    init(&mut accounts, 500).unwrap();
    let mut expected = vec![1u8];
    expected.extend_from_slice(&INITIALIZER);
    expected.extend_from_slice(&TEMP_TOKEN);
    expected.extend_from_slice(&TO_RECEIVE);
    expected.extend_from_slice(&500u64.to_le_bytes());
    assert_eq!(accounts[3].data, expected);
}

#[test]
fn the_request_sets_the_account_owner() {
    let mut accounts = valid_accounts();
    let invocation = init(&mut accounts, 1).unwrap();
    let custodian = find_custodian(&PROGRAM).unwrap().0;
    let request = invocation.instruction;
    assert_eq!(request.program_id, spl_token::id().to_bytes());
    assert_eq!(
        request.accounts,
        vec![
            AccountMeta { pubkey: TEMP_TOKEN, is_signer: false, is_writable: true },
            AccountMeta { pubkey: INITIALIZER, is_signer: false, is_writable: false },
            AccountMeta { pubkey: INITIALIZER, is_signer: true, is_writable: false },
        ]
    );
    let mut data = vec![6u8, 2, 1];
    data.extend_from_slice(&custodian);
    assert_eq!(request.data, data);
}

#[test]
fn process_decodes_and_initializes() {
    let mut accounts = valid_accounts();
    let mut direct = valid_accounts();
    let data = [0u8, 244, 1, 0, 0, 0, 0, 0, 0];
    let through_process = Processor::process(&PROGRAM, &mut accounts, &data);
    let through_init = init(&mut direct, 500);
    assert!(through_process.is_ok());
    assert_eq!(through_process, through_init);
    assert_eq!(accounts, direct);
}

#[test]
fn process_rejects_what_is_no_instruction() {
    for data in [vec![], vec![1u8, 2, 3], vec![0u8], vec![0u8, 1, 2, 3, 4, 5, 6, 7]] {
        let mut accounts = valid_accounts();
        let before = accounts.clone();
        assert_eq!(
            Processor::process(&PROGRAM, &mut accounts, &data),
            Err(ProgramError::Custom(0))
        );
        assert_eq!(accounts, before);
    }
}

#[test]
fn an_unsigned_initializer_is_refused() {
    let mut accounts = valid_accounts();
    accounts[0].is_signer = false;
    let before = accounts.clone();
    assert_eq!(init(&mut accounts, 500), Err(ProgramError::MissingRequiredSignature));
    assert_eq!(accounts, before);
}

#[test]
fn an_initialized_escrow_is_not_initialized_again() {
    let mut accounts = valid_accounts();
    init(&mut accounts, 500).unwrap();
    let before = accounts.clone();
    assert_eq!(init(&mut accounts, 700), Err(ProgramError::AccountAlreadyInitialized));
    assert_eq!(accounts, before);
    assert_eq!(Escrow::unpack_unchecked(&accounts[3].data).unwrap().expected_amount, 500);
}

#[test]
fn an_underfunded_escrow_is_refused() {
    let mut accounts = valid_accounts();
    accounts[3].lamports = MINIMUM - 1;
    let before = accounts.clone();
    assert_eq!(init(&mut accounts, 500), Err(ProgramError::Custom(1)));
    assert_eq!(accounts, before);
    accounts[3].lamports = 0;
    assert_eq!(init(&mut accounts, 500), Err(ProgramError::Custom(1)));
}

#[test]
fn the_exact_minimum_is_enough() {
    let mut accounts = valid_accounts();
    accounts[3].lamports = MINIMUM;
    assert!(init(&mut accounts, 500).is_ok());
    let mut accounts = valid_accounts();
    accounts[3].lamports = u64::MAX;
    assert!(init(&mut accounts, 500).is_ok());
}

#[test]
fn the_account_to_receive_must_belong_to_the_token_program() {
    let mut accounts = valid_accounts();
    accounts[2].owner = PROGRAM;
    let before = accounts.clone();
    assert_eq!(init(&mut accounts, 500), Err(ProgramError::IncorrectProgramId));
    assert_eq!(accounts, before);
    let mut nearly = spl_token::id().to_bytes();
    nearly[31] ^= 1;
    accounts[2].owner = nearly;
    assert_eq!(init(&mut accounts, 500), Err(ProgramError::IncorrectProgramId));
}

#[test]
fn the_last_account_must_be_the_token_program() {
    let mut accounts = valid_accounts();
    accounts[5].key = PROGRAM;
    let before = accounts.clone();
    assert_eq!(init(&mut accounts, 500), Err(ProgramError::IncorrectProgramId));
    assert_eq!(accounts, before);
}

#[test]
fn missing_accounts_are_noticed() {
    for len in 0..6 {
        let mut accounts = valid_accounts();
        accounts.truncate(len);
        let before = accounts.clone();
        assert_eq!(init(&mut accounts, 500), Err(ProgramError::NotEnoughAccountKeys), "{}", len);
        assert_eq!(accounts, before);
    }
}

#[test]
fn the_first_failing_check_decides() {
    let mut accounts = valid_accounts();
    accounts.truncate(2);
    accounts[0].is_signer = false;
    assert_eq!(init(&mut accounts, 500), Err(ProgramError::MissingRequiredSignature));

    let mut accounts = valid_accounts();
    accounts.truncate(4);
    accounts[2].owner = PROGRAM;
    assert_eq!(init(&mut accounts, 500), Err(ProgramError::IncorrectProgramId));

    let mut accounts = valid_accounts();
    accounts[4].key = PROGRAM;
    accounts[3].lamports = 0;
    assert_eq!(init(&mut accounts, 500), Err(ProgramError::InvalidArgument));

    let mut accounts = valid_accounts();
    accounts[3].lamports = 0;
    accounts[3].data = vec![0u8; 10];
    assert_eq!(init(&mut accounts, 500), Err(ProgramError::Custom(1)));

    let mut accounts = valid_accounts();
    accounts[3].data[0] = 1;
    accounts.truncate(5);
    assert_eq!(init(&mut accounts, 500), Err(ProgramError::AccountAlreadyInitialized));
}

#[test]
fn escrow_data_must_be_a_record() {
    for len in [0usize, 104, 106] {
        let mut accounts = valid_accounts();
        accounts[3].data = vec![0u8; len];
        accounts[3].lamports = u64::MAX;
        let before = accounts.clone();
        assert_eq!(init(&mut accounts, 500), Err(ProgramError::InvalidAccountData));
        assert_eq!(accounts, before);
    }
    let mut accounts = valid_accounts();
    accounts[3].data[0] = 2;
    assert_eq!(init(&mut accounts, 500), Err(ProgramError::InvalidAccountData));
}

#[test]
fn the_rent_account_must_hold_rent_parameters() {
    let mut accounts = valid_accounts();
    accounts[4].key = PROGRAM;
    let before = accounts.clone();
    assert_eq!(init(&mut accounts, 500), Err(ProgramError::InvalidArgument));
    assert_eq!(accounts, before);

    let mut accounts = valid_accounts();
    accounts[4].data.truncate(16);
    assert_eq!(init(&mut accounts, 500), Err(ProgramError::InvalidArgument));
}

#[test]
fn the_minimum_follows_the_rent_parameters() {
    assert_eq!(rent_exemption_minimum(&rent_account(&Rent::default()), 105), Ok(MINIMUM));
    assert_eq!(Rent::default().minimum_balance(105), MINIMUM);
    assert_eq!(rent_exemption_minimum(&rent_account(&Rent::default()), 0), Ok(890_880));
    assert_eq!(rent_exemption_minimum(&rent_account(&Rent::free()), 105), Ok(0));
    let steep = Rent { lamports_per_byte_year: 10, exemption_threshold: 0.5, burn_percent: 0 };
    assert_eq!(rent_exemption_minimum(&rent_account(&steep), 72), Ok(1000));
    for len in [0usize, 1, 105, 165, 10_000] {
        assert_eq!(
            rent_exemption_minimum(&rent_account(&Rent::default()), len),
            Ok(Rent::default().minimum_balance(len))
        );
    }
}

#[test]
fn a_charge_beyond_64_bits_is_an_overflow() {
    let huge = Rent { lamports_per_byte_year: u64::MAX, ..Rent::default() };
    assert_eq!(
        rent_exemption_minimum(&rent_account(&huge), 105),
        Err(ProgramError::ArithmeticOverflow)
    );
    let edge = Rent { lamports_per_byte_year: u64::MAX / 233, ..Rent::default() };
    assert!(rent_exemption_minimum(&rent_account(&edge), 105).is_ok());
    let over = Rent { lamports_per_byte_year: u64::MAX / 233 + 1, ..Rent::default() };
    assert_eq!(
        rent_exemption_minimum(&rent_account(&over), 105),
        Err(ProgramError::ArithmeticOverflow)
    );
    assert_eq!(
        rent_exemption_minimum(&rent_account(&Rent::default()), usize::MAX),
        Err(ProgramError::ArithmeticOverflow)
    );

    let mut accounts = valid_accounts();
    accounts[4] = rent_account(&huge);
    let before = accounts.clone();
    assert_eq!(init(&mut accounts, 500), Err(ProgramError::ArithmeticOverflow));
    assert_eq!(accounts, before);
}

#[test]
fn the_custodian_is_derived_from_the_program_and_the_seed() {
    for program in [PROGRAM, [0u8; 32], [255u8; 32], spl_token::id().to_bytes()] {
        let (address, bump) =
            Pubkey::find_program_address(&[b"escrow"], &Pubkey::new_from_array(program));
        assert_eq!(find_custodian(&program), Some((address.to_bytes(), bump)));
        assert_ne!(address.to_bytes(), program);
        assert!(!address.is_on_curve());
    }
}

#[test]
fn the_custodian_is_the_same_every_time() {
    let first = find_custodian(&PROGRAM);
    let second = find_custodian(&PROGRAM);
    assert!(first.is_some());
    assert_eq!(first, second);
    assert_ne!(find_custodian(&[43u8; 32]), first);
}

#[test]
fn init_escrow_takes_what_it_is_told_of_rent_and_custodian() {
    let custodian = [9u8; 32];
    let mut accounts = valid_accounts();
    accounts[3].lamports = 7;
    let invocation =
        Processor::init_escrow(&mut accounts, 500, Ok(7), Some((custodian, 255))).unwrap();
    assert_eq!(invocation.instruction, expected_request(&Pubkey::new_from_array(custodian)));

    let mut accounts = valid_accounts();
    accounts[3].lamports = 7;
    assert_eq!(
        Processor::init_escrow(&mut accounts, 500, Ok(8), Some((custodian, 255))),
        Err(ProgramError::Custom(1))
    );

    let mut accounts = valid_accounts();
    assert_eq!(
        Processor::init_escrow(
            &mut accounts,
            500,
            Err(ProgramError::InvalidArgument),
            Some((custodian, 255))
        ),
        Err(ProgramError::InvalidArgument)
    );
}

#[test]
fn without_a_custodian_nothing_is_written() {
    let mut accounts = valid_accounts();
    let before = accounts.clone();
    assert_eq!(
        Processor::init_escrow(&mut accounts, 500, Ok(0), None),
        Err(ProgramError::InvalidSeeds)
    );
    assert_eq!(accounts, before);
}

#[test]
fn the_well_known_addresses_are_the_deployed_ones() {
    assert_eq!(escrow::token::TOKEN_PROGRAM_KEY, spl_token::id().to_bytes());
    assert_eq!(escrow::rent::RENT_KEY, solana_program::sysvar::rent::id().to_bytes());
    assert_eq!(&escrow::pda::CUSTODIAN_SEED, b"escrow");
    assert_eq!(escrow::rent::ACCOUNT_STORAGE_OVERHEAD, solana_program::rent::ACCOUNT_STORAGE_OVERHEAD);
}

#[test]
fn only_the_account_at_the_rent_address_gives_a_minimum() {
    let mut other = rent_account(&Rent::default());
    other.key[0] ^= 1;
    assert_eq!(rent_exemption_minimum(&other, 105), Err(ProgramError::InvalidArgument));
    let mut short = rent_account(&Rent::default());
    short.data.clear();
    assert_eq!(rent_exemption_minimum(&short, 105), Err(ProgramError::InvalidArgument));
    let mut long = rent_account(&Rent::default());
    long.data.extend_from_slice(&[1, 2, 3]);
    assert_eq!(rent_exemption_minimum(&long, 105), Ok(MINIMUM));
}
