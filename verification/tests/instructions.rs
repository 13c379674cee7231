use escrow::account::{close_lamports, Account, Action, EscrowError, EscrowSigner, Rejection, Violation};
use escrow::address::Address;
use escrow::instructions::make::{make, make_with_escrow_address};
use escrow::instructions::refund::refund;
use escrow::instructions::take::{take, take_with_escrow_address};
use escrow::instructions::EscrowInstruction;
use escrow::pda::derive_escrow_address;
use escrow::processor::process_instruction;
use escrow::state::Escrow;
use escrow::token::TokenAccount;

const PROGRAM: Address = Address([7u8; 32]);
const SYSTEM: Address = Address([0u8; 32]);

fn token_id() -> Address {
    Address(pinocchio_token::ID.to_bytes())
}

fn account(address: Address, owner: Address, is_signer: bool, data: Vec<u8>) -> Account {
    Account { address, owner, is_signer, data }
}

fn plain(byte: u8) -> Account {
    account(Address([byte; 32]), SYSTEM, false, Vec::new())
}

fn token_account_data(owner: &Address, amount: u64) -> Vec<u8> {
    token_data(&Address([9u8; 32]), owner, amount)
}

fn token_data(mint: &Address, owner: &Address, amount: u64) -> Vec<u8> {
    let mut data = vec![0u8; 165];
    data[0..32].copy_from_slice(&mint.0);
    data[32..64].copy_from_slice(&owner.0);
    data[64..72].copy_from_slice(&amount.to_le_bytes());
    data
}

/// The escrow address and bump of a maker under `PROGRAM`.
fn escrow_pda(maker: &Address) -> (Address, u8) {
    let program = pinocchio::Address::new_from_array(PROGRAM.0);
    let (pda, bump) = pinocchio::Address::find_program_address(&[b"escrow", &maker.0], &program);
    (Address(pda.to_bytes()), bump)
}

fn make_data(bump: u8, wanted: u64, deposit: u64) -> Vec<u8> {
    let mut data = vec![bump];
    data.extend_from_slice(&wanted.to_le_bytes());
    data.extend_from_slice(&deposit.to_le_bytes());
    data
}

const MAKER: Address = Address([1u8; 32]);
const MINT_X: Address = Address([2u8; 32]);
const MINT_Y: Address = Address([3u8; 32]);

/// Accounts of a `make` that creates the escrow.
fn make_accounts() -> (Vec<Account>, u8) {
    let (pda, bump) = escrow_pda(&MAKER);
    let accounts = vec![
        account(MAKER, SYSTEM, true, Vec::new()),
        account(MINT_X, token_id(), false, vec![0u8; 82]),
        account(MINT_Y, token_id(), false, vec![0u8; 82]),
        account(Address([4u8; 32]), token_id(), false, token_data(&MINT_X, &MAKER, 500)),
        account(Address([5u8; 32]), token_id(), false, token_data(&MINT_X, &pda, 0)),
        account(pda, SYSTEM, false, Vec::new()),
        plain(0),
        account(token_id(), SYSTEM, false, Vec::new()),
    ];
    (accounts, bump)
}

fn escrow_state(bump: u8, wanted: u64) -> Escrow {
    Escrow { maker: MAKER, mint_x: MINT_X, mint_y: MINT_Y, amount: wanted, bump }
}

/// Accounts of a `take` on an escrow asking for `wanted` of y, with
/// `in_vault` of x locked.
fn take_accounts(wanted: u64, in_vault: u64) -> (Vec<Account>, u8) {
    let (pda, bump) = escrow_pda(&MAKER);
    let accounts = vec![
        account(Address([20u8; 32]), SYSTEM, true, Vec::new()),
        account(MAKER, SYSTEM, false, Vec::new()),
        account(MINT_X, token_id(), false, vec![0u8; 82]),
        account(MINT_Y, token_id(), false, vec![0u8; 82]),
        account(Address([21u8; 32]), token_id(), false, token_data(&MINT_X, &Address([20u8; 32]), 0)),
        account(Address([22u8; 32]), token_id(), false, token_data(&MINT_Y, &Address([20u8; 32]), 900)),
        account(Address([23u8; 32]), token_id(), false, token_data(&MINT_Y, &MAKER, 0)),
        account(Address([5u8; 32]), token_id(), false, token_data(&MINT_X, &pda, in_vault)),
        account(pda, PROGRAM, false, escrow_state(bump, wanted).to_bytes()),
        account(token_id(), SYSTEM, false, Vec::new()),
        plain(0),
    ];
    (accounts, bump)
}

/// Accounts of a `refund` of an escrow with `in_vault` of x locked.
fn refund_accounts(in_vault: u64) -> (Vec<Account>, u8) {
    let (pda, bump) = escrow_pda(&MAKER);
    let accounts = vec![
        account(MAKER, SYSTEM, true, Vec::new()),
        account(MINT_X, token_id(), false, vec![0u8; 82]),
        account(Address([4u8; 32]), token_id(), false, token_data(&MINT_X, &MAKER, 0)),
        account(pda, PROGRAM, false, escrow_state(bump, 300).to_bytes()),
        account(Address([5u8; 32]), token_id(), false, token_data(&MINT_X, &pda, in_vault)),
        account(token_id(), SYSTEM, false, Vec::new()),
        plain(0),
    ];
    (accounts, bump)
}

#[test]
fn unpack_empty_is_invalid() {
    assert_eq!(EscrowInstruction::unpack(&[]), Err(EscrowError::InvalidInstructionData));
}

#[test]
fn unpack_unknown_tag_is_invalid() {
    assert_eq!(EscrowInstruction::unpack(&[3, 1, 2, 3]), Err(EscrowError::InvalidInstructionData));
    assert_eq!(EscrowInstruction::unpack(&[255]), Err(EscrowError::InvalidInstructionData));
}

#[test]
fn unpack_make_reads_two_little_endian_amounts() {
    let mut data = vec![0u8];
    data.extend_from_slice(&0x0102030405060708u64.to_le_bytes());
    data.extend_from_slice(&42u64.to_le_bytes());
    data.push(99);
    assert_eq!(
        EscrowInstruction::unpack(&data),
        Ok(EscrowInstruction::Make { amount_a: 0x0102030405060708, amount_b: 42 })
    );
}

#[test]
fn unpack_take() {
    let mut data = vec![1u8];
    data.extend_from_slice(&u64::MAX.to_le_bytes());
    data.extend_from_slice(&0u64.to_le_bytes());
    assert_eq!(
        EscrowInstruction::unpack(&data),
        Ok(EscrowInstruction::Take { amount_a: u64::MAX, amount_b: 0 })
    );
}

#[test]
fn escrow_bytes_layout_and_read_back() {
    let state = Escrow { maker: MAKER, mint_x: MINT_X, mint_y: MINT_Y, amount: 0x1122334455667788, bump: 254 };
    let bytes = state.to_bytes();
    assert_eq!(bytes.len(), Escrow::SIZE);
    assert_eq!(Escrow::SIZE, 105);
    assert_eq!(&bytes[0..32], &[1u8; 32]);
    assert_eq!(&bytes[32..64], &[2u8; 32]);
    assert_eq!(&bytes[64..96], &[3u8; 32]);
    assert_eq!(&bytes[96..104], &[0x88, 0x77, 0x66, 0x55, 0x44, 0x33, 0x22, 0x11]);
    assert_eq!(bytes[104], 254);
    let acc = account(Address([8u8; 32]), PROGRAM, false, bytes);
    assert_eq!(Escrow::from_account_view(&acc), state);
    assert_eq!(Escrow::from_account_view_unchecked(&acc), state);
}

#[test]
fn escrow_read_ignores_bytes_past_the_state() {
    let state = escrow_state(3, 77);
    let mut bytes = state.to_bytes();
    bytes.extend_from_slice(&[0xff; 7]);
    let acc = account(Address([8u8; 32]), PROGRAM, false, bytes);
    assert_eq!(Escrow::from_account_view_unchecked(&acc), state);
}

#[test]
fn token_program_id_is_tokenkeg() {
    let mut tokenkeg = [0u8; 32];
    tokenkeg.copy_from_slice(&[
        6, 221, 246, 225, 215, 101, 161, 147, 217, 203, 225, 70, 206, 235, 121, 172, 28, 180, 133,
        237, 95, 91, 55, 145, 58, 140, 245, 133, 126, 255, 0, 169,
    ]);
    let owner = Address([44u8; 32]);
    let held = account(Address([5u8; 32]), Address(tokenkeg), false, token_account_data(&owner, 1));
    assert_eq!(
        TokenAccount::from_account(&held),
        Some(TokenAccount { mint: Address([9u8; 32]), owner, amount: 1 })
    );
    let mut other = tokenkeg;
    other[31] = 170;
    let not_held = account(Address([5u8; 32]), Address(other), false, token_account_data(&owner, 1));
    assert_eq!(TokenAccount::from_account(&not_held), None);
}

#[test]
fn token_account_reads_owner_and_amount() {
    let owner = Address([44u8; 32]);
    let acc = account(Address([5u8; 32]), token_id(), false, token_account_data(&owner, 123456789));
    assert_eq!(
        TokenAccount::from_account(&acc),
        Some(TokenAccount { mint: Address([9u8; 32]), owner, amount: 123456789 })
    );
}

#[test]
fn token_account_rejects_wrong_length_or_owner() {
    let owner = Address([44u8; 32]);
    let mut data = token_account_data(&owner, 1);
    data.push(0);
    let long = account(Address([5u8; 32]), token_id(), false, data);
    assert_eq!(TokenAccount::from_account(&long), None);
    let foreign = account(Address([5u8; 32]), SYSTEM, false, token_account_data(&owner, 1));
    assert_eq!(TokenAccount::from_account(&foreign), None);
}

#[test]
fn derived_escrow_address_matches_create_program_address() {
    let (pda, bump) = escrow_pda(&MAKER);
    assert_eq!(derive_escrow_address(&MAKER, bump, &PROGRAM), Some(pda));
    assert_ne!(pda, MAKER);
    assert_ne!(pda, PROGRAM);
    let program = pinocchio::Address::new_from_array(PROGRAM.0);
    for other in 0..=255u8 {
        let expected = pinocchio::Address::create_program_address(&[b"escrow", &MAKER.0, &[other]], &program)
            .ok()
            .map(|a| Address(a.to_bytes()));
        assert_eq!(derive_escrow_address(&MAKER, other, &PROGRAM), expected);
    }
}

#[test]
fn close_lamports_moves_everything() {
    assert_eq!(close_lamports(1_000, 2_039_280), (2_040_280, 0));
    assert_eq!(close_lamports(0, 0), (0, 0));
}

#[test]
fn make_creates_records_and_deposits() {
    let (accounts, bump) = make_accounts();
    let data = make_data(bump, 300, 500);
    let signer = EscrowSigner { maker: MAKER, bump };
    let expected = vec![
        Action::CreateAccount { from: 0, to: 5, space: 105, owner: PROGRAM, signer },
        Action::WriteEscrow { account: 5, state: escrow_state(bump, 300) },
        Action::Transfer { from: 3, to: 4, authority: 0, amount: 500, signer: None },
    ];
    assert_eq!(make(&PROGRAM, &accounts, &data), Ok(expected));
}

#[test]
fn make_needs_eight_accounts() {
    let (accounts, bump) = make_accounts();
    let data = make_data(bump, 300, 500);
    assert_eq!(
        make(&PROGRAM, &accounts[..7], &data),
        Err(Rejection::Error(EscrowError::NotEnoughAccountKeys))
    );
}

#[test]
fn make_needs_seventeen_data_bytes() {
    let (accounts, bump) = make_accounts();
    let data = make_data(bump, 300, 500);
    assert_eq!(
        make(&PROGRAM, &accounts, &data[..16]),
        Err(Rejection::Error(EscrowError::InvalidInstructionData))
    );
}

#[test]
fn make_rejects_failed_derivation() {
    let (accounts, bump) = make_accounts();
    let data = make_data(bump, 300, 500);
    assert_eq!(
        make_with_escrow_address(&PROGRAM, &accounts, &data, None),
        Err(Rejection::Error(EscrowError::InvalidSeeds))
    );
}

#[test]
fn make_aborts_on_wrong_escrow_address() {
    let (accounts, bump) = make_accounts();
    let data = make_data(bump.wrapping_sub(1), 300, 500);
    let derived = derive_escrow_address(&MAKER, bump.wrapping_sub(1), &PROGRAM);
    let expected = match derived {
        None => Err(Rejection::Error(EscrowError::InvalidSeeds)),
        Some(_) => Err(Rejection::Abort(Violation::EscrowAddressMismatch)),
    };
    assert_eq!(make(&PROGRAM, &accounts, &data), expected);
    assert_eq!(
        make_with_escrow_address(&PROGRAM, &accounts, &data, Some(Address([99u8; 32]))),
        Err(Rejection::Abort(Violation::EscrowAddressMismatch))
    );
}

#[test]
fn make_refuses_an_existing_escrow() {
    let (mut accounts, bump) = make_accounts();
    accounts[5].data = escrow_state(bump, 1).to_bytes();
    accounts[1].owner = SYSTEM;
    let data = make_data(bump, 300, 500);
    assert_eq!(
        make(&PROGRAM, &accounts, &data),
        Err(Rejection::Error(EscrowError::AccountAlreadyInitialized))
    );
}

#[test]
fn make_requires_the_maker_to_sign() {
    let (mut accounts, bump) = make_accounts();
    accounts[0].is_signer = false;
    let data = make_data(bump, 300, 500);
    assert_eq!(
        make(&PROGRAM, &accounts, &data),
        Err(Rejection::Error(EscrowError::MissingRequiredSignature))
    );
    assert_eq!(
        make(&PROGRAM, &accounts, &data[..3]),
        Err(Rejection::Error(EscrowError::InvalidInstructionData))
    );
}

#[test]
fn make_aborts_on_token_accounts_of_another_mint() {
    let (accounts, bump) = make_accounts();
    let data = make_data(bump, 300, 500);
    let pda = accounts[5].address;
    let mut vault_y = accounts.clone();
    vault_y[4].data = token_data(&MINT_Y, &pda, 0);
    assert_eq!(make(&PROGRAM, &vault_y, &data), Err(Rejection::Abort(Violation::VaultMintMismatch)));
    let mut maker_y = accounts.clone();
    maker_y[3].data = token_data(&MINT_Y, &MAKER, 500);
    assert_eq!(
        make(&PROGRAM, &maker_y, &data),
        Err(Rejection::Abort(Violation::MakerTokenAccountMismatch))
    );
    let mut maker_not_token = accounts.clone();
    maker_not_token[3].owner = SYSTEM;
    assert_eq!(
        make(&PROGRAM, &maker_not_token, &data),
        Err(Rejection::Abort(Violation::MakerTokenAccountMismatch))
    );
}

#[test]
fn make_aborts_on_mints_outside_the_token_program() {
    let (mut accounts, bump) = make_accounts();
    let data = make_data(bump, 300, 500);
    accounts[2].owner = SYSTEM;
    assert_eq!(make(&PROGRAM, &accounts, &data), Err(Rejection::Abort(Violation::MintYNotTokenMint)));
    accounts[1].owner = SYSTEM;
    assert_eq!(make(&PROGRAM, &accounts, &data), Err(Rejection::Abort(Violation::MintXNotTokenMint)));
}

#[test]
fn make_aborts_on_a_bad_vault() {
    let (mut accounts, bump) = make_accounts();
    let data = make_data(bump, 300, 500);
    accounts[4].data = token_data(&MINT_X, &MAKER, 0);
    assert_eq!(make(&PROGRAM, &accounts, &data), Err(Rejection::Abort(Violation::VaultOwnerMismatch)));
    accounts[4].data.pop();
    assert_eq!(make(&PROGRAM, &accounts, &data), Err(Rejection::Abort(Violation::VaultNotTokenAccount)));
}

#[test]
fn make_rejects_an_escrow_the_program_owns() {
    let (mut accounts, bump) = make_accounts();
    let data = make_data(bump, 300, 500);
    accounts[5].owner = PROGRAM;
    assert_eq!(
        make(&PROGRAM, &accounts, &data),
        Err(Rejection::Error(EscrowError::AccountAlreadyInitialized))
    );
    accounts[1].owner = SYSTEM;
    assert_eq!(make(&PROGRAM, &accounts, &data), Err(Rejection::Abort(Violation::MintXNotTokenMint)));
}

#[test]
fn take_swaps_and_closes() {
    let (accounts, bump) = take_accounts(300, 500);
    let signer = EscrowSigner { maker: MAKER, bump };
    let expected = vec![
        Action::Transfer { from: 5, to: 6, authority: 0, amount: 300, signer: None },
        Action::Transfer { from: 7, to: 4, authority: 8, amount: 500, signer: Some(signer) },
        Action::CloseAccount { account: 7, destination: 1, authority: 8, signer },
        Action::DrainLamports { from: 8, to: 1 },
    ];
    assert_eq!(take(&PROGRAM, &accounts, &[]), Ok(expected));
}

#[test]
fn take_pays_what_make_recorded() {
    let (make_accs, bump) = make_accounts();
    let steps = make(&PROGRAM, &make_accs, &make_data(bump, 4321, 10)).unwrap();
    let state = match &steps[1] {
        Action::WriteEscrow { state, .. } => *state,
        other => panic!("unexpected step {:?}", other),
    };
    let (mut accounts, _) = take_accounts(0, 10);
    accounts[8].data = state.to_bytes();
    let taken = take(&PROGRAM, &accounts, &[]).unwrap();
    assert_eq!(taken[0], Action::Transfer { from: 5, to: 6, authority: 0, amount: 4321, signer: None });
}

#[test]
fn take_errors() {
    let (accounts, _) = take_accounts(300, 500);
    assert_eq!(
        take(&PROGRAM, &accounts[..10], &[]),
        Err(Rejection::Error(EscrowError::NotEnoughAccountKeys))
    );
    let mut unsigned = accounts.clone();
    unsigned[0].is_signer = false;
    assert_eq!(
        take(&PROGRAM, &unsigned, &[]),
        Err(Rejection::Error(EscrowError::MissingRequiredSignature))
    );
}

#[test]
fn take_aborts_on_failed_checks() {
    let (accounts, _) = take_accounts(300, 500);
    let mut short = accounts.clone();
    short[8].data.truncate(104);
    assert_eq!(take(&PROGRAM, &short, &[]), Err(Rejection::Abort(Violation::EscrowDataTooShort)));
    let mut wrong_x = accounts.clone();
    wrong_x[2].address = MINT_Y;
    assert_eq!(take(&PROGRAM, &wrong_x, &[]), Err(Rejection::Abort(Violation::MintXMismatch)));
    let mut wrong_y = accounts.clone();
    wrong_y[3].address = MINT_X;
    assert_eq!(take(&PROGRAM, &wrong_y, &[]), Err(Rejection::Abort(Violation::MintYMismatch)));
    let mut bad_vault = accounts.clone();
    bad_vault[7].owner = SYSTEM;
    assert_eq!(take(&PROGRAM, &bad_vault, &[]), Err(Rejection::Abort(Violation::VaultNotTokenAccount)));
    let mut other_maker = accounts.clone();
    other_maker[1].address = Address([30u8; 32]);
    let derived = derive_escrow_address(&Address([30u8; 32]), escrow_pda(&MAKER).1, &PROGRAM);
    let expected = match derived {
        None => Err(Rejection::Abort(Violation::EscrowDerivationFailed)),
        Some(_) => Err(Rejection::Abort(Violation::EscrowAddressMismatch)),
    };
    assert_eq!(take(&PROGRAM, &other_maker, &[]), expected);
    assert_eq!(
        take_with_escrow_address(&accounts, None),
        Err(Rejection::Abort(Violation::EscrowDerivationFailed))
    );
}

#[test]
fn take_checks_where_token_y_goes() {
    let (accounts, _) = take_accounts(300, 500);
    let mut to_taker = accounts.clone();
    to_taker[6].data = token_data(&MINT_Y, &Address([20u8; 32]), 0);
    assert_eq!(
        take(&PROGRAM, &to_taker, &[]),
        Err(Rejection::Abort(Violation::MakerTokenAccountMismatch))
    );
    let mut maker_x = accounts.clone();
    maker_x[6].data = token_data(&MINT_X, &MAKER, 0);
    assert_eq!(
        take(&PROGRAM, &maker_x, &[]),
        Err(Rejection::Abort(Violation::MakerTokenAccountMismatch))
    );
    let mut taker_x = accounts.clone();
    taker_x[5].data = token_data(&MINT_X, &Address([20u8; 32]), 900);
    assert_eq!(
        take(&PROGRAM, &taker_x, &[]),
        Err(Rejection::Abort(Violation::TakerTokenAccountMismatch))
    );
}

#[test]
fn take_refuses_the_vault_as_an_account_of_mint_y() {
    let (accounts, _) = take_accounts(300, 500);
    let mut aliased = accounts.clone();
    aliased[5] = aliased[7].clone();
    assert_eq!(take(&PROGRAM, &aliased, &[]), Err(Rejection::Abort(Violation::VaultAliased)));
    let mut aliased_maker = accounts.clone();
    aliased_maker[6] = aliased_maker[7].clone();
    assert_eq!(take(&PROGRAM, &aliased_maker, &[]), Err(Rejection::Abort(Violation::VaultAliased)));
}

#[test]
fn refund_after_make_returns_the_deposit_account_balance() {
    let (make_accs, bump) = make_accounts();
    let steps = make(&PROGRAM, &make_accs, &make_data(bump, 4321, 10)).unwrap();
    let state = match &steps[1] {
        Action::WriteEscrow { state, .. } => *state,
        other => panic!("unexpected step {:?}", other),
    };
    let (mut accounts, _) = refund_accounts(10);
    accounts[3].data = state.to_bytes();
    let signer = EscrowSigner { maker: MAKER, bump };
    assert_eq!(
        refund(&PROGRAM, &accounts, &[]),
        Ok(vec![
            Action::Transfer { from: 4, to: 2, authority: 3, amount: 10, signer: Some(signer) },
            Action::CloseAccount { account: 4, destination: 0, authority: 3, signer },
            Action::DrainLamports { from: 3, to: 0 },
        ])
    );
}

#[test]
fn refund_returns_the_vault() {
    let (accounts, bump) = refund_accounts(500);
    let signer = EscrowSigner { maker: MAKER, bump };
    let expected = vec![
        Action::Transfer { from: 4, to: 2, authority: 3, amount: 500, signer: Some(signer) },
        Action::CloseAccount { account: 4, destination: 0, authority: 3, signer },
        Action::DrainLamports { from: 3, to: 0 },
    ];
    assert_eq!(refund(&PROGRAM, &accounts, &[]), Ok(expected));
}

#[test]
fn refund_errors() {
    let (accounts, _) = refund_accounts(500);
    assert_eq!(
        refund(&PROGRAM, &accounts[..6], &[]),
        Err(Rejection::Error(EscrowError::NotEnoughAccountKeys))
    );
    let mut unsigned = accounts.clone();
    unsigned[0].is_signer = false;
    assert_eq!(
        refund(&PROGRAM, &unsigned, &[]),
        Err(Rejection::Error(EscrowError::MissingRequiredSignature))
    );
}

#[test]
fn refund_aborts_on_failed_checks() {
    let (accounts, _) = refund_accounts(500);
    let mut short = accounts.clone();
    short[3].data.clear();
    assert_eq!(refund(&PROGRAM, &short, &[]), Err(Rejection::Abort(Violation::EscrowDataTooShort)));
    let mut stranger = accounts.clone();
    stranger[0].address = Address([31u8; 32]);
    assert_eq!(refund(&PROGRAM, &stranger, &[]), Err(Rejection::Abort(Violation::MakerMismatch)));
    let mut wrong_mint = accounts.clone();
    wrong_mint[1].address = MINT_Y;
    assert_eq!(refund(&PROGRAM, &wrong_mint, &[]), Err(Rejection::Abort(Violation::MintXMismatch)));
    let mut bad_vault = accounts.clone();
    bad_vault[4].data.truncate(100);
    assert_eq!(refund(&PROGRAM, &bad_vault, &[]), Err(Rejection::Abort(Violation::VaultNotTokenAccount)));
    let mut foreign_vault = accounts.clone();
    foreign_vault[4].data = token_data(&MINT_X, &MAKER, 500);
    assert_eq!(refund(&PROGRAM, &foreign_vault, &[]), Err(Rejection::Abort(Violation::VaultOwnerMismatch)));
}

#[test]
fn process_dispatches_make_with_the_data_after_the_tag() {
    let (accounts, bump) = make_accounts();
    let mut data = vec![0u8];
    data.extend_from_slice(&make_data(bump, 300, 500));
    assert_eq!(
        process_instruction(&PROGRAM, &accounts, &data),
        make(&PROGRAM, &accounts, &data[1..])
    );
    assert!(process_instruction(&PROGRAM, &accounts, &data).unwrap().len() == 3);
}

#[test]
fn process_dispatches_take() {
    let (accounts, _) = take_accounts(300, 500);
    let mut data = vec![1u8];
    data.extend_from_slice(&[0u8; 16]);
    assert_eq!(process_instruction(&PROGRAM, &accounts, &data), take(&PROGRAM, &accounts, &[]));
}

#[test]
fn process_dispatches_refund() {
    let (accounts, _) = refund_accounts(500);
    assert_eq!(process_instruction(&PROGRAM, &accounts, &[2]), refund(&PROGRAM, &accounts, &[]));
    assert_eq!(process_instruction(&PROGRAM, &accounts, &[2]).unwrap().len(), 3);
    assert_eq!(EscrowInstruction::unpack(&[2]), Ok(EscrowInstruction::Refund));
}

#[test]
fn process_rejects_bad_data() {
    let (accounts, _) = take_accounts(300, 500);
    assert_eq!(
        process_instruction(&PROGRAM, &accounts, &[]),
        Err(Rejection::Error(EscrowError::InvalidInstructionData))
    );
    assert_eq!(
        process_instruction(&PROGRAM, &accounts, &[3; 20]),
        Err(Rejection::Error(EscrowError::InvalidInstructionData))
    );
    assert_eq!(
        process_instruction(&PROGRAM, &accounts, &[1; 16]),
        Err(Rejection::Abort(Violation::InstructionDataTooShort))
    );
}
