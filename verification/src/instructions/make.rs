use vstd::prelude::*;

use crate::account::{outcome_view, Account, Action, EscrowError, EscrowSigner, Rejection, Violation};
use crate::address::Address;
use crate::instructions::le_u64_at;
use crate::pda::{address_option_view, derive_escrow_address, escrow_address};
use crate::state::{Escrow, ESCROW_SIZE};
use crate::token::{
    is_token_account, token_mint, token_owner, token_program_id, token_program_id_bytes,
    TokenAccount,
};

verus! {

// Accounts of `make`, by index:
// 0 maker, 1 mint_x, 2 mint_y, 3 maker_ata, 4 vault, 5 escrow,
// 6 system program, 7 token program.
//
// Data: the bump (1 byte), the amount of y wanted (8 bytes, little
// endian), the amount of x deposited (8 bytes, little endian).

/// The steps of a `make` that creates the escrow: create the escrow account
/// (signed for with its seeds), record the trade, and move the deposit from
/// the maker's token account into the vault.
pub open spec fn make_steps(
    program_id: Address,
    maker: Address,
    mint_x: Address,
    mint_y: Address,
    data: Seq<u8>,
) -> Seq<Action> {
    let signer = EscrowSigner { maker: maker, bump: data[0] };
    let state = Escrow {
        maker: maker,
        mint_x: mint_x,
        mint_y: mint_y,
        amount: le_u64_at(data, 1),
        bump: data[0],
    };
    seq![
        Action::CreateAccount {
            from: 0,
            to: 5,
            space: ESCROW_SIZE as u64,
            owner: program_id,
            signer: signer,
        },
        Action::WriteEscrow { account: 5, state: state },
        Action::Transfer { from: 3, to: 4, authority: 0, amount: le_u64_at(data, 9), signer: None },
    ]
}

/// How `make` ends, given the address derived from the maker and the bump
/// (`derived`).
pub open spec fn make_outcome(
    program_id: Address,
    accounts: Seq<Account>,
    data: Seq<u8>,
    derived: Option<Seq<u8>>,
) -> Result<Seq<Action>, Rejection> {
    if accounts.len() < 8 {
        Err(Rejection::Error(EscrowError::NotEnoughAccountKeys))
    } else if data.len() < 17 {
        Err(Rejection::Error(EscrowError::InvalidInstructionData))
    } else if !accounts[0].is_signer {
        Err(Rejection::Error(EscrowError::MissingRequiredSignature))
    } else {
        let maker = accounts[0];
        let mint_x = accounts[1];
        let mint_y = accounts[2];
        let maker_ata = accounts[3];
        let vault = accounts[4];
        let escrow = accounts[5];
        match derived {
            None => Err(Rejection::Error(EscrowError::InvalidSeeds)),
            Some(pda) => {
                if pda != escrow.address@ {
                    Err(Rejection::Abort(Violation::EscrowAddressMismatch))
                } else if escrow.data@.len() != 0 {
                    Err(Rejection::Error(EscrowError::AccountAlreadyInitialized))
                } else if mint_x.owner@ != token_program_id_bytes() {
                    Err(Rejection::Abort(Violation::MintXNotTokenMint))
                } else if mint_y.owner@ != token_program_id_bytes() {
                    Err(Rejection::Abort(Violation::MintYNotTokenMint))
                } else if !is_token_account(vault) {
                    Err(Rejection::Abort(Violation::VaultNotTokenAccount))
                } else if token_owner(vault.data@) != escrow.address@ {
                    Err(Rejection::Abort(Violation::VaultOwnerMismatch))
                } else if token_mint(vault.data@) != mint_x.address@ {
                    Err(Rejection::Abort(Violation::VaultMintMismatch))
                } else if !is_token_account(maker_ata) || token_mint(maker_ata.data@)
                    != mint_x.address@ {
                    Err(Rejection::Abort(Violation::MakerTokenAccountMismatch))
                } else if escrow.owner@ == program_id@ {
                    Err(Rejection::Error(EscrowError::AccountAlreadyInitialized))
                } else {
                    Ok(make_steps(program_id, maker.address, mint_x.address, mint_y.address, data))
                }
            },
        }
    }
}

/// How `make` ends: the escrow address is derived from the maker (account 0)
/// and the bump (the first data byte).
pub open spec fn make_result(program_id: Address, accounts: Seq<Account>, data: Seq<u8>) -> Result<
    Seq<Action>,
    Rejection,
> {
    make_outcome(
        program_id,
        accounts,
        data,
        escrow_address(accounts[0].address@, data[0], program_id@),
    )
}

/// Opens an escrow: the maker offers tokens of mint x for an amount of mint
/// y. An escrow account that already holds data is refused with
/// `AccountAlreadyInitialized` before the mint and vault checks; one that
/// the program already owns, after them.
pub fn make(program_id: &Address, accounts: &[Account], data: &[u8]) -> (r: Result<
    Vec<Action>,
    Rejection,
>)
    ensures
        outcome_view(r) == make_result(*program_id, accounts@, data@),
{
    if accounts.len() < 8 {
        return Err(Rejection::Error(EscrowError::NotEnoughAccountKeys));
    }
    if data.len() < 17 {
        return Err(Rejection::Error(EscrowError::InvalidInstructionData));
    }
    if !accounts[0].is_signer {
        return Err(Rejection::Error(EscrowError::MissingRequiredSignature));
    }
    let derived = derive_escrow_address(&accounts[0].address, data[0], program_id);
    make_with_escrow_address(program_id, accounts, data, derived)
}

/// `make`, given the address derived from the maker and the bump.
pub fn make_with_escrow_address(
    program_id: &Address,
    accounts: &[Account],
    data: &[u8],
    derived: Option<Address>,
) -> (r: Result<Vec<Action>, Rejection>)
    ensures
        outcome_view(r) == make_outcome(*program_id, accounts@, data@, address_option_view(derived)),
{
    if accounts.len() < 8 {
        return Err(Rejection::Error(EscrowError::NotEnoughAccountKeys));
    }
    let maker = &accounts[0];
    let mint_x = &accounts[1];
    let mint_y = &accounts[2];
    let maker_ata = &accounts[3];
    let vault = &accounts[4];
    let escrow = &accounts[5];
    if data.len() < 17 {
        return Err(Rejection::Error(EscrowError::InvalidInstructionData));
    }
    if !maker.is_signer {
        return Err(Rejection::Error(EscrowError::MissingRequiredSignature));
    }
    let pda = match derived {
        None => {
            return Err(Rejection::Error(EscrowError::InvalidSeeds));
        },
        Some(pda) => pda,
    };
    if !pda.equals(&escrow.address) {
        return Err(Rejection::Abort(Violation::EscrowAddressMismatch));
    }
    if escrow.data.len() != 0 {
        return Err(Rejection::Error(EscrowError::AccountAlreadyInitialized));
    }
    let token_program = token_program_id();
    if !mint_x.owner.equals(&token_program) {
        return Err(Rejection::Abort(Violation::MintXNotTokenMint));
    }
    if !mint_y.owner.equals(&token_program) {
        return Err(Rejection::Abort(Violation::MintYNotTokenMint));
    }
    let vault_state = match TokenAccount::from_account(vault) {
        None => {
            return Err(Rejection::Abort(Violation::VaultNotTokenAccount));
        },
        Some(t) => t,
    };
    if !vault_state.owner.equals(&escrow.address) {
        return Err(Rejection::Abort(Violation::VaultOwnerMismatch));
    }
    if !vault_state.mint.equals(&mint_x.address) {
        return Err(Rejection::Abort(Violation::VaultMintMismatch));
    }
    match TokenAccount::from_account(maker_ata) {
        None => {
            return Err(Rejection::Abort(Violation::MakerTokenAccountMismatch));
        },
        Some(t) => {
            if !t.mint.equals(&mint_x.address) {
                return Err(Rejection::Abort(Violation::MakerTokenAccountMismatch));
            }
        },
    }
    if escrow.owner.equals(program_id) {
        return Err(Rejection::Error(EscrowError::AccountAlreadyInitialized));
    }
    let bump = data[0];
    let wanted = vstd::bytes::u64_from_le_bytes(&data[1..9]);
    let deposit = vstd::bytes::u64_from_le_bytes(&data[9..17]);
    let signer = EscrowSigner { maker: maker.address, bump };
    let state = Escrow {
        maker: maker.address,
        mint_x: mint_x.address,
        mint_y: mint_y.address,
        amount: wanted,
        bump,
    };
    let mut steps: Vec<Action> = Vec::new();
    steps.push(
        Action::CreateAccount {
            from: 0,
            to: 5,
            space: ESCROW_SIZE as u64,
            owner: *program_id,
            signer,
        },
    );
    steps.push(Action::WriteEscrow { account: 5, state });
    steps.push(Action::Transfer { from: 3, to: 4, authority: 0, amount: deposit, signer: None });
    assert(steps@ =~= make_steps(*program_id, maker.address, mint_x.address, mint_y.address, data@));
    Ok(steps)
}

} // verus!
