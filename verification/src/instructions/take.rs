use vstd::prelude::*;

use crate::account::{outcome_view, Account, Action, EscrowError, EscrowSigner, Rejection, Violation};
use crate::address::Address;
use crate::pda::{address_option_view, derive_escrow_address, escrow_address};
use crate::state::{escrow_from_bytes, Escrow, ESCROW_SIZE};
use crate::token::{is_token_account, token_amount, token_mint, token_owner, TokenAccount};

verus! {

// Accounts of `take`, by index:
// 0 taker, 1 maker, 2 mint_x, 3 mint_y, 4 taker_ata_x, 5 taker_ata_y,
// 6 maker_ata_y, 7 vault, 8 escrow, 9 token program, 10 system program.

/// The steps of a `take`: the taker pays the amount the escrow asks for in
/// y to the maker; the vault's whole balance goes to the taker; the vault is
/// closed to the maker; the escrow's lamports go to the maker. The escrow
/// signs with the seeds of the maker's address and its bump.
pub open spec fn take_steps(maker: Address, wanted: u64, bump: u8, vault_amount: u64) -> Seq<Action> {
    let signer = EscrowSigner { maker: maker, bump: bump };
    seq![
        Action::Transfer { from: 5, to: 6, authority: 0, amount: wanted, signer: None },
        Action::Transfer { from: 7, to: 4, authority: 8, amount: vault_amount, signer: Some(signer) },
        Action::CloseAccount { account: 7, destination: 1, authority: 8, signer: signer },
        Action::DrainLamports { from: 8, to: 1 },
    ]
}

/// The bump that the escrow account (account 8) records, where it holds a
/// full escrow state.
pub open spec fn take_bump(accounts: Seq<Account>) -> u8 {
    escrow_from_bytes(accounts[8].data@).bump
}

/// How `take` ends, given the address derived from the maker and the
/// escrow's recorded bump (`derived`).
pub open spec fn take_outcome(accounts: Seq<Account>, derived: Option<Seq<u8>>) -> Result<
    Seq<Action>,
    Rejection,
> {
    if accounts.len() < 11 {
        Err(Rejection::Error(EscrowError::NotEnoughAccountKeys))
    } else if !accounts[0].is_signer {
        Err(Rejection::Error(EscrowError::MissingRequiredSignature))
    } else if accounts[8].data@.len() < ESCROW_SIZE {
        Err(Rejection::Abort(Violation::EscrowDataTooShort))
    } else {
        let maker = accounts[1];
        let vault = accounts[7];
        let escrow = accounts[8];
        let state = escrow_from_bytes(escrow.data@);
        if state.mint_x != accounts[2].address@ {
            Err(Rejection::Abort(Violation::MintXMismatch))
        } else if state.mint_y != accounts[3].address@ {
            Err(Rejection::Abort(Violation::MintYMismatch))
        } else if !is_token_account(vault) {
            Err(Rejection::Abort(Violation::VaultNotTokenAccount))
        } else if vault.address@ == accounts[5].address@ || vault.address@ == accounts[6].address@ {
            Err(Rejection::Abort(Violation::VaultAliased))
        } else if !is_token_account(accounts[5]) || token_mint(accounts[5].data@) != state.mint_y {
            Err(Rejection::Abort(Violation::TakerTokenAccountMismatch))
        } else if !is_token_account(accounts[6]) || token_mint(accounts[6].data@) != state.mint_y
            || token_owner(accounts[6].data@) != state.maker {
            Err(Rejection::Abort(Violation::MakerTokenAccountMismatch))
        } else {
            match derived {
                None => Err(Rejection::Abort(Violation::EscrowDerivationFailed)),
                Some(pda) => {
                    if escrow.address@ != pda {
                        Err(Rejection::Abort(Violation::EscrowAddressMismatch))
                    } else {
                        Ok(take_steps(maker.address, state.amount, state.bump, token_amount(vault.data@)))
                    }
                },
            }
        }
    }
}

/// How `take` ends: the escrow address is derived from the maker (account 1)
/// and the bump the escrow records.
pub open spec fn take_result(program_id: Address, accounts: Seq<Account>) -> Result<
    Seq<Action>,
    Rejection,
> {
    take_outcome(accounts, escrow_address(accounts[1].address@, take_bump(accounts), program_id@))
}

/// Completes a trade: the taker pays the maker what the escrow asks, from
/// a token account of the requested mint into the recorded maker's token
/// account of that mint, and receives the tokens locked in the vault; the
/// vault and the escrow are closed to the maker. The vault's balance is read
/// before any transfer; a vault that is also passed as either account of the
/// requested mint (where a balance read after the first transfer would
/// differ) is refused with `VaultAliased` rather than run. The instruction
/// data is not read.
pub fn take(program_id: &Address, accounts: &[Account], data: &[u8]) -> (r: Result<
    Vec<Action>,
    Rejection,
>)
    ensures
        outcome_view(r) == take_result(*program_id, accounts@),
{
    if accounts.len() < 11 {
        return Err(Rejection::Error(EscrowError::NotEnoughAccountKeys));
    }
    if !accounts[0].is_signer {
        return Err(Rejection::Error(EscrowError::MissingRequiredSignature));
    }
    if accounts[8].data.len() < Escrow::SIZE {
        return Err(Rejection::Abort(Violation::EscrowDataTooShort));
    }
    let state = Escrow::from_account_view_unchecked(&accounts[8]);
    let derived = derive_escrow_address(&accounts[1].address, state.bump, program_id);
    take_with_escrow_address(accounts, derived)
}

/// `take`, given the address derived from the maker and the escrow's bump.
pub fn take_with_escrow_address(accounts: &[Account], derived: Option<Address>) -> (r: Result<
    Vec<Action>,
    Rejection,
>)
    ensures
        outcome_view(r) == take_outcome(accounts@, address_option_view(derived)),
{
    if accounts.len() < 11 {
        return Err(Rejection::Error(EscrowError::NotEnoughAccountKeys));
    }
    let taker = &accounts[0];
    let maker = &accounts[1];
    let mint_x = &accounts[2];
    let mint_y = &accounts[3];
    let vault = &accounts[7];
    let escrow = &accounts[8];
    if !taker.is_signer {
        return Err(Rejection::Error(EscrowError::MissingRequiredSignature));
    }
    if escrow.data.len() < Escrow::SIZE {
        return Err(Rejection::Abort(Violation::EscrowDataTooShort));
    }
    let state = Escrow::from_account_view_unchecked(escrow);
    if !state.mint_x.equals(&mint_x.address) {
        return Err(Rejection::Abort(Violation::MintXMismatch));
    }
    if !state.mint_y.equals(&mint_y.address) {
        return Err(Rejection::Abort(Violation::MintYMismatch));
    }
    let vault_state = match TokenAccount::from_account(vault) {
        None => {
            return Err(Rejection::Abort(Violation::VaultNotTokenAccount));
        },
        Some(t) => t,
    };
    let taker_ata_y = &accounts[5];
    let maker_ata_y = &accounts[6];
    if vault.address.equals(&taker_ata_y.address) || vault.address.equals(&maker_ata_y.address) {
        return Err(Rejection::Abort(Violation::VaultAliased));
    }
    match TokenAccount::from_account(taker_ata_y) {
        None => {
            return Err(Rejection::Abort(Violation::TakerTokenAccountMismatch));
        },
        Some(t) => {
            if !t.mint.equals(&state.mint_y) {
                return Err(Rejection::Abort(Violation::TakerTokenAccountMismatch));
            }
        },
    }
    match TokenAccount::from_account(maker_ata_y) {
        None => {
            return Err(Rejection::Abort(Violation::MakerTokenAccountMismatch));
        },
        Some(t) => {
            if !t.mint.equals(&state.mint_y) || !t.owner.equals(&state.maker) {
                return Err(Rejection::Abort(Violation::MakerTokenAccountMismatch));
            }
        },
    }
    let pda = match derived {
        None => {
            return Err(Rejection::Abort(Violation::EscrowDerivationFailed));
        },
        Some(pda) => pda,
    };
    if !escrow.address.equals(&pda) {
        return Err(Rejection::Abort(Violation::EscrowAddressMismatch));
    }
    let signer = EscrowSigner { maker: maker.address, bump: state.bump };
    let mut steps: Vec<Action> = Vec::new();
    steps.push(Action::Transfer { from: 5, to: 6, authority: 0, amount: state.amount, signer: None });
    steps.push(
        Action::Transfer {
            from: 7,
            to: 4,
            authority: 8,
            amount: vault_state.amount,
            signer: Some(signer),
        },
    );
    steps.push(Action::CloseAccount { account: 7, destination: 1, authority: 8, signer });
    steps.push(Action::DrainLamports { from: 8, to: 1 });
    assert(steps@ =~= take_steps(maker.address, state.amount, state.bump, vault_state.amount));
    Ok(steps)
}

} // verus!
