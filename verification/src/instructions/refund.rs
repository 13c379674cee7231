use vstd::prelude::*;

use crate::account::{outcome_view, Account, Action, EscrowError, EscrowSigner, Rejection, Violation};
use crate::address::Address;
use crate::state::{escrow_from_bytes, Escrow, ESCROW_SIZE};
use crate::token::{is_token_account, token_amount, token_owner, TokenAccount};

verus! {

// Accounts of `refund`, by index:
// 0 maker, 1 mint_a, 2 maker_ata_a, 3 escrow, 4 vault, 5 token program,
// 6 system program.

/// The steps of a `refund`: the vault's whole balance goes back to the
/// maker's token account; the vault is closed to the maker; the escrow's
/// lamports go to the maker. The escrow signs with the seeds of the maker's
/// address and its bump.
pub open spec fn refund_steps(maker: Address, bump: u8, vault_amount: u64) -> Seq<Action> {
    let signer = EscrowSigner { maker: maker, bump: bump };
    seq![
        Action::Transfer { from: 4, to: 2, authority: 3, amount: vault_amount, signer: Some(signer) },
        Action::CloseAccount { account: 4, destination: 0, authority: 3, signer: signer },
        Action::DrainLamports { from: 3, to: 0 },
    ]
}

/// How `refund` ends.
pub open spec fn refund_outcome(accounts: Seq<Account>) -> Result<Seq<Action>, Rejection> {
    if accounts.len() < 7 {
        Err(Rejection::Error(EscrowError::NotEnoughAccountKeys))
    } else if !accounts[0].is_signer {
        Err(Rejection::Error(EscrowError::MissingRequiredSignature))
    } else if accounts[3].data@.len() < ESCROW_SIZE {
        Err(Rejection::Abort(Violation::EscrowDataTooShort))
    } else {
        let maker = accounts[0];
        let escrow = accounts[3];
        let vault = accounts[4];
        let state = escrow_from_bytes(escrow.data@);
        if state.maker != maker.address@ {
            Err(Rejection::Abort(Violation::MakerMismatch))
        } else if state.mint_x != accounts[1].address@ {
            Err(Rejection::Abort(Violation::MintXMismatch))
        } else if !is_token_account(vault) {
            Err(Rejection::Abort(Violation::VaultNotTokenAccount))
        } else if token_owner(vault.data@) != escrow.address@ {
            Err(Rejection::Abort(Violation::VaultOwnerMismatch))
        } else {
            Ok(refund_steps(maker.address, state.bump, token_amount(vault.data@)))
        }
    }
}

/// Cancels an escrow: the maker takes back the tokens locked in the vault;
/// the vault and the escrow are closed to the maker. The program id and the
/// instruction data are not read.
pub fn refund(program_id: &Address, accounts: &[Account], data: &[u8]) -> (r: Result<
    Vec<Action>,
    Rejection,
>)
    ensures
        outcome_view(r) == refund_outcome(accounts@),
{
    if accounts.len() < 7 {
        return Err(Rejection::Error(EscrowError::NotEnoughAccountKeys));
    }
    let maker = &accounts[0];
    let mint_a = &accounts[1];
    let escrow = &accounts[3];
    let vault = &accounts[4];
    if !maker.is_signer {
        return Err(Rejection::Error(EscrowError::MissingRequiredSignature));
    }
    if escrow.data.len() < Escrow::SIZE {
        return Err(Rejection::Abort(Violation::EscrowDataTooShort));
    }
    let state = Escrow::from_account_view_unchecked(escrow);
    if !state.maker.equals(&maker.address) {
        return Err(Rejection::Abort(Violation::MakerMismatch));
    }
    if !state.mint_x.equals(&mint_a.address) {
        return Err(Rejection::Abort(Violation::MintXMismatch));
    }
    let vault_state = match TokenAccount::from_account(vault) {
        None => {
            return Err(Rejection::Abort(Violation::VaultNotTokenAccount));
        },
        Some(t) => t,
    };
    if !vault_state.owner.equals(&escrow.address) {
        return Err(Rejection::Abort(Violation::VaultOwnerMismatch));
    }
    let signer = EscrowSigner { maker: maker.address, bump: state.bump };
    let mut steps: Vec<Action> = Vec::new();
    steps.push(
        Action::Transfer {
            from: 4,
            to: 2,
            authority: 3,
            amount: vault_state.amount,
            signer: Some(signer),
        },
    );
    steps.push(Action::CloseAccount { account: 4, destination: 0, authority: 3, signer });
    steps.push(Action::DrainLamports { from: 3, to: 0 });
    assert(steps@ =~= refund_steps(maker.address, state.bump, vault_state.amount));
    Ok(steps)
}

} // verus!
