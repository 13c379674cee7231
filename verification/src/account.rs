use vstd::prelude::*;

use crate::address::Address;
use crate::state::Escrow;

verus! {

/// What the escrow logic reads of an account handed to an instruction: its
/// address, the program that owns it, whether it signed the transaction,
/// and its data.
#[derive(Clone, Debug, PartialEq, Eq)]
pub struct Account {
    pub address: Address,
    pub owner: Address,
    pub is_signer: bool,
    pub data: Vec<u8>,
}

/// The errors an instruction returns.
#[derive(Clone, Copy, Debug, PartialEq, Eq)]
pub enum EscrowError {
    InvalidInstructionData,
    NotEnoughAccountKeys,
    MissingRequiredSignature,
    AccountAlreadyInitialized,
    InvalidSeeds,
}

/// A failed check on which an instruction aborts (the program panics).
#[derive(Clone, Copy, Debug, PartialEq, Eq)]
pub enum Violation {
    /// The instruction data is too short for the amounts of its kind.
    InstructionDataTooShort,
    /// The escrow account is not the address derived from its seeds.
    EscrowAddressMismatch,
    /// Deriving the escrow address from the stored seeds failed.
    EscrowDerivationFailed,
    /// The offered mint is not owned by the token program.
    MintXNotTokenMint,
    /// The requested mint is not owned by the token program.
    MintYNotTokenMint,
    /// The vault is not a token account of the token program.
    VaultNotTokenAccount,
    /// The vault's token owner is not the escrow account.
    VaultOwnerMismatch,
    /// The vault does not hold tokens of the offered mint.
    VaultMintMismatch,
    /// The vault is also passed as the taker's or the maker's account for
    /// the requested mint.
    VaultAliased,
    /// The maker's token account is not a token account of the mint it
    /// must hold, or (for the requested mint) the maker does not own it.
    MakerTokenAccountMismatch,
    /// The taker's account for the requested mint is not a token account
    /// of that mint.
    TakerTokenAccountMismatch,
    /// The offered mint differs from the one the escrow records.
    MintXMismatch,
    /// The requested mint differs from the one the escrow records.
    MintYMismatch,
    /// The signer is not the maker that the escrow records.
    MakerMismatch,
    /// The escrow account holds fewer bytes than its state.
    EscrowDataTooShort,
}

/// How an instruction ends when it does not succeed.
#[derive(Clone, Copy, Debug, PartialEq, Eq)]
pub enum Rejection {
    /// The instruction returns this error.
    Error(EscrowError),
    /// The instruction aborts on this failed check.
    Abort(Violation),
}

/// The seeds with which the program signs for the escrow account:
/// the escrow seed prefix, the maker's address and the bump.
#[derive(Clone, Copy, Debug, PartialEq, Eq)]
pub struct EscrowSigner {
    pub maker: Address,
    pub bump: u8,
}

/// One step of an instruction, in terms of indices into its account list.
/// Every step that is a cross-program invocation ends the instruction with
/// its error when it fails.
#[derive(Clone, Debug, PartialEq, Eq)]
pub enum Action {
    /// Create `to` through the system program, funded by `from` with the
    /// rent-exempt minimum for `space` bytes and owned by `owner`.
    CreateAccount { from: usize, to: usize, space: u64, owner: Address, signer: EscrowSigner },
    /// Write `state` as the data of `account`.
    WriteEscrow { account: usize, state: Escrow },
    /// Move `amount` tokens from `from` to `to` through the token program,
    /// authorised by `authority`, signed for the escrow when `signer` is set.
    Transfer { from: usize, to: usize, authority: usize, amount: u64, signer: Option<EscrowSigner> },
    /// Close the token account `account`, its lamports going to `destination`.
    CloseAccount { account: usize, destination: usize, authority: usize, signer: EscrowSigner },
    /// Move all lamports of `from` to `to` (see `close_lamports`).
    DrainLamports { from: usize, to: usize },
}

/// The outcome of an instruction, with its steps as a sequence.
pub open spec fn outcome_view(r: Result<Vec<Action>, Rejection>) -> Result<Seq<Action>, Rejection> {
    match r {
        Ok(v) => Ok(v@),
        Err(e) => Err(e),
    }
}

/// The lamports of the receiving and the drained account after the drained
/// account's lamports are moved to the receiver.
pub fn close_lamports(receiver: u64, drained: u64) -> (r: (u64, u64))
    requires
        receiver + drained <= u64::MAX,
    ensures
        r.0 == receiver + drained,
        r.1 == 0,
        r.0 + r.1 == receiver + drained,
{
    (receiver + drained, 0)
}

} // verus!
