use vstd::bytes::{spec_u64_from_le_bytes, u64_from_le_bytes};
use vstd::prelude::*;

use crate::account::Account;
use crate::address::Address;

verus! {

/// The address of the SPL Token program.
pub open spec fn token_program_id_bytes() -> Seq<u8> {
    seq![
        6u8, 221, 246, 225, 215, 101, 161, 147, 217, 203, 225, 70, 206, 235, 121, 172,
        28, 180, 133, 237, 95, 91, 55, 145, 58, 140, 245, 133, 126, 255, 0, 169,
    ]
}

/// The program id `pinocchio_token::ID`: the SPL Token program's address,
/// `TokenkegQfeZyiNwAJbNbGKPFXCWuBvf9Ss623VQ5DA`, whose bytes the contract
/// lists.
#[verifier::external_body]
pub(crate) fn token_program_id() -> (r: Address)
    ensures
        r@ == token_program_id_bytes(),
{
    Address(pinocchio_token::ID.to_bytes())
}

/// The length of an SPL token account's data.
pub const TOKEN_ACCOUNT_LEN: usize = 165;

/// Whether an account holds an SPL token account: its data has the token
/// account's length and the token program owns it.
pub open spec fn is_token_account(account: Account) -> bool {
    &&& account.data@.len() == TOKEN_ACCOUNT_LEN
    &&& account.owner@ == token_program_id_bytes()
}

/// The mint recorded in token account data.
pub open spec fn token_mint(data: Seq<u8>) -> Seq<u8> {
    data.subrange(0, 32)
}

/// The owner (authority) recorded in token account data.
pub open spec fn token_owner(data: Seq<u8>) -> Seq<u8> {
    data.subrange(32, 64)
}

/// The token amount recorded in token account data (little endian).
pub open spec fn token_amount(data: Seq<u8>) -> u64 {
    spec_u64_from_le_bytes(data.subrange(64, 72))
}

/// The fields of an SPL token account that the escrow reads.
#[derive(Clone, Copy, Debug, PartialEq, Eq)]
pub struct TokenAccount {
    pub mint: Address,
    pub owner: Address,
    pub amount: u64,
}

impl TokenAccount {
    /// Reads the token account that `account` holds; `None` where its data
    /// length is not that of a token account or the token program does not
    /// own it.
    pub fn from_account(account: &Account) -> (r: Option<TokenAccount>)
        ensures
            r is Some <==> is_token_account(*account),
            r matches Some(t) ==> t.mint@ == token_mint(account.data@) && t.owner@ == token_owner(
                account.data@,
            ) && t.amount == token_amount(account.data@),
    {
        if account.data.len() != TOKEN_ACCOUNT_LEN {
            return None;
        }
        let token_program = token_program_id();
        if !account.owner.equals(&token_program) {
            return None;
        }
        let data = account.data.as_slice();
        let mint = Address::read(data, 0);
        let owner = Address::read(data, 32);
        let amount = u64_from_le_bytes(&data[64..72]);
        Some(TokenAccount { mint, owner, amount })
    }
}

} // verus!
