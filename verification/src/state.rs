use vstd::bytes::{
    lemma_auto_spec_u64_to_from_le_bytes, spec_u64_from_le_bytes, spec_u64_to_le_bytes,
    u64_from_le_bytes, u64_to_le_bytes,
};
use vstd::prelude::*;

use crate::account::Account;
use crate::address::Address;

verus! {

/// The state an escrow account records: who made the offer, the mint offered
/// (x) and the mint wanted (y), the amount of y wanted, and the bump of the
/// escrow's address.
#[derive(Clone, Copy, Debug, PartialEq, Eq)]
pub struct Escrow {
    pub maker: Address,
    pub mint_x: Address,
    pub mint_y: Address,
    pub amount: u64,
    pub bump: u8,
}

/// An escrow state with its addresses as byte sequences.
pub struct EscrowView {
    pub maker: Seq<u8>,
    pub mint_x: Seq<u8>,
    pub mint_y: Seq<u8>,
    pub amount: u64,
    pub bump: u8,
}

impl View for Escrow {
    type V = EscrowView;

    open spec fn view(&self) -> EscrowView {
        EscrowView {
            maker: self.maker@,
            mint_x: self.mint_x@,
            mint_y: self.mint_y@,
            amount: self.amount,
            bump: self.bump,
        }
    }
}

/// The byte length of an escrow account's data.
pub const ESCROW_SIZE: usize = 32 + 32 + 32 + 8 + 1;

/// The escrow state that account data holds: three addresses, the amount
/// in little endian, then the bump.
pub open spec fn escrow_from_bytes(b: Seq<u8>) -> EscrowView {
    EscrowView {
        maker: b.subrange(0, 32),
        mint_x: b.subrange(32, 64),
        mint_y: b.subrange(64, 96),
        amount: spec_u64_from_le_bytes(b.subrange(96, 104)),
        bump: b[104],
    }
}

/// The account data that records an escrow state.
pub open spec fn escrow_to_bytes(v: EscrowView) -> Seq<u8> {
    v.maker + v.mint_x + v.mint_y + spec_u64_to_le_bytes(v.amount) + seq![v.bump]
}

/// Whether a view has addresses of 32 bytes, as every escrow state's has.
pub open spec fn escrow_view_wf(v: EscrowView) -> bool {
    &&& v.maker.len() == 32
    &&& v.mint_x.len() == 32
    &&& v.mint_y.len() == 32
}

impl Escrow {
    /// The byte length of an escrow account's data.
    pub const SIZE: usize = ESCROW_SIZE;

    /// Reads the escrow state from the first `SIZE` bytes of an account's
    /// data, without checking the data's length.
    pub fn from_account_view_unchecked(account: &Account) -> (r: Escrow)
        requires
            account.data@.len() >= ESCROW_SIZE,
        ensures
            r@ == escrow_from_bytes(account.data@),
    {
        Self::from_bytes(account.data.as_slice())
    }

    /// Reads the escrow state of an account whose data is exactly `SIZE`
    /// bytes long.
    pub fn from_account_view(account: &Account) -> (r: Escrow)
        requires
            account.data@.len() == ESCROW_SIZE,
        ensures
            r@ == escrow_from_bytes(account.data@),
    {
        Self::from_bytes(account.data.as_slice())
    }

    /// Reads an escrow state from the first `SIZE` bytes of `data`.
    pub fn from_bytes(data: &[u8]) -> (r: Escrow)
        requires
            data@.len() >= ESCROW_SIZE,
        ensures
            r@ == escrow_from_bytes(data@),
    {
        let maker = Address::read(data, 0);
        let mint_x = Address::read(data, 32);
        let mint_y = Address::read(data, 64);
        let amount = u64_from_le_bytes(&data[96..104]);
        let bump = data[104];
        Escrow { maker, mint_x, mint_y, amount, bump }
    }

    /// The account data that records this state.
    pub fn to_bytes(&self) -> (r: Vec<u8>)
        ensures
            r@ == escrow_to_bytes(self@),
            r@.len() == ESCROW_SIZE,
    {
        let mut out = self.maker.to_vec();
        let mut mint_x = self.mint_x.to_vec();
        let mut mint_y = self.mint_y.to_vec();
        let mut amount = u64_to_le_bytes(self.amount);
        out.append(&mut mint_x);
        out.append(&mut mint_y);
        out.append(&mut amount);
        out.push(self.bump);
        proof {
            lemma_auto_spec_u64_to_from_le_bytes();
        }
        out
    }
}

/// Reading an escrow state back from the data that records it gives the
/// state that was written.
pub proof fn lemma_escrow_read_after_write(v: EscrowView)
    requires
        escrow_view_wf(v),
    ensures
        escrow_to_bytes(v).len() == ESCROW_SIZE,
        escrow_from_bytes(escrow_to_bytes(v)) == v,
{
    lemma_auto_spec_u64_to_from_le_bytes();
    let b = escrow_to_bytes(v);
    assert(b.subrange(0, 32) =~= v.maker);
    assert(b.subrange(32, 64) =~= v.mint_x);
    assert(b.subrange(64, 96) =~= v.mint_y);
    assert(b.subrange(96, 104) =~= spec_u64_to_le_bytes(v.amount));
}

/// Writing the escrow state read from data of `SIZE` bytes gives those bytes
/// back.
pub proof fn lemma_escrow_write_after_read(b: Seq<u8>)
    requires
        b.len() == ESCROW_SIZE,
    ensures
        escrow_to_bytes(escrow_from_bytes(b)) == b,
{
    lemma_auto_spec_u64_to_from_le_bytes();
    let s = b.subrange(96, 104);
    assert(spec_u64_to_le_bytes(spec_u64_from_le_bytes(s)) == s);
    assert(escrow_to_bytes(escrow_from_bytes(b)) =~= b);
}

} // verus!
