use vstd::prelude::*;

use crate::address::Address;

verus! {

/// The first seed of every escrow address: the bytes of "escrow".
pub const ESCROW_SEED: [u8; 6] = [101, 115, 99, 114, 111, 119];

/// The address that `create_program_address` derives from three seeds and a
/// program id, or `None` where it reports an error.
pub uninterp spec fn derived_address(
    seed0: Seq<u8>,
    seed1: Seq<u8>,
    seed2: Seq<u8>,
    program_id: Seq<u8>,
) -> Option<Seq<u8>>;

/// An optional address by its view.
pub open spec fn address_option_view(a: Option<Address>) -> Option<Seq<u8>> {
    match a {
        Some(a) => Some(a@),
        None => None,
    }
}

/// Calls `Address::create_program_address` of `solana_address` (re-exported by
/// pinocchio as `pinocchio::Address`) on the seeds
/// `[seed0, seed1, seed2]` and `program_id`. The contract claims only that the
/// result (an address, or `None` for its error) is the one `derived_address`
/// names for these arguments: a function of them alone.
#[verifier::external_body]
fn create_program_address(seed0: &[u8], seed1: &[u8], seed2: &[u8], program_id: &Address) -> (r:
    Option<Address>)
    ensures
        address_option_view(r) == derived_address(seed0@, seed1@, seed2@, program_id@),
{
    let program = pinocchio::Address::new_from_array(program_id.0);
    match pinocchio::Address::create_program_address(&[seed0, seed1, seed2], &program) {
        Ok(address) => Some(Address(address.to_bytes())),
        Err(_) => None,
    }
}

/// The escrow address for a maker and a bump under a program, as derived
/// from the seeds `["escrow", maker, [bump]]`.
pub open spec fn escrow_address(maker: Seq<u8>, bump: u8, program_id: Seq<u8>) -> Option<Seq<u8>> {
    derived_address(ESCROW_SEED@, maker, seq![bump], program_id)
}

/// Derives the escrow address of `maker` with `bump` under `program_id`.
pub fn derive_escrow_address(maker: &Address, bump: u8, program_id: &Address) -> (r: Option<Address>)
    ensures
        address_option_view(r) == escrow_address(maker@, bump, program_id@),
{
    let seed = ESCROW_SEED;
    let bump_seed = [bump];
    let maker_bytes = maker.0;
    let r = create_program_address(seed.as_slice(), maker_bytes.as_slice(), bump_seed.as_slice(), program_id);
    assert(bump_seed@ =~= seq![bump]);
    r
}

} // verus!
