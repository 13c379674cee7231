use vstd::bytes::{lemma_auto_spec_u64_to_from_le_bytes, spec_u64_from_le_bytes, spec_u64_to_le_bytes};
use vstd::prelude::*;

use crate::account::{Account, Action, EscrowError, EscrowSigner, Rejection};
use crate::pda::derived_address;
use crate::instructions::{le_u64_at, spec_unpack, EscrowInstruction};
use crate::instructions::make::{make_outcome, make_result};
use crate::instructions::refund::refund_outcome;
use crate::processor::process_outcome;
use crate::instructions::take::{take_outcome, take_result};
use crate::address::Address;
use crate::state::{
    escrow_from_bytes, escrow_to_bytes, escrow_view_wf, lemma_escrow_read_after_write, Escrow,
    EscrowView,
};
use crate::token::{is_token_account, token_amount, token_mint, token_owner, token_program_id_bytes};

verus! {

/// The escrow state that a step writes, if it is a `WriteEscrow`.
pub open spec fn written_state(step: Action) -> Option<Escrow> {
    match step {
        Action::WriteEscrow { state, .. } => Some(state),
        _ => None,
    }
}

/// A `make` that succeeds was signed by the maker (account 0), on a fresh
/// escrow account (no data, not owned by the program) at the address derived
/// from the maker and the bump; the mints belong to the token program, the
/// vault is a token account of mint x held by the escrow, and the maker's
/// token account holds mint x. It records the maker, the two mints
/// (accounts 1 and 2), the amount of y asked for and the bump from the data,
/// and moves the offered amount of x into the vault.
pub proof fn lemma_make_records_the_offer(
    program_id: Address,
    accounts: Seq<Account>,
    data: Seq<u8>,
    derived: Option<Seq<u8>>,
)
    requires
        (make_outcome(program_id, accounts, data, derived) is Ok),
    ensures
        ({
            let steps = make_outcome(program_id, accounts, data, derived)->Ok_0;
            &&& accounts[0].is_signer
            &&& derived == Some(accounts[5].address@)
            &&& accounts[5].data@.len() == 0
            &&& accounts[1].owner@ == token_program_id_bytes()
            &&& accounts[2].owner@ == token_program_id_bytes()
            &&& is_token_account(accounts[4])
            &&& token_owner(accounts[4].data@) == accounts[5].address@
            &&& token_mint(accounts[4].data@) == accounts[1].address@
            &&& is_token_account(accounts[3])
            &&& token_mint(accounts[3].data@) == accounts[1].address@
            &&& accounts[5].owner@ != program_id@
            &&& written_state(steps[1]) == Some(
                Escrow {
                    maker: accounts[0].address,
                    mint_x: accounts[1].address,
                    mint_y: accounts[2].address,
                    amount: le_u64_at(data, 1),
                    bump: data[0],
                },
            )
            &&& steps[2] == Action::Transfer {
                from: 3,
                to: 4,
                authority: 0,
                amount: le_u64_at(data, 9),
                signer: None,
            }
        }),
{
}

/// `make` refuses, with `AccountAlreadyInitialized` and no steps, an escrow
/// account (at the address derived from the maker and the bump) that already
/// holds data.
pub proof fn lemma_make_refuses_existing_escrow(
    program_id: Address,
    accounts: Seq<Account>,
    data: Seq<u8>,
)
    requires
        accounts.len() >= 8,
        accounts[0].is_signer,
        data.len() >= 17,
        accounts[5].data@.len() > 0,
    ensures
        make_outcome(program_id, accounts, data, Some(accounts[5].address@)) == Err::<
            Seq<Action>,
            Rejection,
        >(Rejection::Error(EscrowError::AccountAlreadyInitialized)),
{
}

/// `make` with enough data whose maker (account 0) did not sign returns
/// `MissingRequiredSignature`, whatever the derived address.
pub proof fn lemma_make_requires_maker_signature(
    program_id: Address,
    accounts: Seq<Account>,
    data: Seq<u8>,
    derived: Option<Seq<u8>>,
)
    requires
        accounts.len() >= 8,
        data.len() >= 17,
        !accounts[0].is_signer,
    ensures
        make_outcome(program_id, accounts, data, derived) == Err::<Seq<Action>, Rejection>(
            Rejection::Error(EscrowError::MissingRequiredSignature),
        ),
{
}

/// A `take` that succeeds was signed by the taker, names the mints the
/// escrow records, uses a vault that is a token account distinct from both
/// accounts of mint y, and runs at the address derived from the maker and the
/// recorded bump; the taker's y account holds mint y, and the maker's y
/// account holds mint y and belongs to the recorded maker. It pays the
/// maker's y account the amount recorded, from the taker's y account, and
/// hands the vault's whole balance to the taker's x account, before anything
/// is closed.
pub proof fn lemma_take_swaps_both_legs(accounts: Seq<Account>, derived: Option<Seq<u8>>)
    requires
        (take_outcome(accounts, derived) is Ok),
    ensures
        ({
            let steps = take_outcome(accounts, derived)->Ok_0;
            let state = escrow_from_bytes(accounts[8].data@);
            &&& accounts[0].is_signer
            &&& state.mint_x == accounts[2].address@
            &&& state.mint_y == accounts[3].address@
            &&& is_token_account(accounts[7])
            &&& accounts[7].address@ != accounts[5].address@
            &&& accounts[7].address@ != accounts[6].address@
            &&& is_token_account(accounts[5])
            &&& token_mint(accounts[5].data@) == state.mint_y
            &&& is_token_account(accounts[6])
            &&& token_mint(accounts[6].data@) == state.mint_y
            &&& token_owner(accounts[6].data@) == state.maker
            &&& derived == Some(accounts[8].address@)
            &&& steps.len() == 4
            &&& steps[0] == Action::Transfer {
                from: 5,
                to: 6,
                authority: 0,
                amount: state.amount,
                signer: None,
            }
            &&& steps[1] matches Action::Transfer { from, to, authority, amount, signer } && from
                == 7 && to == 4 && authority == 8 && amount == token_amount(accounts[7].data@)
                && signer is Some
        }),
{
}

/// What a taker pays is what the maker asked: if a `make` wrote its escrow
/// state into the escrow account that a `take` reads, the `take` (when it
/// succeeds) names the mints the maker named and pays the maker the amount of
/// y that the `make` data asked for.
pub proof fn lemma_take_pays_what_make_asked(
    program_id: Address,
    make_accounts: Seq<Account>,
    data: Seq<u8>,
    make_derived: Option<Seq<u8>>,
    take_accounts: Seq<Account>,
    take_derived: Option<Seq<u8>>,
)
    requires
        (make_outcome(program_id, make_accounts, data, make_derived) is Ok),
        take_accounts.len() >= 11,
        take_accounts[8].data@ == escrow_to_bytes(
            written_state(make_outcome(program_id, make_accounts, data, make_derived)->Ok_0[1])->0@,
        ),
        (take_outcome(take_accounts, take_derived) is Ok),
    ensures
        take_accounts[2].address@ == make_accounts[1].address@,
        take_accounts[3].address@ == make_accounts[2].address@,
        take_outcome(take_accounts, take_derived)->Ok_0[0] == (Action::Transfer {
            from: 5,
            to: 6,
            authority: 0,
            amount: le_u64_at(data, 1),
            signer: None,
        }),
{
    let state = written_state(make_outcome(program_id, make_accounts, data, make_derived)->Ok_0[1])->0;
    lemma_escrow_read_after_write(state@);
}

/// A maker can take back what a `make` locked: if a `make` wrote its escrow
/// state into the escrow account that a `refund` reads, the maker of that
/// `make` signs the `refund` and names its mint x, and the vault is a token
/// account that the escrow holds, then the `refund` succeeds; it sends the
/// vault's whole balance to the maker's token account (account 2), signed
/// with the maker's address and the bump of the `make`, closes the vault to
/// the maker and moves the escrow's lamports to the maker.
pub proof fn lemma_refund_after_make(
    program_id: Address,
    make_accounts: Seq<Account>,
    data: Seq<u8>,
    make_derived: Option<Seq<u8>>,
    refund_accounts: Seq<Account>,
)
    requires
        (make_outcome(program_id, make_accounts, data, make_derived) is Ok),
        refund_accounts.len() >= 7,
        refund_accounts[0].is_signer,
        refund_accounts[0].address == make_accounts[0].address,
        refund_accounts[1].address@ == make_accounts[1].address@,
        refund_accounts[3].data@ == escrow_to_bytes(
            written_state(make_outcome(program_id, make_accounts, data, make_derived)->Ok_0[1])->0@,
        ),
        is_token_account(refund_accounts[4]),
        token_owner(refund_accounts[4].data@) == refund_accounts[3].address@,
    ensures
        refund_outcome(refund_accounts) == Ok::<Seq<Action>, Rejection>(
            seq![
                Action::Transfer {
                    from: 4,
                    to: 2,
                    authority: 3,
                    amount: token_amount(refund_accounts[4].data@),
                    signer: Some(EscrowSigner { maker: make_accounts[0].address, bump: data[0] }),
                },
                Action::CloseAccount {
                    account: 4,
                    destination: 0,
                    authority: 3,
                    signer: EscrowSigner { maker: make_accounts[0].address, bump: data[0] },
                },
                Action::DrainLamports { from: 3, to: 0 },
            ],
        ),
{
    let state = written_state(make_outcome(program_id, make_accounts, data, make_derived)->Ok_0[1])->0;
    lemma_escrow_read_after_write(state@);
}

/// A `refund` that succeeds was signed by the maker that the escrow records,
/// for the mint it records, with a vault that the escrow holds; it returns the
/// vault's whole balance to the maker's token account.
pub proof fn lemma_refund_only_by_maker(accounts: Seq<Account>)
    requires
        (refund_outcome(accounts) is Ok),
    ensures
        ({
            let steps = refund_outcome(accounts)->Ok_0;
            let state = escrow_from_bytes(accounts[3].data@);
            &&& accounts[0].is_signer
            &&& state.maker == accounts[0].address@
            &&& state.mint_x == accounts[1].address@
            &&& is_token_account(accounts[4])
            &&& token_owner(accounts[4].data@) == accounts[3].address@
            &&& steps.len() == 3
            &&& steps[0] matches Action::Transfer { from, to, authority, amount, signer } && from
                == 4 && to == 2 && authority == 3 && amount == token_amount(accounts[4].data@)
                && signer is Some
        }),
{
}

/// A `refund` whose first account did not sign returns
/// `MissingRequiredSignature`.
pub proof fn lemma_refund_rejects_unsigned(accounts: Seq<Account>)
    requires
        accounts.len() >= 7,
        !accounts[0].is_signer,
    ensures
        refund_outcome(accounts) == Err::<Seq<Action>, Rejection>(
            Rejection::Error(EscrowError::MissingRequiredSignature),
        ),
{
}

/// The bytes of the seed "escrow".
pub open spec fn escrow_seed_text() -> Seq<u8> {
    seq![101u8, 115, 99, 114, 111, 119]
}

/// Whether `account` holds token account data (165 bytes, owned by the token
/// program) whose mint, in bytes 0..32, is `mint`.
pub open spec fn holds_token_data(account: Account, mint: Seq<u8>) -> bool {
    &&& account.data@.len() == 165
    &&& account.owner@ == token_program_id_bytes()
    &&& account.data@.subrange(0, 32) == mint
}

/// Instruction data decodes as written: a tag of 0 or 1 followed by the
/// little-endian bytes of any two amounts (and any further bytes) decodes to
/// `Make` or `Take` with exactly those amounts, and a tag of 2 to `Refund`.
pub proof fn lemma_unpack_reads_little_endian_amounts(a: u64, b: u64, rest: Seq<u8>)
    ensures
        spec_unpack(seq![0u8] + spec_u64_to_le_bytes(a) + spec_u64_to_le_bytes(b) + rest) == Ok::<
            EscrowInstruction,
            EscrowError,
        >(EscrowInstruction::Make { amount_a: a, amount_b: b }),
        spec_unpack(seq![1u8] + spec_u64_to_le_bytes(a) + spec_u64_to_le_bytes(b) + rest) == Ok::<
            EscrowInstruction,
            EscrowError,
        >(EscrowInstruction::Take { amount_a: a, amount_b: b }),
        spec_unpack(seq![2u8] + rest) == Ok::<EscrowInstruction, EscrowError>(
            EscrowInstruction::Refund,
        ),
{
    lemma_auto_spec_u64_to_from_le_bytes();
    let la = spec_u64_to_le_bytes(a);
    let lb = spec_u64_to_le_bytes(b);
    let d0 = seq![0u8] + la + lb + rest;
    let d1 = seq![1u8] + la + lb + rest;
    assert(d0.subrange(1, 9) =~= la);
    assert(d0.subrange(9, 17) =~= lb);
    assert(d1.subrange(1, 9) =~= la);
    assert(d1.subrange(9, 17) =~= lb);
    assert((seq![2u8] + rest)[0] == 2u8);
}

/// Instruction data that is empty, or whose tag is 3 or more, is refused with
/// `InvalidInstructionData`.
pub proof fn lemma_unpack_refuses_unknown_tags(tag: u8, rest: Seq<u8>)
    requires
        tag >= 3,
    ensures
        spec_unpack(Seq::empty()) == Err::<EscrowInstruction, EscrowError>(
            EscrowError::InvalidInstructionData,
        ),
        spec_unpack(seq![tag] + rest) == Err::<EscrowInstruction, EscrowError>(
            EscrowError::InvalidInstructionData,
        ),
{
    assert((seq![tag] + rest)[0] == tag);
}

/// An instruction runs the instruction its tag names on the bytes after the
/// tag: tag 0 with at least 17 more bytes runs `make` on them, tag 1 with at
/// least 16 more bytes runs `take`, and tag 2 runs `refund`, on the same
/// accounts.
pub proof fn lemma_process_dispatches_by_tag(program_id: Address, accounts: Seq<Account>, rest: Seq<u8>)
    ensures
        rest.len() >= 17 ==> process_outcome(program_id, accounts, seq![0u8] + rest) == make_result(
            program_id,
            accounts,
            rest,
        ),
        rest.len() >= 16 ==> process_outcome(program_id, accounts, seq![1u8] + rest) == take_result(
            program_id,
            accounts,
        ),
        process_outcome(program_id, accounts, seq![2u8] + rest) == refund_outcome(accounts),
{
    let d0 = seq![0u8] + rest;
    let d1 = seq![1u8] + rest;
    let d2 = seq![2u8] + rest;
    assert(d0.subrange(1, d0.len() as int) =~= rest);
    assert(d1[0] == 1u8);
    assert(d2[0] == 2u8);
}

/// The amount read from token account data is the whole little-endian `u64`
/// in its bytes 64..72.
pub proof fn lemma_token_amount_is_the_u64_at_64(data: Seq<u8>, amount: u64)
    requires
        data.len() == 165,
        data.subrange(64, 72) == spec_u64_to_le_bytes(amount),
    ensures
        token_amount(data) == amount,
{
    lemma_auto_spec_u64_to_from_le_bytes();
}

/// The escrow data has a fixed layout: the maker, mint x and mint y in this
/// order, each as its 32 bytes, then the amount in little endian, then the
/// bump; and an escrow state is read from those same offsets.
pub proof fn lemma_escrow_layout(v: EscrowView, b: Seq<u8>)
    requires
        escrow_view_wf(v),
        b.len() >= 105,
    ensures
        escrow_to_bytes(v).len() == 105,
        escrow_to_bytes(v).subrange(0, 32) == v.maker,
        escrow_to_bytes(v).subrange(32, 64) == v.mint_x,
        escrow_to_bytes(v).subrange(64, 96) == v.mint_y,
        escrow_to_bytes(v).subrange(96, 104) == spec_u64_to_le_bytes(v.amount),
        escrow_to_bytes(v)[104] == v.bump,
        escrow_from_bytes(b).maker == b.subrange(0, 32),
        escrow_from_bytes(b).mint_x == b.subrange(32, 64),
        escrow_from_bytes(b).mint_y == b.subrange(64, 96),
        escrow_from_bytes(b).amount == spec_u64_from_le_bytes(b.subrange(96, 104)),
        escrow_from_bytes(b).bump == b[104],
{
    lemma_auto_spec_u64_to_from_le_bytes();
    let e = escrow_to_bytes(v);
    assert(e.subrange(0, 32) =~= v.maker);
    assert(e.subrange(32, 64) =~= v.mint_x);
    assert(e.subrange(64, 96) =~= v.mint_y);
    assert(e.subrange(96, 104) =~= spec_u64_to_le_bytes(v.amount));
}

/// `make` succeeds whenever the maker signs, the data holds 17 bytes, the
/// escrow account is the address that `create_program_address` derives from
/// ["escrow", the maker's address, [data[0]]] under the program, holds no data
/// and is not owned by the program, both mints are owned by the token program,
/// the vault is token account data of mint x held by the escrow and the
/// maker's token account is token account data of mint x, whatever their
/// other bytes. It then creates the escrow, records the maker, the mints, the
/// little-endian amount in data bytes 1..9 and the bump, and moves the
/// little-endian amount in data bytes 9..17 from the maker's token account to
/// the vault.
pub proof fn lemma_make_succeeds(program_id: Address, accounts: Seq<Account>, data: Seq<u8>)
    requires
        accounts.len() >= 8,
        data.len() >= 17,
        accounts[0].is_signer,
        derived_address(escrow_seed_text(), accounts[0].address@, seq![data[0]], program_id@)
            == Some(accounts[5].address@),
        accounts[5].data@.len() == 0,
        accounts[5].owner@ != program_id@,
        accounts[1].owner@ == token_program_id_bytes(),
        accounts[2].owner@ == token_program_id_bytes(),
        holds_token_data(accounts[4], accounts[1].address@),
        accounts[4].data@.subrange(32, 64) == accounts[5].address@,
        holds_token_data(accounts[3], accounts[1].address@),
    ensures
        make_result(program_id, accounts, data) == Ok::<Seq<Action>, Rejection>(
            seq![
                Action::CreateAccount {
                    from: 0,
                    to: 5,
                    space: 105,
                    owner: program_id,
                    signer: EscrowSigner { maker: accounts[0].address, bump: data[0] },
                },
                Action::WriteEscrow {
                    account: 5,
                    state: Escrow {
                        maker: accounts[0].address,
                        mint_x: accounts[1].address,
                        mint_y: accounts[2].address,
                        amount: spec_u64_from_le_bytes(data.subrange(1, 9)),
                        bump: data[0],
                    },
                },
                Action::Transfer {
                    from: 3,
                    to: 4,
                    authority: 0,
                    amount: spec_u64_from_le_bytes(data.subrange(9, 17)),
                    signer: None,
                },
            ],
        ),
{
    assert(crate::pda::ESCROW_SEED@ =~= escrow_seed_text());
}

/// `take` succeeds whenever the taker signs; the escrow account holds at
/// least 105 bytes whose bytes 32..64 and 64..96 are mint x and mint y
/// (accounts 2 and 3); the escrow is the address that `create_program_address`
/// derives from ["escrow", the maker's (account 1) address, [escrow byte 104]]
/// under the program; the vault is token account data (distinct from both
/// accounts of mint y); the taker's y account is token account data of mint y;
/// and the maker's y account is token account data of mint y whose owner
/// (bytes 32..64) is escrow bytes 0..32. Then the taker pays the little-endian
/// amount in escrow bytes 96..104 into the maker's y account, and receives the
/// vault's whole little-endian balance (vault bytes 64..72), signed with the
/// maker's address and the recorded bump; the vault is closed to the maker,
/// and the escrow's lamports go to the maker.
pub proof fn lemma_take_succeeds(program_id: Address, accounts: Seq<Account>)
    requires
        accounts.len() >= 11,
        accounts[0].is_signer,
        accounts[8].data@.len() >= 105,
        accounts[8].data@.subrange(32, 64) == accounts[2].address@,
        accounts[8].data@.subrange(64, 96) == accounts[3].address@,
        derived_address(
            escrow_seed_text(),
            accounts[1].address@,
            seq![accounts[8].data@[104]],
            program_id@,
        ) == Some(accounts[8].address@),
        accounts[7].data@.len() == 165,
        accounts[7].owner@ == token_program_id_bytes(),
        accounts[7].address@ != accounts[5].address@,
        accounts[7].address@ != accounts[6].address@,
        holds_token_data(accounts[5], accounts[3].address@),
        holds_token_data(accounts[6], accounts[3].address@),
        accounts[6].data@.subrange(32, 64) == accounts[8].data@.subrange(0, 32),
    ensures
        take_result(program_id, accounts) == Ok::<Seq<Action>, Rejection>(
            seq![
                Action::Transfer {
                    from: 5,
                    to: 6,
                    authority: 0,
                    amount: spec_u64_from_le_bytes(accounts[8].data@.subrange(96, 104)),
                    signer: None,
                },
                Action::Transfer {
                    from: 7,
                    to: 4,
                    authority: 8,
                    amount: spec_u64_from_le_bytes(accounts[7].data@.subrange(64, 72)),
                    signer: Some(
                        EscrowSigner { maker: accounts[1].address, bump: accounts[8].data@[104] },
                    ),
                },
                Action::CloseAccount {
                    account: 7,
                    destination: 1,
                    authority: 8,
                    signer: EscrowSigner { maker: accounts[1].address, bump: accounts[8].data@[104] },
                },
                Action::DrainLamports { from: 8, to: 1 },
            ],
        ),
{
    assert(crate::pda::ESCROW_SEED@ =~= escrow_seed_text());
}

/// `refund` succeeds whenever the maker signs; the escrow account holds at
/// least 105 bytes whose bytes 0..32 are the maker's address and bytes 32..64
/// mint x (account 1); and the vault is token account data held (bytes
/// 32..64) by the escrow. Then the vault's whole little-endian balance (vault
/// bytes 64..72) goes back to the maker's token account, signed with the
/// maker's address and the recorded bump (escrow byte 104); the vault is
/// closed to the maker, and the escrow's lamports go to the maker.
pub proof fn lemma_refund_succeeds(accounts: Seq<Account>)
    requires
        accounts.len() >= 7,
        accounts[0].is_signer,
        accounts[3].data@.len() >= 105,
        accounts[3].data@.subrange(0, 32) == accounts[0].address@,
        accounts[3].data@.subrange(32, 64) == accounts[1].address@,
        accounts[4].data@.len() == 165,
        accounts[4].owner@ == token_program_id_bytes(),
        accounts[4].data@.subrange(32, 64) == accounts[3].address@,
    ensures
        refund_outcome(accounts) == Ok::<Seq<Action>, Rejection>(
            seq![
                Action::Transfer {
                    from: 4,
                    to: 2,
                    authority: 3,
                    amount: spec_u64_from_le_bytes(accounts[4].data@.subrange(64, 72)),
                    signer: Some(
                        EscrowSigner { maker: accounts[0].address, bump: accounts[3].data@[104] },
                    ),
                },
                Action::CloseAccount {
                    account: 4,
                    destination: 0,
                    authority: 3,
                    signer: EscrowSigner { maker: accounts[0].address, bump: accounts[3].data@[104] },
                },
                Action::DrainLamports { from: 3, to: 0 },
            ],
        ),
{
}

} // verus!
