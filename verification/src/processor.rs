use vstd::prelude::*;

use crate::account::{outcome_view, Account, Action, Rejection, Violation};
use crate::address::Address;
use crate::instructions::make::{make, make_result};
use crate::instructions::refund::{refund, refund_outcome};
use crate::instructions::take::{take, take_result};
use crate::instructions::{spec_unpack, unpack_readable, EscrowInstruction};

verus! {

/// How an instruction ends: the data is decoded; `Make`, `Take` and `Refund`
/// then run on the accounts with the data that follows the tag.
pub open spec fn process_outcome(program_id: Address, accounts: Seq<Account>, data: Seq<u8>) -> Result<
    Seq<Action>,
    Rejection,
> {
    if !unpack_readable(data) {
        Err(Rejection::Abort(Violation::InstructionDataTooShort))
    } else {
        match spec_unpack(data) {
            Err(e) => Err(Rejection::Error(e)),
            Ok(EscrowInstruction::Make { .. }) => make_result(
                program_id,
                accounts,
                data.subrange(1, data.len() as int),
            ),
            Ok(EscrowInstruction::Take { .. }) => take_result(program_id, accounts),
            Ok(EscrowInstruction::Refund) => refund_outcome(accounts),
        }
    }
}

/// Decodes an instruction and runs it. `make` receives the data after the
/// tag, so a `Make` instruction takes at least 18 bytes: tag 0, bump, amount of y wanted
/// and amount of x deposited (little endian). The amounts that `unpack`
/// decodes are not used.
pub fn process_instruction(program_id: &Address, accounts: &[Account], instruction_data: &[u8]) -> (r:
    Result<Vec<Action>, Rejection>)
    ensures
        outcome_view(r) == process_outcome(*program_id, accounts@, instruction_data@),
{
    let len = instruction_data.len();
    if len > 0 && (instruction_data[0] == 0 || instruction_data[0] == 1) && len < 17 {
        return Err(Rejection::Abort(Violation::InstructionDataTooShort));
    }
    let instruction = match EscrowInstruction::unpack(instruction_data) {
        Err(e) => {
            return Err(Rejection::Error(e));
        },
        Ok(i) => i,
    };
    let rest = &instruction_data[1..len];
    match instruction {
        EscrowInstruction::Make { .. } => make(program_id, accounts, rest),
        EscrowInstruction::Take { .. } => take(program_id, accounts, rest),
        EscrowInstruction::Refund => refund(program_id, accounts, rest),
    }
}

} // verus!
