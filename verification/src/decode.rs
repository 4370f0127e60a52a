//! Decoding of transactions and of system-program instruction data, and the
//! SOL that the system-program transfers of one transaction move.

use crate::model::{
    CompiledInstruction, InstructionDataError, Pubkey, SystemInstruction, Transaction, TransactionView,
    system_instruction_of, system_program_key, transfer_amount,
};
use crate::sum::{lemma_sum_bound, lemma_sum_take_next, sum};
use crate::solana::{
    decode_base64_transaction, deserialize_system_instruction, spec_decode_transaction,
    spec_system_instruction_decodes, system_program_id,
};
use vstd::prelude::*;

verus! {

/// The one encoding of transaction blobs that the decoder takes.
pub open spec fn base64_mode() -> Seq<char> {
    seq!['b', 'a', 's', 'e', '6', '4']
}

/// Whether `mode` names the base64 encoding.
pub fn is_base64_mode(mode: &str) -> (b: bool)
    ensures
        b == (mode@ == base64_mode()),
{
    let n: usize = mode.unicode_len();
    if n != 6 {
        return false;
    }
    let c0: char = mode.get_char(0);
    let c1: char = mode.get_char(1);
    let c2: char = mode.get_char(2);
    let c3: char = mode.get_char(3);
    let c4: char = mode.get_char(4);
    let c5: char = mode.get_char(5);
    let b: bool = c0 == 'b' && c1 == 'a' && c2 == 's' && c3 == 'e' && c4 == '6' && c5 == '4';
    if b {
        assert(mode@ =~= base64_mode());
    } else {
        assert(mode@ !== base64_mode()) by {
            if mode@ == base64_mode() {
                assert(mode@[0] == 'b' && mode@[1] == 'a' && mode@[2] == 's');
                assert(mode@[3] == 'e' && mode@[4] == '6' && mode@[5] == '4');
            }
        }
    }
    b
}

/// Decodes a transaction blob given in the encoding `base_mode`, which must
/// be base64. `None` where the blob is no valid legacy transaction.
pub fn decode_transaction(blob: &str, base_mode: &str) -> (r: Option<Transaction>)
    requires
        base_mode@ == base64_mode(),
    ensures
        match r {
            Some(t) => spec_decode_transaction(blob@) == Some(t@),
            None => spec_decode_transaction(blob@) is None,
        },
        r matches Some(t) ==> t.well_formed(),
{
    decode_base64_transaction(blob)
}

/// Whether two addresses are the same 32 bytes.
pub fn pubkey_eq(a: &Pubkey, b: &Pubkey) -> (r: bool)
    ensures
        r == (a@ == b@),
{
    let mut i: usize = 0;
    while i < 32
        invariant
            i <= 32,
            a@.len() == 32,
            b@.len() == 32,
            forall|j: int| 0 <= j < i ==> a@[j] == b@[j],
        decreases 32 - i,
    {
        if a.0[i] != b.0[i] {
            return false;
        }
        i = i + 1;
    }
    assert(a@ =~= b@);
    true
}

/// The system instruction that data decodes to, `None` where it does not.
pub open spec fn decoded_system_instruction(data: Seq<u8>) -> Option<SystemInstruction> {
    if spec_system_instruction_decodes(data) {
        Some(system_instruction_of(data))
    } else {
        None
    }
}

/// What decoding the data of a system-program instruction gives: the
/// instruction, or `InvalidInstructionData` where the data does not decode.
pub open spec fn decoded_instruction_result(data: Seq<u8>) -> Result<SystemInstruction, InstructionDataError> {
    match decoded_system_instruction(data) {
        Some(si) => Ok(si),
        None => Err(InstructionDataError::InvalidInstructionData),
    }
}

/// Decodes the data of a system-program instruction.
pub fn decode_system_instruction(data: &[u8]) -> (r: Result<SystemInstruction, InstructionDataError>)
    ensures
        r == decoded_instruction_result(data@),
{
    match deserialize_system_instruction(data) {
        Ok(si) => Ok(si),
        Err(_) => Err(InstructionDataError::InvalidInstructionData),
    }
}

/// Decodes the data of an instruction whose program is the system program;
/// `None` for an instruction of any other program.
pub fn decode_instruction_data(instruction: CompiledInstruction, account_keys: Vec<Pubkey>) -> (r:
    Option<Result<SystemInstruction, InstructionDataError>>)
    requires
        (instruction.program_id_index as int) < account_keys.len(),
    ensures
        r == if account_keys@[instruction.program_id_index as int]@ == system_program_key() {
            Some(decoded_instruction_result(instruction.data@))
        } else {
            None::<Result<SystemInstruction, InstructionDataError>>
        },
{
    let id: usize = instruction.program_id_index as usize;
    let program_pubkey: Pubkey = account_keys[id];
    let system: Pubkey = system_program_id();
    if pubkey_eq(&program_pubkey, &system) {
        Some(decode_system_instruction(instruction.data.as_slice()))
    } else {
        None
    }
}

/// The lamports that a decoded system instruction moves: the amount of a
/// transfer or of a transfer with seed, 0 for anything else.
pub fn transfer_lamports(decoded: &Result<SystemInstruction, InstructionDataError>) -> (r: u64)
    ensures
        r == match decoded {
            Ok(si) => transfer_amount(*si),
            Err(_) => 0,
        },
{
    match decoded {
        Ok(SystemInstruction::Transfer { lamports }) => *lamports,
        Ok(SystemInstruction::TransferWithSeed { lamports }) => *lamports,
        _ => 0,
    }
}

/// The lamports that the accounting credits to one system instruction's data.
pub open spec fn decoded_transfer(data: Seq<u8>) -> nat {
    match decoded_system_instruction(data) {
        Some(si) => transfer_amount(si),
        None => 0,
    }
}

/// Whether the `i`-th instruction runs on the system program.
pub open spec fn runs_on_system_program(tx: TransactionView, i: int) -> bool {
    tx.account_keys[tx.instructions[i].program_id_index as int] == system_program_key()
}

/// The lamports credited to the `i`-th instruction: the transfer that its
/// own data decodes to where it runs on the system program, else 0.
pub open spec fn instruction_transfer(tx: TransactionView, i: int) -> nat {
    if runs_on_system_program(tx, i) {
        decoded_transfer(tx.instructions[i].data)
    } else {
        0
    }
}

/// The lamports credited to each instruction, in order.
pub open spec fn instruction_transfers(tx: TransactionView) -> Seq<nat> {
    Seq::new(tx.instructions.len(), |i: int| instruction_transfer(tx, i))
}

/// The SOL that a transaction moves: the sum, over its instructions that run
/// on the system program, of the transfer that each one's data decodes to.
pub open spec fn spec_sol_transfer_in_transaction(tx: TransactionView) -> nat {
    sum(instruction_transfers(tx))
}

/// The SOL moved by the transaction's system-program transfers.
pub fn get_sol_transfer_in_transaction(transaction: Transaction) -> (r: u128)
    requires
        transaction.well_formed(),
    ensures
        r == spec_sol_transfer_in_transaction(transaction@),
{
    let mut sol_transfer: u128 = 0;
    let message = &transaction.message;
    let n: usize = message.instructions.len();
    let ghost tx = transaction@;
    let ghost s = instruction_transfers(tx);
    let system_program: Pubkey = system_program_id();
    let mut i: usize = 0;
    while i < n
        invariant
            i <= n,
            tx.instructions.len() == n,
            s.len() == n,
            s == instruction_transfers(tx),
            n == message.instructions.len(),
            tx == transaction@,
            message == &transaction.message,
            tx.well_formed(),
            system_program@ == system_program_key(),
            sol_transfer == sum(s.take(i as int)),
        decreases n - i,
    {
        let instruction: &CompiledInstruction = &message.instructions[i];
        assert(tx.instructions[i as int] == instruction@);
        assert((instruction.program_id_index as int) < tx.account_keys.len());
        let program_pubkey: Pubkey = message.account_keys[instruction.program_id_index as usize];
        assert(tx.account_keys[instruction.program_id_index as int] == program_pubkey@);
        proof {
            lemma_sum_take_next(s, i as int);
            assert forall|j: int| 0 <= j < s.take(i + 1).len() implies #[trigger] s.take(i + 1)[j]
                <= 0xffff_ffff_ffff_ffff by {
                lemma_decoded_transfer_bound(tx.instructions[j].data);
            }
            lemma_sum_bound(s.take(i + 1), 0xffff_ffff_ffff_ffff);
            assert((i + 1) * 0xffff_ffff_ffff_ffffnat <= 0xffff_ffff_ffff_ffff * 0xffff_ffff_ffff_ffffnat)
                by (nonlinear_arith)
                requires
                    i + 1 <= 0xffff_ffff_ffff_ffff,
            ;
        }
        if pubkey_eq(&program_pubkey, &system_program) {
            let data: &Vec<u8> = &instruction.data;
            let system_instruction = decode_system_instruction(data.as_slice());
            let lamports: u64 = transfer_lamports(&system_instruction);
            assert(lamports == instruction_transfer(tx, i as int));
            sol_transfer = sol_transfer + lamports as u128;
        }
        i = i + 1;
    }
    assert(s.take(n as int) =~= s);
    sol_transfer
}

/// The transfer credited to any instruction fits in a `u64`.
pub proof fn lemma_decoded_transfer_bound(data: Seq<u8>)
    ensures
        decoded_transfer(data) <= 0xffff_ffff_ffff_ffff,
{
}

} // verus!
