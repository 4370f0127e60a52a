//! The library's own model of a legacy Solana transaction and of the
//! system-program instructions that the transfer accounting reads.

use vstd::prelude::*;

verus! {

/// A 32-byte account address.
#[derive(Clone, Copy, Debug)]
pub struct Pubkey(pub [u8; 32]);

impl View for Pubkey {
    type V = Seq<u8>;

    open spec fn view(&self) -> Seq<u8> {
        self.0@
    }
}

/// An instruction of a message: the index of its program among the
/// message's account keys, the indices of the accounts it reads, and its data.
#[derive(Clone, Debug)]
pub struct CompiledInstruction {
    pub program_id_index: u8,
    pub accounts: Vec<u8>,
    pub data: Vec<u8>,
}

/// The mathematical value of a [`CompiledInstruction`].
pub struct CompiledInstructionView {
    pub program_id_index: u8,
    pub accounts: Seq<u8>,
    pub data: Seq<u8>,
}

impl View for CompiledInstruction {
    type V = CompiledInstructionView;

    open spec fn view(&self) -> CompiledInstructionView {
        CompiledInstructionView {
            program_id_index: self.program_id_index,
            accounts: self.accounts@,
            data: self.data@,
        }
    }
}

/// The part of a transaction message that the indexer reads.
#[derive(Clone, Debug)]
pub struct Message {
    pub account_keys: Vec<Pubkey>,
    pub instructions: Vec<CompiledInstruction>,
}

/// A decoded legacy transaction, as far as the indexer reads it.
#[derive(Clone, Debug)]
pub struct Transaction {
    pub message: Message,
}

/// The mathematical value of a [`Transaction`]: its account keys as byte
/// sequences and its instructions.
pub struct TransactionView {
    pub account_keys: Seq<Seq<u8>>,
    pub instructions: Seq<CompiledInstructionView>,
}

impl View for Transaction {
    type V = TransactionView;

    open spec fn view(&self) -> TransactionView {
        TransactionView {
            account_keys: self.message.account_keys@.map_values(|k: Pubkey| k@),
            instructions: self.message.instructions@.map_values(|i: CompiledInstruction| i@),
        }
    }
}

impl TransactionView {
    /// Every instruction names its program by an index into the account keys.
    pub open spec fn well_formed(self) -> bool {
        forall|i: int|
            0 <= i < self.instructions.len() ==> (#[trigger] self.instructions[i]).program_id_index
                < self.account_keys.len()
    }
}

impl Transaction {
    pub open spec fn well_formed(&self) -> bool {
        self@.well_formed()
    }
}

/// A system-program instruction as far as the transfer accounting reads it:
/// the two transfer instructions with their amount, and every other one.
#[derive(Clone, Copy, Debug, PartialEq, Eq, Structural)]
pub enum SystemInstruction {
    Transfer { lamports: u64 },
    TransferWithSeed { lamports: u64 },
    Other,
}

/// Why the data of a system-program instruction could not be decoded: the
/// one error that the decoder gives, whatever is wrong with the data.
#[derive(Clone, Copy, Debug, PartialEq, Eq, Structural)]
pub enum InstructionDataError {
    InvalidInstructionData,
}

/// The little-endian `u32` at byte offset `at`.
pub open spec fn u32_le(s: Seq<u8>, at: int) -> int {
    s[at] + 0x100 * s[at + 1] + 0x1_0000 * s[at + 2] + 0x100_0000 * s[at + 3]
}

/// The little-endian `u64` at byte offset `at`.
pub open spec fn u64_le(s: Seq<u8>, at: int) -> int {
    u32_le(s, at) + 0x1_0000_0000 * u32_le(s, at + 4)
}

/// The system program's address: 32 zero bytes.
pub open spec fn system_program_key() -> Seq<u8> {
    Seq::new(32, |i: int| 0u8)
}

/// What the data of a system-program instruction means, read by its
/// leading variant tag: tag 2 is a transfer and tag 11 a transfer with seed,
/// both followed by their amount.
pub open spec fn system_instruction_of(data: Seq<u8>) -> SystemInstruction {
    let tag = u32_le(data, 0);
    if tag == 2 {
        SystemInstruction::Transfer { lamports: u64_le(data, 4) as u64 }
    } else if tag == 11 {
        SystemInstruction::TransferWithSeed { lamports: u64_le(data, 4) as u64 }
    } else {
        SystemInstruction::Other
    }
}

/// The lamports that a system instruction moves for the accounting.
pub open spec fn transfer_amount(si: SystemInstruction) -> nat {
    match si {
        SystemInstruction::Transfer { lamports } => lamports as nat,
        SystemInstruction::TransferWithSeed { lamports } => lamports as nat,
        SystemInstruction::Other => 0,
    }
}

} // verus!
