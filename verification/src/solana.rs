//! The calls into the Solana crates that the library makes, each with the
//! contract that is believed of it.

use crate::model::{
    CompiledInstruction, Message, Pubkey, SystemInstruction, Transaction, TransactionView,
    system_instruction_of, system_program_key, u32_le,
};
use solana_sdk::system_instruction::SystemInstruction as SdkSystemInstruction;
use vstd::prelude::*;

verus! {

/// `solana_sdk::instruction::InstructionError`, which the library does not
/// read: the decoder's `map_err` makes every failure `InvalidInstructionData`.
#[verifier::external_type_specification]
#[verifier::external_body]
pub struct ExInstructionError(solana_sdk::instruction::InstructionError);

/// What `EncodedTransaction::decode` gives for a base64 blob, as a legacy
/// transaction: base64 decoding, bincode deserialization and sanitization.
pub uninterp spec fn spec_decode_transaction(blob: Seq<char>) -> Option<TransactionView>;

/// Whether `limited_deserialize::<SystemInstruction>` accepts the bytes.
pub uninterp spec fn spec_system_instruction_decodes(data: Seq<u8>) -> bool;

/// The base58 text of an address, as `Pubkey`'s `Display` writes it.
pub uninterp spec fn spec_pubkey_to_string(key: Seq<u8>) -> Seq<char>;

/// Calls `solana_transaction_status::EncodedTransaction::decode` on a base64
/// blob and keeps the result only when it is a legacy transaction
/// (`VersionedTransaction::into_legacy_transaction`). Claimed: the result is
/// the named decoding of the blob; a decoded transaction passed
/// `sanitize`, so each instruction's program index is an index into the
/// account keys.
#[verifier::external_body]
pub(crate) fn decode_base64_transaction(blob: &str) -> (r: Option<Transaction>)
    ensures
        match r {
            Some(t) => spec_decode_transaction(blob@) == Some(t@),
            None => spec_decode_transaction(blob@) is None,
        },
        r matches Some(t) ==> t.well_formed(),
{
    let encoded = solana_transaction_status::EncodedTransaction::Binary(
        blob.to_string(),
        solana_transaction_status::TransactionBinaryEncoding::Base64,
    );
    let tx = encoded.decode()?.into_legacy_transaction()?;
    let account_keys = tx.message.account_keys.iter().map(|k| Pubkey(k.to_bytes())).collect();
    let instructions = tx.message.instructions.into_iter().map(
        |i| CompiledInstruction { program_id_index: i.program_id_index, accounts: i.accounts, data: i.data },
    ).collect();
    Some(Transaction { message: Message { account_keys, instructions } })
}

/// Calls `solana_sdk::program_utils::limited_deserialize` for a
/// `SystemInstruction` (bincode with fixed-width integers, trailing bytes
/// allowed). Claimed: it succeeds exactly when the named predicate holds; a
/// success read the little-endian `u32` variant tag and, for the two
/// transfers (tags 2 and 11), the little-endian `u64` amount after it; twelve
/// bytes that start with tag 2 always decode; a tag above 12 never does.
/// Which other inputs decode (the other variants' fields) is left to the name.
#[verifier::external_body]
pub(crate) fn deserialize_system_instruction(data: &[u8]) -> (r: Result<
    SystemInstruction,
    solana_sdk::instruction::InstructionError,
>)
    ensures
        r is Ok <==> spec_system_instruction_decodes(data@),
        r is Ok ==> data@.len() >= 4,
        r matches Ok(si) ==> si == system_instruction_of(data@),
        (r is Ok && (u32_le(data@, 0) == 2 || u32_le(data@, 0) == 11)) ==> data@.len() >= 12,
        (data@.len() >= 12 && u32_le(data@, 0) == 2) ==> r is Ok,
        (data@.len() >= 4 && u32_le(data@, 0) > 12) ==> r is Err,
{
    match solana_sdk::program_utils::limited_deserialize::<SdkSystemInstruction>(data) {
        Ok(SdkSystemInstruction::Transfer { lamports }) => Ok(SystemInstruction::Transfer { lamports }),
        Ok(SdkSystemInstruction::TransferWithSeed { lamports, .. }) => Ok(SystemInstruction::TransferWithSeed { lamports }),
        Ok(_) => Ok(SystemInstruction::Other),
        Err(e) => Err(e),
    }
}

/// Calls `solana_sdk::system_program::id`. Claimed: the address is the one
/// its `declare_id!` gives, "11111111111111111111111111111111" in base58,
/// that is 32 zero bytes.
#[verifier::external_body]
pub(crate) fn system_program_id() -> (id: Pubkey)
    ensures
        id@ == system_program_key(),
{
    Pubkey(solana_sdk::system_program::id().to_bytes())
}

/// Calls `Pubkey::to_string` (its `Display`, base58). Claimed: the text is
/// the named base58 text of the bytes.
#[verifier::external_body]
pub(crate) fn pubkey_to_string(key: &Pubkey) -> (s: String)
    ensures
        s@ == spec_pubkey_to_string(key@),
{
    solana_sdk::pubkey::Pubkey::new_from_array(key.0).to_string()
}

} // verus!
