//! Properties of the accounting and of the polling loop that hold over all
//! inputs.

use crate::block::{
    Account, BlockResponse, BlockTransaction, are_accounts_of, decoded_account_keys, blob_of, fees, sol_transfers, spec_fee_in_block,
    spec_sol_transfer_in_block,
};
use crate::decode::{
    instruction_transfers, lemma_decoded_transfer_bound, runs_on_system_program,
    spec_sol_transfer_in_transaction,
};
use crate::indexer::{
    BATCH_PAUSE_MS, IDLE_PAUSE_MS, IndexerAction, IndexerState, MARGIN_CALL, MAX_RPC_CALL, spec_step,
};
use crate::model::{TransactionView, system_program_key, u32_le, u64_le};
use crate::records::{block_entries, spec_block_record, transaction_entries};
use crate::solana::{spec_decode_transaction, spec_system_instruction_decodes};
use crate::sum::{lemma_sum_append, lemma_sum_bound, sum};
use vstd::prelude::*;

verus! {

/// A transaction none of whose instructions runs on the system program moves
/// no SOL.
pub proof fn lemma_no_system_instruction_no_transfer(tx: TransactionView)
    requires
        forall|i: int| 0 <= i < tx.instructions.len() ==> !runs_on_system_program(tx, i),
    ensures
        spec_sol_transfer_in_transaction(tx) == 0,
{
    let s = instruction_transfers(tx);
    assert forall|i: int| 0 <= i < s.len() implies s[i] <= 0 by {
        assert(!runs_on_system_program(tx, i));
    }
    lemma_sum_bound(s, 0);
    assert(s.len() * 0 == 0) by (nonlinear_arith);
}

/// A transaction moves at most `u64::MAX` lamports per instruction.
pub proof fn lemma_transaction_transfer_bound(tx: TransactionView)
    ensures
        spec_sol_transfer_in_transaction(tx) <= tx.instructions.len() * 0xffff_ffff_ffff_ffffnat,
{
    let s = instruction_transfers(tx);
    assert forall|i: int| 0 <= i < s.len() implies s[i] <= 0xffff_ffff_ffff_ffff by {
        lemma_decoded_transfer_bound(tx.instructions[i].data);
    }
    lemma_sum_bound(s, 0xffff_ffff_ffff_ffff);
}

/// The transaction whose instructions are those of `a` followed by those of
/// `b`, over the account keys of `a`.
pub open spec fn join_instructions(a: TransactionView, b: TransactionView) -> TransactionView {
    TransactionView { account_keys: a.account_keys, instructions: a.instructions + b.instructions }
}

/// Over the same account keys, the SOL moved by the instructions of one
/// transaction followed by those of another is the sum of what each moves:
/// each instruction is credited with its own transfer, wherever it stands.
pub proof fn lemma_transaction_transfer_append(a: TransactionView, b: TransactionView)
    requires
        a.account_keys == b.account_keys,
    ensures
        spec_sol_transfer_in_transaction(join_instructions(a, b)) == spec_sol_transfer_in_transaction(a)
            + spec_sol_transfer_in_transaction(b),
{
    let t = join_instructions(a, b);
    assert(instruction_transfers(t) =~= instruction_transfers(a) + instruction_transfers(b)) by {
        assert forall|i: int| 0 <= i < instruction_transfers(t).len() implies instruction_transfers(t)[i]
            == (instruction_transfers(a) + instruction_transfers(b))[i] by {
            if i >= a.instructions.len() {
                assert(t.instructions[i] == b.instructions[i - a.instructions.len()]);
            }
        }
    }
    lemma_sum_append(instruction_transfers(a), instruction_transfers(b));
}

/// The fees of a list of transactions followed by another are the fees of
/// the first plus those of the second.
pub proof fn lemma_fees_append(a: Seq<BlockTransaction>, b: Seq<BlockTransaction>)
    ensures
        sum(fees(a + b)) == sum(fees(a)) + sum(fees(b)),
{
    assert(fees(a + b) =~= fees(a) + fees(b));
    lemma_sum_append(fees(a), fees(b));
}

/// The SOL moved by a list of transactions followed by another is that moved
/// by the first plus that moved by the second.
pub proof fn lemma_sol_transfers_append(a: Seq<BlockTransaction>, b: Seq<BlockTransaction>)
    ensures
        sum(sol_transfers(a + b)) == sum(sol_transfers(a)) + sum(sol_transfers(b)),
{
    assert(sol_transfers(a + b) =~= sol_transfers(a) + sol_transfers(b));
    lemma_sum_append(sol_transfers(a), sol_transfers(b));
}

/// The SOL moved by a list of block transactions depends on their encoded
/// transactions alone: fees, balances, status and logs do not change it, so
/// the transfers of failed transactions count too.
pub proof fn lemma_sol_transfers_read_only_blobs(a: Seq<BlockTransaction>, b: Seq<BlockTransaction>)
    requires
        a.len() == b.len(),
        forall|i: int| 0 <= i < a.len() ==> blob_of(#[trigger] a[i]) == blob_of(b[i]),
    ensures
        sum(sol_transfers(a)) == sum(sol_transfers(b)),
{
    assert(sol_transfers(a) =~= sol_transfers(b)) by {
        assert forall|i: int| 0 <= i < a.len() implies sol_transfers(a)[i] == sol_transfers(b)[i] by {
            assert(blob_of(a[i]) == blob_of(b[i]));
        }
    }
}

/// The loop never goes back: the next block to index never decreases.
pub proof fn lemma_step_monotone(s: IndexerState, head: Option<u64>)
    ensures
        spec_step(s, head).0.next_block_height >= s.next_block_height,
{
}

/// A batch starts at the next block to index, ends where the next batch
/// starts, so that no block is skipped or stored twice, and stays more than
/// the margin behind the newest slot.
pub proof fn lemma_batch_contiguous_and_behind_head(s: IndexerState, head: Option<u64>)
    ensures
        spec_step(s, head).1 matches IndexerAction::IndexBlocks { first_block, count, pause_ms } ==> {
            &&& first_block == s.next_block_height
            &&& spec_step(s, head).0.next_block_height == first_block + count
            &&& head matches Some(h) && first_block + count + MARGIN_CALL < h
        },
        !(spec_step(s, head).1 is IndexBlocks) ==> spec_step(s, head).0 == s,
{
}

/// A transaction of one instruction moves what that instruction transfers:
/// where the instruction runs on the system program and its data decodes to a
/// transfer (tag 2) or a transfer with seed (tag 11), the little-endian
/// amount that follows the tag; otherwise nothing.
pub proof fn lemma_single_instruction_transfer(tx: TransactionView)
    requires
        tx.instructions.len() == 1,
        tx.well_formed(),
    ensures
        ({
            let data = tx.instructions[0].data;
            let tag = u32_le(data, 0);
            spec_sol_transfer_in_transaction(tx) == if tx.account_keys[tx.instructions[0].program_id_index as int]
                == system_program_key() && spec_system_instruction_decodes(data) && (tag == 2 || tag == 11) {
                u64_le(data, 4)
            } else {
                0
            }
        }),
{
    let data = tx.instructions[0].data;
    let s = instruction_transfers(tx);
    assert(s.drop_last().len() == 0);
    assert(sum(s.drop_last()) == 0);
    assert(s.last() == s[0]);
    assert(sum(s) == s[0]);
    let a = u32_le(data, 4);
    let b = u32_le(data, 8);
    assert(0 <= a <= 0xffff_ffff);
    assert(0 <= b <= 0xffff_ffff);
    assert(0 <= u64_le(data, 4) <= 0xffff_ffff_ffff_ffff);
}

/// A block of one transaction moves what that transaction moves once decoded,
/// and nothing where its blob does not decode.
pub proof fn lemma_single_transaction_block(response: BlockResponse, t: BlockTransaction)
    requires
        response.result.transactions@ == seq![t],
    ensures
        spec_decode_transaction(blob_of(t)) matches Some(v) ==> spec_sol_transfer_in_block(response)
            == spec_sol_transfer_in_transaction(v),
        spec_decode_transaction(blob_of(t)) is None ==> spec_sol_transfer_in_block(response) == 0,
{
    let s = sol_transfers(response.result.transactions@);
    assert(s.drop_last().len() == 0);
    assert(sum(s.drop_last()) == 0);
    assert(s.last() == s[0]);
    assert(sum(s) == s[0]);
}

/// The fee of a block is read from its transactions' fees alone: two blocks
/// with the same transactions have the same fee, whatever their rewards.
pub proof fn lemma_fee_reads_only_transactions(r1: BlockResponse, r2: BlockResponse)
    requires
        r1.result.transactions@ == r2.result.transactions@,
    ensures
        spec_fee_in_block(r1) == spec_fee_in_block(r2),
{
}

/// A block without transactions has no fee; a block of one transaction has
/// that transaction's fee.
pub proof fn lemma_fee_of_small_blocks(response: BlockResponse)
    ensures
        response.result.transactions@.len() == 0 ==> spec_fee_in_block(response) == 0,
        response.result.transactions@.len() == 1 ==> spec_fee_in_block(response)
            == response.result.transactions@[0].meta.fee,
{
    let s = fees(response.result.transactions@);
    if s.len() == 1 {
        assert(s.drop_last().len() == 0);
        assert(sum(s.drop_last()) == 0);
        assert(sum(s) == s[0]);
    }
}

/// The block row keeps the low 64 bits of each metric, and so each metric
/// itself wherever it fits in an `i64`.
pub proof fn lemma_block_record_keeps_metrics(
    block_number: u128,
    timestamp: u128,
    transaction_number: u128,
    sol_transfer: u128,
    fee: u128,
)
    ensures
        ({
            let r = spec_block_record(block_number, timestamp, transaction_number, sol_transfer, fee);
            &&& r.block_number as u64 == block_number as u64
            &&& r.timestamp as u64 == timestamp as u64
            &&& r.transaction_number as u64 == transaction_number as u64
            &&& r.sol_transfer as u64 == sol_transfer as u64
            &&& r.fee as u64 == fee as u64
            &&& block_number <= i64::MAX ==> r.block_number == block_number
            &&& timestamp <= i64::MAX ==> r.timestamp == timestamp
            &&& transaction_number <= i64::MAX ==> r.transaction_number == transaction_number
            &&& sol_transfer <= i64::MAX ==> r.sol_transfer == sol_transfer
            &&& fee <= i64::MAX ==> r.fee == fee
        }),
{
    lemma_cast_keeps_low_bits(block_number);
    lemma_cast_keeps_low_bits(timestamp);
    lemma_cast_keeps_low_bits(transaction_number);
    lemma_cast_keeps_low_bits(sol_transfer);
    lemma_cast_keeps_low_bits(fee);
}

proof fn lemma_cast_keeps_low_bits(x: u128)
    ensures
        (x as i64) as u64 == x as u64,
        x <= i64::MAX ==> x as i64 == x,
{
    assert((x as i64) as u64 == x as u64) by (bit_vector);
    assert(x <= 0x7fff_ffff_ffff_ffff ==> (x as i64) as u128 == x) by (bit_vector);
}

/// The loop indexes whenever it can: when more than a batch and the margin
/// lie between the next block and the newest slot, it fetches the batch that
/// starts at the next block and moves past it; otherwise it waits without
/// moving; without an answer from the node it asks again.
pub proof fn lemma_step_progress(s: IndexerState, head: u64)
    ensures
        s.next_block_height + MAX_RPC_CALL + MARGIN_CALL < head ==> spec_step(s, Some(head)) == (
            IndexerState { next_block_height: (s.next_block_height + MAX_RPC_CALL) as u64 },
            IndexerAction::IndexBlocks {
                first_block: s.next_block_height,
                count: MAX_RPC_CALL,
                pause_ms: BATCH_PAUSE_MS,
            },
        ),
        s.next_block_height + MAX_RPC_CALL + MARGIN_CALL >= head ==> spec_step(s, Some(head)) == (
            s,
            IndexerAction::Wait { pause_ms: IDLE_PAUSE_MS },
        ),
        spec_step(s, None) == (s, IndexerAction::Retry),
        MAX_RPC_CALL == 8,
        MARGIN_CALL == 1,
        BATCH_PAUSE_MS == 2200,
        IDLE_PAUSE_MS == 300,
{
}

/// The accounts of a transaction reach exactly as far as the shortest of its
/// keys, balances after and balances before; each keeps its key, its balance
/// after wherever that fits in a `u64`, and is new exactly when its balance
/// before was 0.
pub proof fn lemma_accounts_of_facts(
    accounts: Seq<Account>,
    keys: Seq<Seq<u8>>,
    post_balances: Seq<u128>,
    pre_balances: Seq<u128>,
)
    requires
        are_accounts_of(accounts, keys, post_balances, pre_balances),
    ensures
        accounts.len() <= keys.len(),
        accounts.len() <= post_balances.len(),
        accounts.len() <= pre_balances.len(),
        accounts.len() == keys.len() || accounts.len() == post_balances.len() || accounts.len()
            == pre_balances.len(),
        forall|i: int|
            0 <= i < accounts.len() ==> {
                &&& (#[trigger] accounts[i]).address@ == keys[i]
                &&& accounts[i].is_new_create <==> pre_balances[i] == 0
                &&& post_balances[i] <= u64::MAX ==> accounts[i].balance == post_balances[i]
            },
{
}

/// The account entries of a list of transactions followed by another are
/// those of the first followed by those of the second.
pub proof fn lemma_block_entries_append(a: Seq<BlockTransaction>, b: Seq<BlockTransaction>)
    ensures
        block_entries(a + b) == block_entries(a) + block_entries(b),
    decreases b.len(),
{
    if b.len() == 0 {
        assert(a + b =~= a);
        assert(block_entries(a) + block_entries(b) =~= block_entries(a));
    } else {
        assert((a + b).drop_last() =~= a + b.drop_last());
        lemma_block_entries_append(a, b.drop_last());
        assert(block_entries(a + b) =~= block_entries(a) + block_entries(b));
    }
}

/// A single transaction contributes its own account entries: its keys paired
/// with its balances after and before, position by position.
pub proof fn lemma_single_transaction_entries(t: BlockTransaction)
    ensures
        block_entries(seq![t]) == transaction_entries(t),
        forall|i: int|
            0 <= i < transaction_entries(t).len() ==> #[trigger] transaction_entries(t)[i] == (
                decoded_account_keys(t)[i],
                t.meta.post_balances@[i],
                t.meta.pre_balances@[i],
            ),
{
    let one = seq![t];
    assert(one.drop_last() =~= Seq::<BlockTransaction>::empty());
    assert(block_entries(one.drop_last()) =~= Seq::empty());
    assert(one.last() == t);
    assert(block_entries(one) =~= transaction_entries(t));
}

} // verus!
