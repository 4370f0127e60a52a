//! The rows that the indexer stores for a block and for each account that
//! its transactions name.

use crate::block::{
    Account, BlockResponse, BlockResult, BlockTransaction, all_base64, are_accounts_of,
    checked_sol_transfer_in_block, decoded_account_keys, decodes, fees, min3,
    try_get_accounts_in_block,
    get_fee_in_block, get_sol_transfer_in_block, spec_fee_in_block, spec_sol_transfer_in_block,
};
use crate::solana::{pubkey_to_string, spec_pubkey_to_string};
use crate::sum::{lemma_sum_prefix_le, lemma_sum_take_next, sum};
use vstd::prelude::*;

verus! {

/// The row stored for a block.
pub struct SolanaBlock {
    pub block_number: i64,
    pub timestamp: i64,
    pub transaction_number: i64,
    pub sol_transfer: i64,
    pub fee: i64,
}

/// The row stored for an account named in a block.
pub struct SolanaAddress<'a> {
    pub block_number: i64,
    pub timestamp: i64,
    pub address: &'a str,
    pub is_new_create: bool,
    pub balance: i64,
}

/// The block row for the given metrics; each is stored as an `i64`,
/// keeping its low 64 bits.
pub open spec fn spec_block_record(
    block_number: u128,
    timestamp: u128,
    transaction_number: u128,
    sol_transfer: u128,
    fee: u128,
) -> SolanaBlock {
    SolanaBlock {
        block_number: block_number as i64,
        timestamp: timestamp as i64,
        transaction_number: transaction_number as i64,
        sol_transfer: sol_transfer as i64,
        fee: fee as i64,
    }
}

/// The block row for the given metrics.
pub fn block_record(
    block_number: u128,
    timestamp: u128,
    transaction_number: u128,
    sol_transfer: u128,
    fee: u128,
) -> (r: SolanaBlock)
    ensures
        r == spec_block_record(block_number, timestamp, transaction_number, sol_transfer, fee),
{
    SolanaBlock {
        block_number: block_number as i64,
        timestamp: timestamp as i64,
        transaction_number: transaction_number as i64,
        sol_transfer: sol_transfer as i64,
        fee: fee as i64,
    }
}

/// The account row for the given values; numbers are stored as `i64`,
/// keeping their low 64 bits.
pub fn address_record<'a>(
    block_number: u128,
    timestamp: u128,
    address: &'a str,
    is_new_create: bool,
    balance: u128,
) -> (r: SolanaAddress<'a>)
    ensures
        r.block_number == block_number as i64,
        r.timestamp == timestamp as i64,
        r.address@ == address@,
        r.is_new_create == is_new_create,
        r.balance == balance as i64,
{
    SolanaAddress {
        block_number: block_number as i64,
        timestamp: timestamp as i64,
        address,
        is_new_create,
        balance: balance as i64,
    }
}

/// The number of a block: the slot after its parent's.
pub fn block_number_of(result: &BlockResult) -> (r: u128)
    requires
        result.parent_slot < u128::MAX,
    ensures
        r == result.parent_slot + 1,
{
    result.parent_slot + 1
}

/// The block row of a response: its number, time, transaction count, the SOL
/// its transfers move and its fees.
pub open spec fn spec_solana_block_of(response: BlockResponse) -> SolanaBlock {
    spec_block_record(
        (response.result.parent_slot + 1) as u128,
        response.result.block_time,
        response.result.transactions.len() as u128,
        spec_sol_transfer_in_block(response) as u128,
        spec_fee_in_block(response) as u128,
    )
}

/// The row stored for a block.
pub fn solana_block_of(response: &BlockResponse) -> (r: SolanaBlock)
    requires
        response.result.parent_slot < u128::MAX,
        all_base64(response.result.transactions@),
        spec_sol_transfer_in_block(*response) <= u128::MAX,
        spec_fee_in_block(*response) <= u128::MAX,
    ensures
        r == spec_solana_block_of(*response),
{
    let transaction_number: usize = response.result.transactions.len();
    let timestamp: u128 = response.result.block_time;
    let block_number: u128 = block_number_of(&response.result);
    let sol_transfer: u128 = get_sol_transfer_in_block(response);
    let fee: u128 = get_fee_in_block(response);
    block_record(block_number, timestamp, transaction_number as u128, sol_transfer, fee)
}

/// The sum of the block's fees, `None` where it does not fit in a `u128`.
pub fn checked_fee_in_block(response: &BlockResponse) -> (r: Option<u128>)
    ensures
        r == (if spec_fee_in_block(*response) <= u128::MAX {
            Some(spec_fee_in_block(*response) as u128)
        } else {
            None::<u128>
        }),
{
    let txs = &response.result.transactions;
    let ghost s = fees(txs@);
    let mut fee: u128 = 0;
    let mut i: usize = 0;
    while i < txs.len()
        invariant
            i <= txs.len(),
            txs == &response.result.transactions,
            s == fees(txs@),
            s.len() == txs.len(),
            fee == sum(s.take(i as int)),
        decreases txs.len() - i,
    {
        proof {
            lemma_sum_take_next(s, i as int);
            lemma_sum_prefix_le(s, i + 1);
        }
        match fee.checked_add(txs[i].meta.fee) {
            Some(next) => {
                fee = next;
            },
            None => {
                return None;
            },
        }
        i = i + 1;
    }
    assert(s.take(txs.len() as int) =~= s);
    Some(fee)
}

/// The row stored for a block; `None` where the block has no successor slot,
/// a transaction is not given in base64, or a total does not fit in a `u128`.
pub fn try_solana_block_of(response: &BlockResponse) -> (r: Option<SolanaBlock>)
    ensures
        r is Some <==> {
            &&& response.result.parent_slot < u128::MAX
            &&& all_base64(response.result.transactions@)
            &&& spec_sol_transfer_in_block(*response) <= u128::MAX
            &&& spec_fee_in_block(*response) <= u128::MAX
        },
        r matches Some(b) ==> b == spec_solana_block_of(*response),
{
    if response.result.parent_slot == u128::MAX {
        return None;
    }
    if checked_sol_transfer_in_block(response).is_none() {
        return None;
    }
    if checked_fee_in_block(response).is_none() {
        return None;
    }
    Some(solana_block_of(response))
}

/// What is stored of one account of a block, before the numbers are
/// narrowed to the row's `i64`s.
pub struct AddressRow {
    pub block_number: u128,
    pub timestamp: u128,
    pub address: String,
    pub is_new_create: bool,
    pub balance: u128,
}

/// The values stored for an account of the block with the given number and
/// time: its address in base58, whether it is new, and its balance.
pub fn account_row(block_number: u128, timestamp: u128, account: &Account) -> (r: AddressRow)
    ensures
        r.block_number == block_number,
        r.timestamp == timestamp,
        r.address@ == spec_pubkey_to_string(account.address@),
        r.is_new_create == account.is_new_create,
        r.balance == account.balance as u128,
{
    AddressRow {
        block_number,
        timestamp,
        address: pubkey_to_string(&account.address),
        is_new_create: account.is_new_create,
        balance: account.balance as u128,
    }
}

/// The key and the balances after and before of each account of a block
/// transaction that decodes, in order, as far as all three lists reach.
pub open spec fn transaction_entries(t: BlockTransaction) -> Seq<(Seq<u8>, u128, u128)> {
    let keys = decoded_account_keys(t);
    let post = t.meta.post_balances@;
    let pre = t.meta.pre_balances@;
    Seq::new(
        min3(keys.len() as int, post.len() as int, pre.len() as int) as nat,
        |i: int| (keys[i], post[i], pre[i]),
    )
}

/// The account entries of all transactions, transaction after transaction.
pub open spec fn block_entries(txs: Seq<BlockTransaction>) -> Seq<(Seq<u8>, u128, u128)>
    decreases txs.len(),
{
    if txs.len() == 0 {
        Seq::empty()
    } else {
        block_entries(txs.drop_last()) + transaction_entries(txs.last())
    }
}

/// `row` is what [`account_row`] gives for the account entry `e` of the
/// block with the given number and time.
pub open spec fn is_row_of(row: AddressRow, block_number: u128, timestamp: u128, e: (Seq<u8>, u128, u128)) -> bool {
    &&& row.block_number == block_number
    &&& row.timestamp == timestamp
    &&& row.address@ == spec_pubkey_to_string(e.0)
    &&& row.is_new_create == (e.2 == 0)
    &&& row.balance == (e.1 as u64) as u128
}

/// The rows stored for the accounts of a block: for each transaction in
/// order, for each of its accounts in order, the [`account_row`] with the
/// block's number and time. `None` where the block has no successor slot, or
/// a transaction is not given in base64 or does not decode.
pub fn address_rows_of(response: &BlockResponse) -> (r: Option<Vec<AddressRow>>)
    ensures
        r is Some <==> {
            &&& response.result.parent_slot < u128::MAX
            &&& all_base64(response.result.transactions@)
            &&& forall|i: int|
                0 <= i < response.result.transactions@.len() ==> decodes(
                    #[trigger] response.result.transactions@[i],
                )
        },
        r matches Some(rows) ==> {
            let entries = block_entries(response.result.transactions@);
            &&& rows.len() == entries.len()
            &&& forall|k: int|
                0 <= k < rows.len() ==> is_row_of(
                    #[trigger] rows@[k],
                    (response.result.parent_slot + 1) as u128,
                    response.result.block_time,
                    entries[k],
                )
        },
{
    if response.result.parent_slot == u128::MAX {
        return None;
    }
    let accounts_in_block: Vec<Vec<Account>> = match try_get_accounts_in_block(response) {
        Some(a) => a,
        None => {
            return None;
        },
    };
    let block_number: u128 = block_number_of(&response.result);
    let timestamp: u128 = response.result.block_time;
    let ghost txs = response.result.transactions@;
    let mut rows: Vec<AddressRow> = Vec::new();
    let mut i: usize = 0;
    while i < accounts_in_block.len()
        invariant
            i <= accounts_in_block.len(),
            accounts_in_block.len() == txs.len(),
            txs == response.result.transactions@,
            block_number == response.result.parent_slot + 1,
            timestamp == response.result.block_time,
            forall|t: int|
                0 <= t < accounts_in_block.len() ==> are_accounts_of(
                    #[trigger] accounts_in_block@[t]@,
                    decoded_account_keys(txs[t]),
                    txs[t].meta.post_balances@,
                    txs[t].meta.pre_balances@,
                ),
            rows.len() == block_entries(txs.take(i as int)).len(),
            forall|k: int|
                0 <= k < rows.len() ==> is_row_of(
                    #[trigger] rows@[k],
                    block_number,
                    timestamp,
                    block_entries(txs.take(i as int))[k],
                ),
        decreases accounts_in_block.len() - i,
    {
        let accounts: &Vec<Account> = &accounts_in_block[i];
        let ghost before = block_entries(txs.take(i as int));
        let ghost es = transaction_entries(txs[i as int]);
        assert(are_accounts_of(
            accounts@,
            decoded_account_keys(txs[i as int]),
            txs[i as int].meta.post_balances@,
            txs[i as int].meta.pre_balances@,
        ));
        assert(es.len() == accounts.len());
        let mut j: usize = 0;
        while j < accounts.len()
            invariant
                j <= accounts.len(),
                es.len() == accounts.len(),
                es == transaction_entries(txs[i as int]),
                are_accounts_of(
                    accounts@,
                    decoded_account_keys(txs[i as int]),
                    txs[i as int].meta.post_balances@,
                    txs[i as int].meta.pre_balances@,
                ),
                rows.len() == before.len() + j,
                forall|k: int|
                    0 <= k < rows.len() ==> is_row_of(#[trigger] rows@[k], block_number, timestamp, (before + es)[k]),
            decreases accounts.len() - j,
        {
            let row: AddressRow = account_row(block_number, timestamp, &accounts[j]);
            assert(is_row_of(row, block_number, timestamp, es[j as int]));
            rows.push(row);
            j = j + 1;
        }
        assert(txs.take(i + 1).drop_last() =~= txs.take(i as int));
        assert(block_entries(txs.take(i + 1)) == before + es);
        i = i + 1;
    }
    assert(txs.take(txs.len() as int) =~= txs);
    Some(rows)
}

} // verus!
