//! A block as the RPC node describes it, and what the indexer computes from
//! it: its fees, the SOL its transfers move, and the accounts of each
//! transaction.

use crate::decode::{base64_mode, decode_transaction, get_sol_transfer_in_transaction, is_base64_mode, spec_sol_transfer_in_transaction};
use crate::model::{Pubkey, Transaction};
use crate::solana::spec_decode_transaction;
use crate::sum::{lemma_sum_prefix_le, lemma_sum_take_next, sum};
use vstd::prelude::*;

verus! {

/// The answer to a `getConfirmedBlock` call.
pub struct BlockResponse {
    pub id: u64,
    pub jsonrpc: String,
    pub result: BlockResult,
}

/// A confirmed block.
pub struct BlockResult {
    pub block_time: u128,
    pub blockhash: String,
    pub parent_slot: u128,
    pub previous_blockhash: String,
    pub rewards: Vec<BlockReward>,
    pub transactions: Vec<BlockTransaction>,
}

/// A reward paid in a block.
pub struct BlockReward {
    pub lamports: u128,
    pub post_balance: u128,
    pub pubkey: String,
    pub reward_type: String,
}

/// A transaction of a block: its status and balances, and the encoded
/// transaction with the name of its encoding.
pub struct BlockTransaction {
    pub meta: TransactionMeta,
    pub transaction: [String; 2],
}

/// The status of a transaction in a block.
pub struct TransactionMeta {
    pub fee: u128,
    pub log_messages: Vec<String>,
    pub post_balances: Vec<u128>,
    pub pre_balances: Vec<u128>,
    pub status: TransactionStatus,
}

/// Whether a transaction succeeded.
pub struct TransactionStatus {
    pub ok: Option<String>,
}

/// The encoded transaction of a block transaction.
pub open spec fn blob_of(t: BlockTransaction) -> Seq<char> {
    t.transaction@[0]@
}

/// The name of the encoding of a block transaction.
pub open spec fn mode_of(t: BlockTransaction) -> Seq<char> {
    t.transaction@[1]@
}

/// Every transaction of the block is given in base64.
pub open spec fn all_base64(txs: Seq<BlockTransaction>) -> bool {
    forall|i: int| 0 <= i < txs.len() ==> mode_of(#[trigger] txs[i]) == base64_mode()
}

/// The fees of the transactions, in order.
pub open spec fn fees(txs: Seq<BlockTransaction>) -> Seq<nat> {
    txs.map_values(|t: BlockTransaction| t.meta.fee as nat)
}

/// The SOL that one block transaction moves: that of its decoded
/// transaction, 0 where its blob does not decode.
pub open spec fn transaction_sol_transfer(t: BlockTransaction) -> nat {
    match spec_decode_transaction(blob_of(t)) {
        Some(v) => spec_sol_transfer_in_transaction(v),
        None => 0,
    }
}

/// The SOL that each transaction moves, in order.
pub open spec fn sol_transfers(txs: Seq<BlockTransaction>) -> Seq<nat> {
    txs.map_values(|t: BlockTransaction| transaction_sol_transfer(t))
}

/// The fees of all transactions of a block.
pub open spec fn spec_fee_in_block(response: BlockResponse) -> nat {
    sum(fees(response.result.transactions@))
}

/// The SOL that all transactions of a block move.
pub open spec fn spec_sol_transfer_in_block(response: BlockResponse) -> nat {
    sum(sol_transfers(response.result.transactions@))
}

/// The sum of the fees of all transactions of the block.
pub fn get_fee_in_block(response: &BlockResponse) -> (r: u128)
    requires
        spec_fee_in_block(*response) <= u128::MAX,
    ensures
        r == spec_fee_in_block(*response),
{
    let txs: &Vec<BlockTransaction> = &response.result.transactions;
    let ghost s = fees(txs@);
    let mut fee: u128 = 0;
    let mut i: usize = 0;
    while i < txs.len()
        invariant
            i <= txs.len(),
            txs == &response.result.transactions,
            s == fees(txs@),
            s.len() == txs.len(),
            sum(s) <= u128::MAX,
            fee == sum(s.take(i as int)),
        decreases txs.len() - i,
    {
        proof {
            lemma_sum_take_next(s, i as int);
            lemma_sum_prefix_le(s, i + 1);
        }
        fee = fee + txs[i].meta.fee;
        i = i + 1;
    }
    assert(s.take(txs.len() as int) =~= s);
    fee
}

/// The SOL that one block transaction moves, decoding its blob.
fn sol_transfer_of(tx: &BlockTransaction) -> (r: u128)
    requires
        mode_of(*tx) == base64_mode(),
    ensures
        r == transaction_sol_transfer(*tx),
{
    let blob: &str = tx.transaction[0].as_str();
    let base_mode: &str = tx.transaction[1].as_str();
    match decode_transaction(blob, base_mode) {
        Some(decoded) => get_sol_transfer_in_transaction(decoded),
        None => 0,
    }
}

/// The SOL that the system-program transfers of all transactions of the
/// block move; a transaction whose blob does not decode moves none.
pub fn get_sol_transfer_in_block(response: &BlockResponse) -> (r: u128)
    requires
        all_base64(response.result.transactions@),
        spec_sol_transfer_in_block(*response) <= u128::MAX,
    ensures
        r == spec_sol_transfer_in_block(*response),
{
    let txs: &Vec<BlockTransaction> = &response.result.transactions;
    let ghost s = sol_transfers(txs@);
    let mut sol_transfer: u128 = 0;
    let mut i: usize = 0;
    while i < txs.len()
        invariant
            i <= txs.len(),
            txs == &response.result.transactions,
            all_base64(txs@),
            s == sol_transfers(txs@),
            s.len() == txs.len(),
            sum(s) <= u128::MAX,
            sol_transfer == sum(s.take(i as int)),
        decreases txs.len() - i,
    {
        proof {
            lemma_sum_take_next(s, i as int);
            lemma_sum_prefix_le(s, i + 1);
        }
        let amount: u128 = sol_transfer_of(&txs[i]);
        sol_transfer = sol_transfer + amount;
        i = i + 1;
    }
    assert(s.take(txs.len() as int) =~= s);
    sol_transfer
}

/// The SOL that the block's transfers move, `None` where a transaction is
/// not given in base64 or the total does not fit in a `u128`.
pub fn checked_sol_transfer_in_block(response: &BlockResponse) -> (r: Option<u128>)
    ensures
        r == (if all_base64(response.result.transactions@) && spec_sol_transfer_in_block(*response)
            <= u128::MAX {
            Some(spec_sol_transfer_in_block(*response) as u128)
        } else {
            None::<u128>
        }),
{
    let txs: &Vec<BlockTransaction> = &response.result.transactions;
    let ghost s = sol_transfers(txs@);
    let mut i: usize = 0;
    while i < txs.len()
        invariant
            i <= txs.len(),
            txs == &response.result.transactions,
            forall|j: int| 0 <= j < i ==> mode_of(#[trigger] txs@[j]) == base64_mode(),
        decreases txs.len() - i,
    {
        if !is_base64_mode(txs[i].transaction[1].as_str()) {
            return None;
        }
        i = i + 1;
    }
    assert(all_base64(txs@));
    let mut sol_transfer: u128 = 0;
    let mut i: usize = 0;
    while i < txs.len()
        invariant
            i <= txs.len(),
            txs == &response.result.transactions,
            all_base64(txs@),
            s == sol_transfers(txs@),
            s.len() == txs.len(),
            sol_transfer == sum(s.take(i as int)),
        decreases txs.len() - i,
    {
        proof {
            lemma_sum_take_next(s, i as int);
            lemma_sum_prefix_le(s, i + 1);
        }
        let amount: u128 = sol_transfer_of(&txs[i]);
        match sol_transfer.checked_add(amount) {
            Some(next) => {
                sol_transfer = next;
            },
            None => {
                return None;
            },
        }
        i = i + 1;
    }
    assert(s.take(txs.len() as int) =~= s);
    Some(sol_transfer)
}

/// An account that a transaction names, with its balance after the
/// transaction and whether the transaction created it.
#[derive(Clone, Copy, Debug)]
pub struct Account {
    pub address: Pubkey,
    pub balance: u64,
    pub is_new_create: bool,
}

/// The smallest of three lengths.
pub open spec fn min3(a: int, b: int, c: int) -> int {
    if a <= b && a <= c {
        a
    } else if b <= c {
        b
    } else {
        c
    }
}

/// `accounts` pairs the keys with the balances after and before, position by
/// position, as far as all three lists reach: the balance is the one after
/// (as a `u64`, truncated), and an account is new where its balance before
/// was 0.
pub open spec fn are_accounts_of(
    accounts: Seq<Account>,
    keys: Seq<Seq<u8>>,
    post_balances: Seq<u128>,
    pre_balances: Seq<u128>,
) -> bool {
    &&& accounts.len() == min3(keys.len() as int, post_balances.len() as int, pre_balances.len() as int)
    &&& forall|i: int|
        0 <= i < accounts.len() ==> {
            &&& (#[trigger] accounts[i]).address@ == keys[i]
            &&& accounts[i].balance == post_balances[i] as u64
            &&& accounts[i].is_new_create == (pre_balances[i] == 0)
        }
}

/// The accounts of a transaction from its keys and its balances after and
/// before.
pub fn accounts_of(account_keys: &Vec<Pubkey>, post_balances: &Vec<u128>, pre_balances: &Vec<u128>) -> (r: Vec<Account>)
    ensures
        are_accounts_of(r@, account_keys@.map_values(|k: Pubkey| k@), post_balances@, pre_balances@),
{
    let mut n: usize = account_keys.len();
    if post_balances.len() < n {
        n = post_balances.len();
    }
    if pre_balances.len() < n {
        n = pre_balances.len();
    }
    let mut accounts: Vec<Account> = Vec::new();
    let mut i: usize = 0;
    while i < n
        invariant
            i <= n,
            n == min3(account_keys.len() as int, post_balances.len() as int, pre_balances.len() as int),
            accounts.len() == i,
            forall|j: int|
                0 <= j < i ==> {
                    &&& (#[trigger] accounts@[j]).address@ == account_keys@[j]@
                    &&& accounts@[j].balance == post_balances@[j] as u64
                    &&& accounts@[j].is_new_create == (pre_balances@[j] == 0)
                },
        decreases n - i,
    {
        let post_balance: u128 = post_balances[i];
        let pre_balance: u128 = pre_balances[i];
        let account = Account {
            address: account_keys[i],
            balance: post_balance as u64,
            is_new_create: pre_balance == 0,
        };
        accounts.push(account);
        i = i + 1;
    }
    accounts
}

/// The blob of the block transaction decodes to a transaction.
pub open spec fn decodes(t: BlockTransaction) -> bool {
    spec_decode_transaction(blob_of(t)) is Some
}

/// The account keys of the transaction that the block transaction's blob
/// decodes to.
pub open spec fn decoded_account_keys(t: BlockTransaction) -> Seq<Seq<u8>> {
    spec_decode_transaction(blob_of(t)).unwrap().account_keys
}

/// The account keys of an encoded transaction, which must decode.
pub fn get_address_from_encoded_transaction(encoded_transaction: &String, base_mode: &str) -> (r:
    Vec<Pubkey>)
    requires
        base_mode@ == base64_mode(),
        spec_decode_transaction(encoded_transaction@) is Some,
    ensures
        r@.map_values(|k: Pubkey| k@) == spec_decode_transaction(encoded_transaction@).unwrap().account_keys,
{
    let transaction: Transaction = decode_transaction(encoded_transaction.as_str(), base_mode).unwrap();
    transaction.message.account_keys
}

/// The accounts of an encoded transaction, which must decode, given its
/// balances after and before.
pub fn get_accounts_from_encoded_transaction(
    encoded_transaction: &String,
    base_mode: &str,
    post_balances: &Vec<u128>,
    pre_balances: &Vec<u128>,
) -> (r: Vec<Account>)
    requires
        base_mode@ == base64_mode(),
        spec_decode_transaction(encoded_transaction@) is Some,
    ensures
        are_accounts_of(
            r@,
            spec_decode_transaction(encoded_transaction@).unwrap().account_keys,
            post_balances@,
            pre_balances@,
        ),
{
    let addresses: Vec<Pubkey> = get_address_from_encoded_transaction(encoded_transaction, base_mode);
    accounts_of(&addresses, post_balances, pre_balances)
}

/// The accounts of each transaction of the block, whose transactions must
/// all be given in base64 and decode.
pub fn get_accounts_in_block(br: &BlockResponse) -> (r: Vec<Vec<Account>>)
    requires
        all_base64(br.result.transactions@),
        forall|i: int| 0 <= i < br.result.transactions@.len() ==> decodes(#[trigger] br.result.transactions@[i]),
    ensures
        r.len() == br.result.transactions.len(),
        forall|i: int|
            0 <= i < r.len() ==> are_accounts_of(
                #[trigger] r@[i]@,
                decoded_account_keys(br.result.transactions@[i]),
                br.result.transactions@[i].meta.post_balances@,
                br.result.transactions@[i].meta.pre_balances@,
            ),
{
    let transactions: &Vec<BlockTransaction> = &br.result.transactions;
    let mut accounts_in_block: Vec<Vec<Account>> = Vec::new();
    let mut i: usize = 0;
    while i < transactions.len()
        invariant
            i <= transactions.len(),
            transactions == &br.result.transactions,
            all_base64(transactions@),
            forall|j: int| 0 <= j < transactions@.len() ==> decodes(#[trigger] transactions@[j]),
            accounts_in_block.len() == i,
            forall|j: int|
                0 <= j < i ==> are_accounts_of(
                    #[trigger] accounts_in_block@[j]@,
                    decoded_account_keys(transactions@[j]),
                    transactions@[j].meta.post_balances@,
                    transactions@[j].meta.pre_balances@,
                ),
        decreases transactions.len() - i,
    {
        let transaction: &BlockTransaction = &transactions[i];
        assert(mode_of(transactions@[i as int]) == base64_mode());
        assert(decodes(transactions@[i as int]));
        let encoded_transaction: &String = &transaction.transaction[0];
        let base_mode: &str = transaction.transaction[1].as_str();
        let accounts: Vec<Account> = get_accounts_from_encoded_transaction(
            encoded_transaction,
            base_mode,
            &transaction.meta.post_balances,
            &transaction.meta.pre_balances,
        );
        accounts_in_block.push(accounts);
        i = i + 1;
    }
    accounts_in_block
}

/// The accounts of each transaction of the block; `None` where some
/// transaction is not given in base64 or does not decode.
pub fn try_get_accounts_in_block(br: &BlockResponse) -> (r: Option<Vec<Vec<Account>>>)
    ensures
        r is Some <==> (all_base64(br.result.transactions@) && forall|i: int|
            0 <= i < br.result.transactions@.len() ==> decodes(#[trigger] br.result.transactions@[i])),
        r matches Some(v) ==> {
            &&& v.len() == br.result.transactions.len()
            &&& forall|i: int|
                0 <= i < v.len() ==> are_accounts_of(
                    #[trigger] v@[i]@,
                    decoded_account_keys(br.result.transactions@[i]),
                    br.result.transactions@[i].meta.post_balances@,
                    br.result.transactions@[i].meta.pre_balances@,
                )
        },
{
    let transactions: &Vec<BlockTransaction> = &br.result.transactions;
    let mut i: usize = 0;
    while i < transactions.len()
        invariant
            i <= transactions.len(),
            transactions == &br.result.transactions,
            forall|j: int| 0 <= j < i ==> mode_of(#[trigger] transactions@[j]) == base64_mode(),
            forall|j: int| 0 <= j < i ==> decodes(#[trigger] transactions@[j]),
        decreases transactions.len() - i,
    {
        let base_mode: &str = transactions[i].transaction[1].as_str();
        if !is_base64_mode(base_mode) {
            return None;
        }
        if decode_transaction(transactions[i].transaction[0].as_str(), base_mode).is_none() {
            return None;
        }
        i = i + 1;
    }
    Some(get_accounts_in_block(br))
}

} // verus!
