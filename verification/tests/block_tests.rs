use indexer::block::{
    accounts_of, checked_sol_transfer_in_block, get_accounts_from_encoded_transaction,
    get_accounts_in_block, get_address_from_encoded_transaction, get_fee_in_block,
    get_sol_transfer_in_block, try_get_accounts_in_block, BlockResponse, BlockResult,
    BlockTransaction, TransactionMeta, TransactionStatus,
};
use indexer::model::Pubkey;
use indexer::records::{
    account_row, address_record, address_rows_of, block_number_of, block_record, checked_fee_in_block,
    solana_block_of, try_solana_block_of,
};

const TRANSFER_BLOB: &str = "AZkhMW7dbIZfg3bvFtC60K9u19pnj8RCvZZTv5C2FHB6pWM2HLKaBk/VjrGAnalO/u26tl85eD7T6n0LxqkimgIBAAEDClrNBKMsMKt9IZ8AiJwWnXOyVj1N+ZkcCh9K8GlRngvQbX6GZxfU+TTnG855FaE8v+EXQfNVQW+lbFylHELYQgAAAAAAAAAAAAAAAAAAAAAAAAAAAAAAAAAAAAAAAAAABAzhkJF3mQT9yv74RHe6sNTN9GnOgE9r9iaLbKF9z4oBAgIAAQwCAAAAwNRUBwAAAAA=";

fn block_transaction(blob: &str, mode: &str, fee: u128, post: Vec<u128>, pre: Vec<u128>) -> BlockTransaction {
    BlockTransaction {
        meta: TransactionMeta {
            fee,
            log_messages: vec![],
            post_balances: post,
            pre_balances: pre,
            status: TransactionStatus { ok: None },
        },
        transaction: [blob.to_string(), mode.to_string()],
    }
}

fn block(parent_slot: u128, transactions: Vec<BlockTransaction>) -> BlockResponse {
    BlockResponse {
        id: 1,
        jsonrpc: "2.0".to_string(),
        result: BlockResult {
            block_time: 1_634_000_000,
            blockhash: "hash".to_string(),
            parent_slot,
            previous_blockhash: "previous".to_string(),
            rewards: vec![],
            transactions,
        },
    }
}

fn sample_block() -> BlockResponse {
    block(
        99,
        vec![
            block_transaction(TRANSFER_BLOB, "base64", 5000, vec![10, 20, 1], vec![0, 123000020, 1]),
            block_transaction("####", "base64", 7000, vec![1], vec![1]),
            block_transaction(TRANSFER_BLOB, "base64", 5000, vec![3, 4], vec![5, 0]),
        ],
    )
}

#[test]
fn fee_of_block_is_the_sum_of_fees() {
    assert_eq!(get_fee_in_block(&sample_block()), 17000);
    assert_eq!(get_fee_in_block(&block(1, vec![])), 0);
    assert_eq!(checked_fee_in_block(&sample_block()), Some(17000));
}

#[test]
fn fee_sum_overflow_is_reported() {
    let b = block(1, vec![
        block_transaction(TRANSFER_BLOB, "base64", u128::MAX, vec![], vec![]),
        block_transaction(TRANSFER_BLOB, "base64", 1, vec![], vec![]),
    ]);
    assert_eq!(checked_fee_in_block(&b), None);
    assert!(try_solana_block_of(&b).is_none());
}

#[test]
fn sol_transfer_of_block_skips_undecodable_transactions() {
    assert_eq!(get_sol_transfer_in_block(&sample_block()), 246000000);
    assert_eq!(checked_sol_transfer_in_block(&sample_block()), Some(246000000));
    assert_eq!(get_sol_transfer_in_block(&block(1, vec![])), 0);
}

#[test]
fn sol_transfer_of_block_is_additive() {
    let one = block(1, vec![block_transaction(TRANSFER_BLOB, "base64", 1, vec![], vec![])]);
    let two = block(1, vec![block_transaction("####", "base64", 2, vec![], vec![]),
        block_transaction(TRANSFER_BLOB, "base64", 3, vec![], vec![])]);
    let both = block(1, vec![
        block_transaction(TRANSFER_BLOB, "base64", 1, vec![], vec![]),
        block_transaction("####", "base64", 2, vec![], vec![]),
        block_transaction(TRANSFER_BLOB, "base64", 3, vec![], vec![]),
    ]);
    assert_eq!(get_sol_transfer_in_block(&both), get_sol_transfer_in_block(&one) + get_sol_transfer_in_block(&two));
    assert_eq!(get_fee_in_block(&both), get_fee_in_block(&one) + get_fee_in_block(&two));
}

#[test]
fn other_encodings_are_refused_by_the_checked_functions() {
    let b = block(1, vec![block_transaction(TRANSFER_BLOB, "base58", 1, vec![], vec![])]);
    assert_eq!(checked_sol_transfer_in_block(&b), None);
    assert!(try_get_accounts_in_block(&b).is_none());
    assert!(try_solana_block_of(&b).is_none());
}

#[test]
fn accounts_pair_keys_with_balances() {
    let keys = vec![Pubkey([1u8; 32]), Pubkey([2u8; 32]), Pubkey([3u8; 32])];
    let post = vec![5u128, (1u128 << 64) + 9];
    let pre = vec![0u128, 4, 8];
    let accounts = accounts_of(&keys, &post, &pre);
    assert_eq!(accounts.len(), 2);
    assert_eq!(accounts[0].address.0, [1u8; 32]);
    assert_eq!(accounts[0].balance, 5);
    assert!(accounts[0].is_new_create);
    assert_eq!(accounts[1].address.0, [2u8; 32]);
    assert_eq!(accounts[1].balance, 9);
    assert!(!accounts[1].is_new_create);
    assert_eq!(accounts_of(&keys, &vec![], &pre).len(), 0);
}

#[test]
fn accounts_of_encoded_transactions() {
    let blob = TRANSFER_BLOB.to_string();
    let keys = get_address_from_encoded_transaction(&blob, "base64");
    assert_eq!(keys.len(), 3);
    assert_eq!(keys[2].0, [0u8; 32]);
    let accounts = get_accounts_from_encoded_transaction(&blob, "base64", &vec![10, 20, 1], &vec![0, 3, 1]);
    assert_eq!(accounts.len(), 3);
    assert_eq!(accounts[0].address.0[0], 0x0a);
    assert_eq!(accounts[1].balance, 20);
    assert!(accounts[0].is_new_create);
    assert!(!accounts[2].is_new_create);
}

#[test]
fn accounts_in_block() {
    let b = block(1, vec![
        block_transaction(TRANSFER_BLOB, "base64", 5000, vec![10, 20, 1], vec![0, 123000020, 1]),
        block_transaction(TRANSFER_BLOB, "base64", 5000, vec![3, 4], vec![5, 0]),
    ]);
    let accounts = get_accounts_in_block(&b);
    assert_eq!(accounts.len(), 2);
    assert_eq!(accounts[0].len(), 3);
    assert_eq!(accounts[1].len(), 2);
    assert!(accounts[1][1].is_new_create);
    let tried = try_get_accounts_in_block(&b).unwrap();
    assert_eq!(tried.len(), 2);
    assert_eq!(tried[0][1].balance, 20);
    assert!(try_get_accounts_in_block(&sample_block()).is_none());
}

#[test]
fn block_row_of_a_response() {
    let row = solana_block_of(&sample_block());
    assert_eq!(row.block_number, 100);
    assert_eq!(row.timestamp, 1_634_000_000);
    assert_eq!(row.transaction_number, 3);
    assert_eq!(row.sol_transfer, 246000000);
    assert_eq!(row.fee, 17000);
    let tried = try_solana_block_of(&sample_block()).unwrap();
    assert_eq!(tried.block_number, 100);
    assert!(try_solana_block_of(&block(u128::MAX, vec![])).is_none());
}

#[test]
fn rows_keep_the_low_bits() {
    let row = block_record(1, 2, 3, (1u128 << 64) + 4, u64::MAX as u128);
    assert_eq!(row.block_number, 1);
    assert_eq!(row.timestamp, 2);
    assert_eq!(row.transaction_number, 3);
    assert_eq!(row.sol_transfer, 4);
    assert_eq!(row.fee, -1);
    let address = address_record(7, 8, "addr", true, 1u128 << 63);
    assert_eq!(address.block_number, 7);
    assert_eq!(address.timestamp, 8);
    assert_eq!(address.address, "addr");
    assert!(address.is_new_create);
    assert_eq!(address.balance, i64::MIN);
}

#[test]
fn block_number_and_account_row() {
    assert_eq!(block_number_of(&sample_block().result), 100);
    let accounts = get_accounts_in_block(&block(1, vec![
        block_transaction(TRANSFER_BLOB, "base64", 1, vec![10, 20, 1], vec![0, 3, 1]),
    ]));
    let row = account_row(100, 5, &accounts[0][0]);
    assert_eq!(row.address, "hRP95UvoUkqHGSFeyG5T46rRnYpdzhA2fj9JquKfC7L");
    assert_eq!(row.block_number, 100);
    assert_eq!(row.timestamp, 5);
    assert_eq!(row.balance, 10);
    assert!(row.is_new_create);
    let system = account_row(1, 1, &accounts[0][2]);
    assert_eq!(system.address, "11111111111111111111111111111111");
}

#[test]
fn transfers_are_read_from_the_encoded_transactions_only() {
    let ok = block(1, vec![block_transaction(TRANSFER_BLOB, "base64", 5000, vec![1, 2, 3], vec![4, 5, 6])]);
    let mut failed_tx = block_transaction(TRANSFER_BLOB, "base64", 9, vec![], vec![]);
    failed_tx.meta.status.ok = Some("failed".to_string());
    failed_tx.meta.log_messages = vec!["error".to_string()];
    let failed = block(1, vec![failed_tx]);
    assert_eq!(get_sol_transfer_in_block(&ok), 123000000);
    assert_eq!(get_sol_transfer_in_block(&failed), get_sol_transfer_in_block(&ok));
}

#[test]
fn address_rows_follow_the_accounts_in_order() {
    let b = block(41, vec![
        block_transaction(TRANSFER_BLOB, "base64", 1, vec![10, 20, 1], vec![0, 3, 1]),
        block_transaction(TRANSFER_BLOB, "base64", 1, vec![7], vec![0, 0, 0]),
    ]);
    let rows = address_rows_of(&b).unwrap();
    assert_eq!(rows.len(), 4);
    assert_eq!(rows[0].address, "hRP95UvoUkqHGSFeyG5T46rRnYpdzhA2fj9JquKfC7L");
    assert_eq!(rows[0].balance, 10);
    assert!(rows[0].is_new_create);
    assert_eq!(rows[1].balance, 20);
    assert!(!rows[1].is_new_create);
    assert_eq!(rows[2].address, "11111111111111111111111111111111");
    assert_eq!(rows[3].address, "hRP95UvoUkqHGSFeyG5T46rRnYpdzhA2fj9JquKfC7L");
    assert_eq!(rows[3].balance, 7);
    for row in &rows {
        assert_eq!(row.block_number, 42);
        assert_eq!(row.timestamp, 1_634_000_000);
    }
    assert!(address_rows_of(&sample_block()).is_none());
    assert!(address_rows_of(&block(u128::MAX, vec![])).is_none());
    assert_eq!(address_rows_of(&block(1, vec![])).unwrap().len(), 0);
}
