use indexer::indexer::{
    initial_state, step, IndexerAction, IndexerState, BATCH_PAUSE_MS, IDLE_PAUSE_MS, MAX_RPC_CALL,
};

#[test]
fn batch_when_enough_blocks_are_confirmed() {
    let s = initial_state(100);
    assert_eq!(s.next_block_height, 100);
    let (s, action) = step(s, Some(110));
    assert_eq!(action, IndexerAction::IndexBlocks { first_block: 100, count: 8, pause_ms: 2200 });
    assert_eq!(s.next_block_height, 108);
    assert_eq!(BATCH_PAUSE_MS, 2200);
    assert_eq!(MAX_RPC_CALL, 8);
}

#[test]
fn wait_when_too_close_to_the_head() {
    let s = IndexerState { next_block_height: 100 };
    let (s2, action) = step(s, Some(109));
    assert_eq!(action, IndexerAction::Wait { pause_ms: 300 });
    assert_eq!(s2, s);
    assert_eq!(IDLE_PAUSE_MS, 300);
    let (s3, action) = step(s, Some(5));
    assert_eq!(action, IndexerAction::Wait { pause_ms: 300 });
    assert_eq!(s3, s);
}

#[test]
fn retry_when_the_node_does_not_answer() {
    let s = IndexerState { next_block_height: 7 };
    assert_eq!(step(s, None), (s, IndexerAction::Retry));
}

#[test]
fn batches_are_contiguous_and_never_go_back() {
    let mut s = initial_state(1000);
    let mut expected_first = 1000u64;
    for head in [1000u64, 1009, 1010, 1100, 1100, 1019, 1200] {
        let before = s.next_block_height;
        let (next, action) = step(s, Some(head));
        assert!(next.next_block_height >= before);
        if let IndexerAction::IndexBlocks { first_block, count, .. } = action {
            assert_eq!(first_block, expected_first);
            assert!(first_block + count + 1 < head);
            expected_first = first_block + count;
        }
        assert_eq!(next.next_block_height, expected_first);
        s = next;
    }
    assert_eq!(s.next_block_height, 1032);
}
