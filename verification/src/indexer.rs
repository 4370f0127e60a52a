//! The decisions of the indexer's polling loop: given the next block to
//! index and what the node reports as its newest slot, whether to fetch a
//! batch of blocks, wait, or ask again.

use vstd::prelude::*;

verus! {

/// Blocks fetched and stored in one batch.
pub const MAX_RPC_CALL: u64 = 8;

/// Slots kept between the last indexed block and the newest one.
pub const MARGIN_CALL: u64 = 1;

/// Calls that the node allows for one method in ten seconds.
pub const LIMIT_SINGLE_RPC_PER_10SEC: u64 = 40;

/// Pause after a batch, so that the batch stays within the node's limit:
/// eleven seconds spread over the allowed calls, once per call of the batch.
pub const BATCH_PAUSE_MS: u64 = (10000 + 1000) / LIMIT_SINGLE_RPC_PER_10SEC * MAX_RPC_CALL;

/// Pause when no new block is available.
pub const IDLE_PAUSE_MS: u64 = 300;

/// What the loop does next.
#[derive(Clone, Copy, Debug, PartialEq, Eq, Structural)]
pub enum IndexerAction {
    /// Fetch and store the blocks `first_block .. first_block + count`, then
    /// pause.
    IndexBlocks { first_block: u64, count: u64, pause_ms: u64 },
    /// Pause, then ask for the newest slot again.
    Wait { pause_ms: u64 },
    /// The newest slot could not be had: ask again at once.
    Retry,
}

/// The state of the loop: the next block to index.
#[derive(Clone, Copy, Debug, PartialEq, Eq, Structural)]
pub struct IndexerState {
    pub next_block_height: u64,
}

/// The state in which the loop starts: the newest slot when it starts is the
/// first block it indexes.
pub fn initial_state(current_block_height: u64) -> (s: IndexerState)
    ensures
        s.next_block_height == current_block_height,
{
    IndexerState { next_block_height: current_block_height }
}

/// A state from which the loop can go on: the comparison with the newest
/// slot, `next_block_height + MAX_RPC_CALL + MARGIN_CALL`, fits in a `u64`.
pub open spec fn can_step(s: IndexerState) -> bool {
    s.next_block_height + MAX_RPC_CALL + MARGIN_CALL <= u64::MAX
}

/// The decision for a state and the newest slot, `None` where the node did
/// not answer: a batch when more than a batch and the margin lie between the
/// next block and the newest slot, else a pause.
pub open spec fn spec_step(s: IndexerState, current_block_height: Option<u64>) -> (IndexerState, IndexerAction) {
    match current_block_height {
        None => (s, IndexerAction::Retry),
        Some(head) => if s.next_block_height + MAX_RPC_CALL + MARGIN_CALL < head {
            (
                IndexerState { next_block_height: (s.next_block_height + MAX_RPC_CALL) as u64 },
                IndexerAction::IndexBlocks {
                    first_block: s.next_block_height,
                    count: MAX_RPC_CALL,
                    pause_ms: BATCH_PAUSE_MS,
                },
            )
        } else {
            (s, IndexerAction::Wait { pause_ms: IDLE_PAUSE_MS })
        },
    }
}

/// The next state and action of the loop.
pub fn step(s: IndexerState, current_block_height: Option<u64>) -> (r: (IndexerState, IndexerAction))
    requires
        can_step(s),
    ensures
        r == spec_step(s, current_block_height),
{
    match current_block_height {
        None => (s, IndexerAction::Retry),
        Some(head) => {
            if s.next_block_height + MAX_RPC_CALL + MARGIN_CALL < head {
                (
                    IndexerState { next_block_height: s.next_block_height + MAX_RPC_CALL },
                    IndexerAction::IndexBlocks {
                        first_block: s.next_block_height,
                        count: MAX_RPC_CALL,
                        pause_ms: BATCH_PAUSE_MS,
                    },
                )
            } else {
                (s, IndexerAction::Wait { pause_ms: IDLE_PAUSE_MS })
            }
        },
    }
}

} // verus!
