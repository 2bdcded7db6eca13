use vstd::prelude::*;

verus! {

/// Nanoseconds in one second.
pub const NANOS_PER_SECOND: u64 = 1_000_000_000;

/// Seconds that one block lasts in the simulated chain.
pub const BLOCK_SECONDS: u64 = 5;

/// Information about the current block: its height, its time in
/// nanoseconds since the epoch, and the chain it belongs to.
#[derive(Debug)]
pub struct BlockInfo {
    pub height: u64,
    pub time: u64,
    pub chain_id: String,
}

/// The mathematical value of a [`BlockInfo`].
pub struct BlockView {
    pub height: nat,
    pub time: nat,
    pub chain_id: Seq<char>,
}

impl View for BlockInfo {
    type V = BlockView;

    open spec fn view(&self) -> BlockView {
        BlockView { height: self.height as nat, time: self.time as nat, chain_id: self.chain_id@ }
    }
}

impl BlockInfo {
    /// A copy of this block information.
    pub fn duplicate(&self) -> (res: BlockInfo)
        ensures
            res@ == self@,
    {
        BlockInfo { height: self.height, time: self.time, chain_id: self.chain_id.clone() }
    }
}

/// Whether a block can be followed by a next one without leaving the range
/// of heights and times.
pub open spec fn can_advance(block: BlockView) -> bool {
    &&& block.height + 1 <= u64::MAX
    &&& block.time + BLOCK_SECONDS * NANOS_PER_SECOND <= u64::MAX
}

/// The block that follows `block`: one higher, five seconds later, on the same chain.
pub open spec fn next_block_view(block: BlockView) -> BlockView {
    BlockView {
        height: block.height + 1,
        time: (block.time + BLOCK_SECONDS * NANOS_PER_SECOND) as nat,
        chain_id: block.chain_id,
    }
}

/// The block reached from `block` by advancing it `n` times.
pub open spec fn next_blocks(block: BlockView, n: nat) -> BlockView
    decreases n,
{
    if n == 0 {
        block
    } else {
        next_block_view(next_blocks(block, (n - 1) as nat))
    }
}

/// Advancing a block `n` times raises its height by `n` and its time by
/// `5 * n` seconds, and keeps its chain.
pub proof fn lemma_next_blocks(block: BlockView, n: nat)
    ensures
        next_blocks(block, n) == (BlockView {
            height: block.height + n,
            time: (block.time + n * 5_000_000_000) as nat,
            chain_id: block.chain_id,
        }),
    decreases n,
{
    if n > 0 {
        lemma_next_blocks(block, (n - 1) as nat);
    }
}

/// Where the block reached after `n` advances is still in range, each of the
/// `n` calls on the way may be made (every block before it can advance), and
/// height and time grow strictly with each call.
pub proof fn lemma_next_blocks_in_range(block: BlockView, n: nat, k: nat)
    requires
        k < n,
        block.height + n <= u64::MAX,
        block.time + n * 5_000_000_000 <= u64::MAX,
    ensures
        can_advance(next_blocks(block, k)),
        next_blocks(block, (k + 1) as nat) == next_block_view(next_blocks(block, k)),
        next_blocks(block, k).height < next_blocks(block, (k + 1) as nat).height,
        next_blocks(block, k).time < next_blocks(block, (k + 1) as nat).time,
{
    lemma_next_blocks(block, k);
    lemma_next_blocks(block, (k + 1) as nat);
}

/// Calls `cosmwasm_std::Timestamp::plus_seconds` on the timestamp with the
/// given nanoseconds and returns the nanoseconds of the result. Its source
/// adds `seconds * 1_000_000_000` nanoseconds with a checked addition, so the
/// result is that sum; inputs on which the sum overflows are left out.
#[verifier::external_body]
fn timestamp_plus_seconds(nanos: u64, seconds: u64) -> (res: u64)
    requires
        seconds * NANOS_PER_SECOND <= u64::MAX,
        nanos + seconds * NANOS_PER_SECOND <= u64::MAX,
    ensures
        res == nanos + seconds * NANOS_PER_SECOND,
{
    cosmwasm_std::Timestamp::from_nanos(nanos).plus_seconds(seconds).nanos()
}

/// Advances the block to the next one: the height grows by one and the time
/// by five seconds.
pub fn next_block(block: &mut BlockInfo)
    requires
        can_advance(old(block)@),
    ensures
        final(block)@ == next_block_view(old(block)@),
{
    block.time = timestamp_plus_seconds(block.time, BLOCK_SECONDS);
    block.height = block.height + 1;
}

} // verus!
