//! The allocation workload the profiler is meant to observe.
//!
//! On every tick the workload generator allocates one block of a fixed size
//! and retains it for the rest of the process's life, so the live heap grows
//! by that size each period, unboundedly. The permanent leak is modelled as
//! a process-lifetime arena: an append-only store of blocks that is never
//! cleared, owned by the generator task and dropped only at process exit.

use vstd::prelude::*;

verus! {

/// The total number of bytes held by a sequence of blocks.
pub open spec fn total_bytes(blocks: Seq<Vec<u8>>) -> int
    decreases blocks.len(),
{
    if blocks.len() == 0 {
        0
    } else {
        total_bytes(blocks.drop_last()) + blocks.last()@.len()
    }
}

/// The append-only store backing the workload generator: every tick adds one
/// block of `block_size` bytes, and no block is ever removed.
pub struct WorkloadArena {
    pub block_size: usize,
    pub blocks: Vec<Vec<u8>>,
}

impl WorkloadArena {
    /// Every retained block has exactly the configured size.
    pub open spec fn wf(self) -> bool {
        forall|i: int| 0 <= i < self.blocks@.len() ==> (#[trigger] self.blocks@[i])@.len()
            == self.block_size
    }

    /// How many ticks have completed: one block is retained per tick.
    pub open spec fn ticks(self) -> int {
        self.blocks@.len() as int
    }

    /// The live bytes attributable to the generator.
    pub open spec fn retained_bytes(self) -> int {
        total_bytes(self.blocks@)
    }

    /// A fresh arena that has performed no ticks and retains nothing.
    pub fn new(block_size: usize) -> (a: WorkloadArena)
        ensures
            a.wf(),
            a.block_size == block_size,
            a.ticks() == 0,
            a.retained_bytes() == 0,
    {
        WorkloadArena { block_size, blocks: Vec::new() }
    }

    /// One tick of the workload generator: allocate one block of the fixed
    /// size and retain it forever. Retained memory grows by exactly
    /// `block_size` and never shrinks.
    pub fn tick(&mut self)
        requires
            old(self).wf(),
        ensures
            final (self).wf(),
            final (self).block_size == old(self).block_size,
            final (self).ticks() == old(self).ticks() + 1,
            final (self).retained_bytes() == old(self).retained_bytes() + old(self).block_size,
    {
        let block = zero_block(self.block_size);
        let ghost before = self.blocks@;
        self.blocks.push(block);
        proof {
            assert(self.blocks@.drop_last() =~= before);
        }
    }
}

/// A freshly allocated block of `size` zero bytes.
fn zero_block(size: usize) -> (b: Vec<u8>)
    ensures
        b@.len() == size,
{
    let mut b: Vec<u8> = Vec::new();
    let mut i: usize = 0;
    while i < size
        invariant
            i <= size,
            b@.len() == i,
        decreases size - i,
    {
        b.push(0u8);
        i = i + 1;
    }
    b
}

/// In a well-formed arena the retained bytes are exactly the tick count
/// times the block size: after `n` ticks at size `s`, at least `n * s`
/// bytes are live and attributable to the generator.
pub proof fn lemma_retained_growth(a: WorkloadArena)
    requires
        a.wf(),
    ensures
        a.retained_bytes() == a.ticks() * a.block_size,
{
    lemma_total_bytes_uniform(a.blocks@, a.block_size as int);
}

/// The byte total of a sequence of equally sized blocks.
proof fn lemma_total_bytes_uniform(blocks: Seq<Vec<u8>>, size: int)
    requires
        forall|i: int| 0 <= i < blocks.len() ==> (#[trigger] blocks[i])@.len() == size,
    ensures
        total_bytes(blocks) == blocks.len() * size,
    decreases blocks.len(),
{
    if blocks.len() > 0 {
        lemma_total_bytes_uniform(blocks.drop_last(), size);
        assert(blocks.len() * size == (blocks.len() - 1) * size + size) by (nonlinear_arith);
    }
}

} // verus!
