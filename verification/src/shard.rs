//! A shard: one power-of-two partition of the slot space.
//!
//! A shard owns a fixed array of slots whose length is a power of two, plus
//! the matching bitmask. Any cell index, in range or not, is reduced with
//! the mask, so routing never rejects an index and never reaches outside
//! the array.

use vstd::prelude::*;
use crate::capacity::{capacity_realized, is_pow2, realize_capacity, SHARD_CELL_CEILING};
use crate::slot::SlotCell;

verus! {

/// A fixed-capacity, power-of-two-sized array of slots with mask-based
/// indexing. Its view is the sequence of raw slot words.
pub struct Shard {
    cells: Vec<SlotCell>,
    mask: usize,
}

impl View for Shard {
    type V = Seq<u64>;

    closed spec fn view(&self) -> Seq<u64> {
        self.cells@.map(|i: int, cell: SlotCell| cell@)
    }
}

/// The slot position a cell index is reduced to under a mask.
pub open spec fn spec_slot_index(cell_index: usize, mask: usize) -> int {
    (cell_index & mask) as int
}

impl Shard {
    /// The index-reduction mask.
    pub closed spec fn spec_mask(&self) -> usize {
        self.mask
    }

    /// Structural well-formedness: the capacity is a power of two between 1
    /// and the safety ceiling, and the mask is exactly capacity - 1.
    pub open spec fn wf(&self) -> bool {
        &&& 1 <= self@.len() <= SHARD_CELL_CEILING
        &&& is_pow2(self@.len() as int)
        &&& self.spec_mask() == self@.len() - 1
    }

    /// Builds a shard from a requested logical capacity: the request is
    /// clamped to the ceiling and rounded up to the next power of two, and
    /// every slot starts free.
    pub fn new(requested_cells: usize) -> (shard: Shard)
        ensures
            shard.wf(),
            capacity_realized(requested_cells as int, shard@.len() as int),
            forall|i: int| 0 <= i < shard@.len() ==> shard@[i] == 0,
    {
        let cap = realize_capacity(requested_cells);
        let mut cells: Vec<SlotCell> = Vec::new();
        while cells.len() < cap
            invariant
                cells@.len() <= cap,
                forall|i: int| 0 <= i < cells@.len() ==> cells@[i]@ == 0,
            decreases cap - cells@.len(),
        {
            cells.push(SlotCell::new());
        }
        Shard { cells, mask: cap - 1 }
    }

    /// The number of slots this shard owns.
    pub fn capacity(&self) -> (cap: usize)
        ensures
            cap == self@.len(),
    {
        self.cells.len()
    }

    /// The index-reduction mask, `capacity - 1`.
    pub fn mask(&self) -> (mask: usize)
        ensures
            mask == self.spec_mask(),
    {
        self.mask
    }

    /// The raw word of the slot a cell index reduces to.
    pub fn raw_word(&self, cell_index: usize) -> (word: u64)
        requires
            self.wf(),
        ensures
            word == self@[spec_slot_index(cell_index, self.spec_mask())],
    {
        let slot = cell_index & self.mask;
        proof {
            lemma_masked_index_in_bounds(self, cell_index);
        }
        self.cells[slot].raw_word()
    }

    /// Routes one admission attempt to the slot the cell index reduces to.
    ///
    /// Every `usize` cell index is valid: out-of-range values are wrapped
    /// into range by the mask, never rejected. The attempt admits exactly
    /// when the selected slot was free, and the shard's slots are left as
    /// they were found.
    pub fn route(&mut self, cell_index: usize, payload: u64) -> (admitted: bool)
        requires
            old(self).wf(),
        ensures
            final(self).wf(),
            final(self)@ == old(self)@,
            final(self).spec_mask() == old(self).spec_mask(),
            admitted <==> old(self)@[spec_slot_index(cell_index, old(self).spec_mask())] == 0,
    {
        let slot = cell_index & self.mask;
        proof {
            lemma_masked_index_in_bounds(self, cell_index);
        }
        let cell = &mut self.cells[slot];
        let admitted = cell.claim_or_reject(payload);
        proof {
            assert(self.cells@ =~= old(self).cells@);
        }
        admitted
    }
}

/// Masked indexing stays in bounds: for a well-formed shard and any
/// `usize` cell index, the reduced index is below the capacity.
pub proof fn lemma_masked_index_in_bounds(shard: &Shard, cell_index: usize)
    requires
        shard.wf(),
    ensures
        0 <= spec_slot_index(cell_index, shard.spec_mask()) < shard@.len(),
{
    let mask = shard.spec_mask();
    assert(cell_index & mask <= mask) by (bit_vector);
}

} // verus!
