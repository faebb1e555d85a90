//! The dispatch table: 32 shards and the admission operation.
//!
//! An admission computes the three biases, mixes them into a 64-bit
//! dispatch hash, takes the shard index from the low 5 bits and the cell
//! selector from the remaining high bits (so the two stay statistically
//! decorrelated), and routes the request to the selected shard.

use vstd::prelude::*;
use crate::capacity::{capacity_realized, SHARD_CELL_CEILING};
use crate::security::{
    abuse_bias, license_bias, spec_abuse_bias, spec_license_bias, spec_watermark, watermark,
};
use crate::shard::{spec_slot_index, Shard};

verus! {

/// Number of shards a table owns; fixed, not a runtime parameter.
pub const SHARD_COUNT: usize = 32;

/// Golden-ratio seed of the dispatch multiplier.
pub const GOLDEN_RATIO_SEED: u64 = 0x9E37_79B1;

/// The 64-bit dispatch hash: the request id multiplied (with wraparound) by
/// the golden-ratio seed xor the watermark, shifted by the license bias
/// (wraparound addition) and the abuse bias (xor).
pub open spec fn spec_dispatch_hash(
    request_id: u64,
    identity_key: u64,
    license_valid: bool,
    abuse_level: u8,
) -> u64 {
    request_id.wrapping_mul(
        GOLDEN_RATIO_SEED ^ spec_watermark(request_id, identity_key),
    ).wrapping_add(spec_license_bias(license_valid)) ^ spec_abuse_bias(abuse_level)
}

/// The shard a dispatch hash selects: its low 5 bits.
pub open spec fn spec_shard_index(hash: u64) -> int {
    ((hash as usize) & 31) as int
}

/// The cell selector a dispatch hash carries: its remaining high bits. The
/// selected shard reduces it further with its own mask.
pub open spec fn spec_cell_selector(hash: u64) -> usize {
    (hash as usize) >> 5
}

/// A fixed collection of 32 shards, shared by every admission. Its view is
/// the per-shard sequence of raw slot words.
pub struct DispatchTable {
    shards: Vec<Shard>,
}

impl View for DispatchTable {
    type V = Seq<Seq<u64>>;

    open spec fn view(&self) -> Seq<Seq<u64>> {
        self.spec_shards().map(|i: int, shard: Shard| shard@)
    }
}

impl DispatchTable {
    /// The shards the table owns.
    pub closed spec fn spec_shards(&self) -> Seq<Shard> {
        self.shards@
    }

    /// Structural well-formedness: exactly 32 shards, each well-formed.
    pub open spec fn wf(&self) -> bool {
        &&& self.spec_shards().len() == SHARD_COUNT
        &&& forall|s: int|
            0 <= s < self.spec_shards().len() ==> (#[trigger] self.spec_shards()[s]).wf()
    }

    /// Builds a table of 32 shards, each with the same requested logical
    /// capacity and every slot free.
    pub fn new(cells_per_shard: usize) -> (table: DispatchTable)
        ensures
            table.wf(),
            table@.len() == SHARD_COUNT,
            forall|s: int|
                0 <= s < SHARD_COUNT ==> capacity_realized(
                    cells_per_shard as int,
                    (#[trigger] table@[s]).len() as int,
                ),
            forall|s: int, c: int|
                0 <= s < SHARD_COUNT && 0 <= c < table@[s].len() ==> table@[s][c] == 0,
    {
        let mut shards: Vec<Shard> = Vec::new();
        while shards.len() < SHARD_COUNT
            invariant
                shards@.len() <= SHARD_COUNT,
                forall|s: int| 0 <= s < shards@.len() ==> (#[trigger] shards@[s]).wf(),
                forall|s: int|
                    0 <= s < shards@.len() ==> capacity_realized(
                        cells_per_shard as int,
                        (#[trigger] shards@[s])@.len() as int,
                    ),
                forall|s: int, c: int|
                    0 <= s < shards@.len() && 0 <= c < shards@[s]@.len()
                        ==> #[trigger] shards@[s]@[c] == 0,
            decreases SHARD_COUNT - shards@.len(),
        {
            shards.push(Shard::new(cells_per_shard));
        }
        DispatchTable { shards }
    }

    /// The number of shards.
    pub fn shard_count(&self) -> (count: usize)
        ensures
            count == self@.len(),
    {
        self.shards.len()
    }

    /// The raw word of the slot a (shard index, cell index) pair reaches,
    /// as observable between admissions.
    pub fn raw_word(&self, shard_index: usize, cell_index: usize) -> (word: u64)
        requires
            self.wf(),
            shard_index < SHARD_COUNT,
        ensures
            word == self@[shard_index as int][spec_slot_index(
                cell_index,
                (self@[shard_index as int].len() - 1) as usize,
            )],
    {
        self.shards[shard_index].raw_word(cell_index)
    }

    /// Attempts one admission.
    ///
    /// The dispatch hash selects a shard from its low bits and a cell from
    /// its high bits; the request is admitted exactly when the slot it
    /// reaches was free. Whatever the outcome, every slot is left as the
    /// call found it, so a subsequent identical request finds the same
    /// state again.
    pub fn inject(
        &mut self,
        request_id: u64,
        identity_key: u64,
        license_valid: bool,
        abuse_level: u8,
    ) -> (admitted: bool)
        requires
            old(self).wf(),
        ensures
            final(self).wf(),
            final(self)@ == old(self)@,
            ({
                let hash = spec_dispatch_hash(request_id, identity_key, license_valid, abuse_level);
                let shard = spec_shard_index(hash);
                let mask = (old(self)@[shard].len() - 1) as usize;
                admitted <==> old(self)@[shard][spec_slot_index(spec_cell_selector(hash), mask)]
                    == 0
            }),
    {
        let hash = dispatch_hash(request_id, identity_key, license_valid, abuse_level);
        let shard_index = shard_index_of(hash);
        if shard_index >= self.shards.len() {
            // Defensive guard: with the fixed 32-shard layout this branch
            // is provably unreachable, but an out-of-range shard index must
            // degrade to a rejection, never to a fault.
            return false;
        }
        let cell_selector = cell_selector_of(hash);
        let shard = &mut self.shards[shard_index];
        let admitted = shard.route(cell_selector, request_id);
        proof {
            assert(self@ =~= old(self)@);
        }
        admitted
    }
}

/// Computes the dispatch hash for one request and its policy inputs.
pub fn dispatch_hash(
    request_id: u64,
    identity_key: u64,
    license_valid: bool,
    abuse_level: u8,
) -> (hash: u64)
    ensures
        hash == spec_dispatch_hash(request_id, identity_key, license_valid, abuse_level),
{
    let wm = watermark(request_id, identity_key);
    let lb = license_bias(license_valid);
    let ab = abuse_bias(abuse_level);
    request_id.wrapping_mul(GOLDEN_RATIO_SEED ^ wm).wrapping_add(lb) ^ ab
}

/// The shard index a dispatch hash selects.
pub fn shard_index_of(hash: u64) -> (index: usize)
    ensures
        index == spec_shard_index(hash),
        index < SHARD_COUNT,
{
    let index: usize = (hash as usize) & 31;
    proof {
        assert((hash as usize) & 31 < 32) by (bit_vector);
    }
    index
}

/// The cell selector a dispatch hash carries.
pub fn cell_selector_of(hash: u64) -> (selector: usize)
    ensures
        selector == spec_cell_selector(hash),
{
    (hash as usize) >> 5
}

/// On a table whose slots are all free, any request is admitted: the
/// derived shard index is always in range, the derived slot index is always
/// within the selected shard, and the slot it reaches is free.
pub proof fn lemma_admit_all_free(
    table: Seq<Seq<u64>>,
    request_id: u64,
    identity_key: u64,
    license_valid: bool,
    abuse_level: u8,
)
    requires
        table.len() == SHARD_COUNT,
        forall|s: int| 0 <= s < table.len() ==> 1 <= (#[trigger] table[s]).len() <= SHARD_CELL_CEILING,
        forall|s: int, c: int|
            0 <= s < table.len() && 0 <= c < table[s].len() ==> #[trigger] table[s][c] == 0,
    ensures
        ({
            let hash = spec_dispatch_hash(request_id, identity_key, license_valid, abuse_level);
            let shard = spec_shard_index(hash);
            let slot = spec_slot_index(
                spec_cell_selector(hash),
                (table[shard].len() - 1) as usize,
            );
            &&& 0 <= shard < SHARD_COUNT
            &&& 0 <= slot < table[shard].len()
            &&& table[shard][slot] == 0
        }),
{
    let hash = spec_dispatch_hash(request_id, identity_key, license_valid, abuse_level);
    let selector = spec_cell_selector(hash);
    assert((hash as usize) & 31 < 32) by (bit_vector);
    let shard = spec_shard_index(hash);
    let mask = (table[shard].len() - 1) as usize;
    assert(selector & mask <= mask) by (bit_vector);
}

} // verus!
