use admission::capacity::SHARD_CELL_CEILING;
use admission::security::{abuse_bias, license_bias, watermark};
use admission::shard::Shard;
use admission::slot::SlotCell;
use admission::table::{cell_selector_of, dispatch_hash, shard_index_of, DispatchTable};

fn is_power_of_two(n: usize) -> bool {
    n >= 1 && n & (n - 1) == 0
}

#[test]
fn realized_capacity_is_power_of_two_within_ceiling() {
    let requests = [
        0usize,
        1,
        2,
        3,
        5,
        100,
        128,
        131_071,
        131_072,
        131_073,
        500_000_000,
        usize::MAX,
    ];
    for &requested in requests.iter() {
        let shard = Shard::new(requested);
        let cap = shard.capacity();
        assert!(is_power_of_two(cap));
        assert!(cap <= SHARD_CELL_CEILING);
        assert_eq!(shard.mask(), cap - 1);
    }
}

#[test]
fn realized_capacity_exact_values() {
    assert_eq!(Shard::new(0).capacity(), 1);
    assert_eq!(Shard::new(1).capacity(), 1);
    assert_eq!(Shard::new(2).capacity(), 2);
    assert_eq!(Shard::new(3).capacity(), 4);
    assert_eq!(Shard::new(100).capacity(), 128);
    assert_eq!(Shard::new(131_072).capacity(), 131_072);
    assert_eq!(Shard::new(131_073).capacity(), 131_072);
    assert_eq!(Shard::new(usize::MAX).capacity(), 131_072);
}

#[test]
fn route_wraps_any_cell_index_into_range() {
    let mut shard = Shard::new(8);
    // Far out of range: the mask reduces it instead of rejecting it.
    assert!(shard.route(usize::MAX, 7));
    assert!(shard.route(8, 7));
    assert!(shard.route(0, 7));
    // Every slot is released again after its admission.
    for cell_index in 0..16usize {
        assert_eq!(shard.raw_word(cell_index), 0);
    }
}

#[test]
fn slot_round_trip_releases_the_slot() {
    let mut slot = SlotCell::new();
    assert_eq!(slot.raw_word(), 0);
    assert!(slot.claim_or_reject(5));
    assert_eq!(slot.raw_word(), 0);
    // The slot was released, so an identical second attempt is admitted too.
    assert!(slot.claim_or_reject(5));
    assert_eq!(slot.raw_word(), 0);
}

#[test]
fn watermark_is_deterministic() {
    for _ in 0..3 {
        assert_eq!(watermark(1, 0), watermark(1, 0));
        assert_eq!(watermark(42, 7), watermark(42, 7));
        assert_eq!(watermark(u64::MAX, 0x1234_5678), watermark(u64::MAX, 0x1234_5678));
    }
}

#[test]
fn watermark_exact_values() {
    assert_eq!(watermark(0, 0), 0);
    assert_eq!(watermark(1, 0), 0xff51_afd7_92fd_5b26);
    assert_eq!(watermark(42, 7), 0xe15b_e8f4_c8a4_3473);
}

#[test]
fn license_bias_values() {
    for _ in 0..3 {
        assert_eq!(license_bias(true), 0);
        assert_eq!(license_bias(false), 0xA5A5_A5A5_A5A5_A5A5);
        assert_ne!(license_bias(false), 0);
    }
}

#[test]
fn abuse_bias_exact_values() {
    assert_eq!(abuse_bias(0), 0);
    assert_eq!(abuse_bias(1), 0x1111_1111_1111_1111);
    assert_eq!(abuse_bias(2), 0x2222_2222_2222_2222);
    assert_eq!(abuse_bias(15), 0xFFFF_FFFF_FFFF_FFFF);
    // Level 16 wraps around, but stays distinct from every other level.
    assert_eq!(abuse_bias(16), 0x1111_1111_1111_1110);
    assert_eq!(abuse_bias(255), 0xFFFF_FFFF_FFFF_FFEF);
}

#[test]
fn abuse_bias_distinct_per_level() {
    let mut seen: Vec<u64> = Vec::new();
    for level in 0..=255u8 {
        seen.push(abuse_bias(level));
    }
    for a in 0..seen.len() {
        for b in (a + 1)..seen.len() {
            assert_ne!(seen[a], seen[b]);
        }
    }
}

#[test]
fn dispatch_hash_exact_value() {
    let hash = dispatch_hash(1, 0, true, 0);
    assert_eq!(hash, 0xff51_afd7_0cca_2297);
    assert_eq!(shard_index_of(hash), 23);
    assert_eq!(cell_selector_of(hash), 0x07fa_8d7e_b866_5114);
    // Determinism of the whole derivation.
    assert_eq!(hash, dispatch_hash(1, 0, true, 0));
}

#[test]
fn dispatch_hash_varies_with_bias_inputs() {
    let base = dispatch_hash(99, 123_456_789, true, 0);
    assert_ne!(base, dispatch_hash(99, 123_456_789, false, 0));
    assert_ne!(base, dispatch_hash(99, 123_456_789, true, 3));
    assert_ne!(base, dispatch_hash(99, 987_654_321, true, 0));
}

#[test]
fn table_has_32_shards() {
    let table = DispatchTable::new(1);
    assert_eq!(table.shard_count(), 32);
}

#[test]
fn end_to_end_round_trip() {
    let mut table = DispatchTable::new(128);
    // First call: the whole table is free, so the derived slot is free.
    assert!(table.inject(1, 0, true, 0));
    // Identical second call: the slot was released by the first one.
    assert!(table.inject(1, 0, true, 0));
}

#[test]
fn injected_slot_reads_back_free() {
    let mut table = DispatchTable::new(128);
    let hash = dispatch_hash(1, 0, true, 0);
    let shard_index = shard_index_of(hash);
    let cell_selector = cell_selector_of(hash);
    assert_eq!(table.raw_word(shard_index, cell_selector), 0);
    assert!(table.inject(1, 0, true, 0));
    assert_eq!(table.raw_word(shard_index, cell_selector), 0);
}

#[test]
fn inject_is_admitted_on_any_fresh_table() {
    let mut tiny = DispatchTable::new(0);
    assert!(tiny.inject(99, 123_456_789, false, 3));
    assert!(tiny.inject(u64::MAX, u64::MAX, true, 255));
    let mut larger = DispatchTable::new(1000);
    assert!(larger.inject(99, 123_456_789, false, 3));
    assert!(larger.inject(u64::MAX, u64::MAX, true, 255));
}
