//! A single admission slot.
//!
//! A slot is one 64-bit word. Bit 0 is the busy flag; bits 1 to 63 carry a
//! fragment of the payload while the slot is held. A free slot holds the
//! word 0; a held slot holds `(payload << 1) | 1`, which is never 0. The
//! hold lasts only for the bounded unit of work inside a single
//! `claim_or_reject` call, so from the outside a slot is only ever observed
//! free.

use vstd::prelude::*;

verus! {

/// Multiplier of the placeholder unit of work performed while a slot is
/// held.
pub const WORK_SALT: u64 = 0x517C_C1B7;

/// One admission slot. Its view is the raw 64-bit word.
pub struct SlotCell {
    word: u64,
}

impl View for SlotCell {
    type V = u64;

    closed spec fn view(&self) -> u64 {
        self.word
    }
}

/// The word a held slot carries for `payload`: the payload fragment shifted
/// over the busy bit. Always odd, hence never the free word 0.
pub open spec fn spec_held_word(payload: u64) -> u64 {
    (payload << 1) | 1
}

impl SlotCell {
    /// A fresh slot is free.
    pub fn new() -> (slot: SlotCell)
        ensures
            slot@ == 0,
    {
        SlotCell { word: 0 }
    }

    /// The raw word, as observable from outside a claim.
    pub fn raw_word(&self) -> (word: u64)
        ensures
            word == self@,
    {
        self.word
    }

    /// Attempts one admission on this slot.
    ///
    /// A busy slot rejects immediately, with no mutation and no retry: one
    /// failed attempt is a final collision for this call. A free slot is
    /// claimed with the held word for `payload`, a bounded placeholder unit
    /// of work runs while the slot is held, and the slot is released by
    /// storing 0 back. Either way the call leaves the slot exactly as it
    /// found it, and it admits exactly the calls that found the slot free.
    pub fn claim_or_reject(&mut self, payload: u64) -> (admitted: bool)
        ensures
            *final(self) == *old(self),
            admitted <==> old(self)@ == 0,
    {
        if self.word != 0 {
            return false;
        }
        self.word = (payload << 1) | 1;
        let _work: u64 = payload.wrapping_mul(WORK_SALT);
        self.word = 0;
        true
    }
}

} // verus!
