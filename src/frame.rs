//! A PPM frame: its geometry, the valid pulse-width range, and the validity
//! filter applied to a completed frame.

use vstd::prelude::*;

verus! {

/// Slots in a frame: one per channel plus one for the sync gap.
pub const FRAME_SLOTS: usize = 9;

/// Leading slots that hold channel pulse widths and are checked for validity.
pub const CHANNEL_SLOTS: usize = 8;

/// Shortest accepted channel pulse width, in ticks.
pub const PULSE_MIN: u16 = 1000;

/// Longest accepted channel pulse width, in ticks.
pub const PULSE_MAX: u16 = 2000;

/// An inter-edge gap longer than this many ticks is the frame's sync pulse.
pub const SYNC_GAP_THRESHOLD: u32 = 2100;

/// A channel pulse width lies in the physical PPM range.
pub open spec fn pulse_in_range(p: u16) -> bool {
    PULSE_MIN <= p <= PULSE_MAX
}

/// Every channel slot of the frame holds an in-range pulse width; the sync-gap
/// slot is not inspected.
pub open spec fn frame_valid(frame: Seq<u16>) -> bool {
    forall|i: int| 0 <= i < CHANNEL_SLOTS ==> #[trigger] pulse_in_range(frame[i])
}

/// Decides whether a completed frame may be acted upon.
pub fn filters(ppm_data: &[u16; FRAME_SLOTS]) -> (valid: bool)
    ensures
        valid == frame_valid(ppm_data@),
{
    let mut i: usize = 0;
    while i < CHANNEL_SLOTS
        invariant
            0 <= i <= CHANNEL_SLOTS,
            ppm_data@.len() == FRAME_SLOTS,
            forall|j: int| 0 <= j < i ==> #[trigger] pulse_in_range(ppm_data@[j]),
        decreases CHANNEL_SLOTS - i,
    {
        let ppm = ppm_data[i];
        if ppm < PULSE_MIN || ppm > PULSE_MAX {
            assert(!pulse_in_range(ppm_data@[i as int]));
            return false;
        }
        i += 1;
    }
    true
}

/// Validity never depends on the sync-gap slot: overwriting it with any value
/// leaves the verdict unchanged.
pub proof fn lemma_sync_slot_ignored(frame: Seq<u16>, gap: u16)
    requires
        frame.len() == FRAME_SLOTS,
    ensures
        frame_valid(frame.update(CHANNEL_SLOTS as int, gap)) == frame_valid(frame),
{
    let g = frame.update(CHANNEL_SLOTS as int, gap);
    assert forall|i: int| 0 <= i < CHANNEL_SLOTS implies g[i] == frame[i] by {}
    if frame_valid(frame) {
        assert forall|i: int| 0 <= i < CHANNEL_SLOTS implies #[trigger] pulse_in_range(g[i]) by {
            assert(pulse_in_range(frame[i]));
        }
    }
    if frame_valid(g) {
        assert forall|i: int| 0 <= i < CHANNEL_SLOTS implies #[trigger] pulse_in_range(frame[i]) by {
            assert(pulse_in_range(g[i]));
        }
    }
}

} // verus!
