//! The PPM frame decoder: turns successive edge timestamps into channel pulse
//! widths and detects frame boundaries.

use vstd::prelude::*;
use crate::frame::{FRAME_SLOTS, SYNC_GAP_THRESHOLD};

verus! {

/// The decoder's state as a mathematical value.
pub ghost struct DecoderModel {
    /// Tick count of the previous edge.
    pub last_time: u32,
    /// Pulse widths collected so far, one per slot.
    pub frame: Seq<u16>,
    /// Slot that the next edge fills.
    pub cursor: int,
}

impl DecoderModel {
    pub open spec fn wf(self) -> bool {
        &&& self.frame.len() == FRAME_SLOTS
        &&& 0 <= self.cursor < FRAME_SLOTS
    }
}

/// Ticks from `last` to `now` on a counter that wraps at 2^32.
pub open spec fn elapsed_ticks(now: u32, last: u32) -> u32 {
    ((now as int - last as int) % 0x1_0000_0000) as u32
}

/// The pulse width recorded for an interval: its low 16 bits.
pub open spec fn pulse_width(elapsed: u32) -> u16 {
    (elapsed as int % 0x1_0000) as u16
}

/// An edge closes the frame when its interval is a sync gap or when it fills
/// the last slot.
pub open spec fn is_boundary(elapsed: u32, cursor: int) -> bool {
    elapsed > SYNC_GAP_THRESHOLD || cursor + 1 >= FRAME_SLOTS
}

/// The state after one edge at tick `now`.
pub open spec fn next_state(m: DecoderModel, now: u32) -> DecoderModel {
    let e = elapsed_ticks(now, m.last_time);
    DecoderModel {
        last_time: now,
        frame: m.frame.update(m.cursor, pulse_width(e)),
        cursor: if is_boundary(e, m.cursor) {
            0
        } else {
            m.cursor + 1
        },
    }
}

/// The state after a sequence of edges, in order.
pub open spec fn run(m: DecoderModel, edges: Seq<u32>) -> DecoderModel
    decreases edges.len(),
{
    if edges.len() == 0 {
        m
    } else {
        run(next_state(m, edges[0]), edges.drop_first())
    }
}

/// One edge keeps the decoder well formed.
pub proof fn lemma_step_wf(m: DecoderModel, now: u32)
    requires
        m.wf(),
    ensures
        next_state(m, now).wf(),
{
}

/// Whatever edge timestamps arrive, the cursor stays inside the frame.
pub proof fn lemma_cursor_bounded(m: DecoderModel, edges: Seq<u32>)
    requires
        m.wf(),
    ensures
        run(m, edges).wf(),
        0 <= run(m, edges).cursor < FRAME_SLOTS,
    decreases edges.len(),
{
    if edges.len() > 0 {
        lemma_step_wf(m, edges[0]);
        lemma_cursor_bounded(next_state(m, edges[0]), edges.drop_first());
    }
}

/// The cursor returns to the first slot exactly on a frame boundary, and
/// advances by one otherwise.
pub proof fn lemma_boundary_resets_cursor(m: DecoderModel, now: u32)
    requires
        m.wf(),
    ensures
        (next_state(m, now).cursor == 0) == is_boundary(elapsed_ticks(now, m.last_time), m.cursor),
        !is_boundary(elapsed_ticks(now, m.last_time), m.cursor) ==> next_state(m, now).cursor
            == m.cursor + 1,
{
}

/// Decoder state owned by the edge interrupt.
pub struct PpmDecoder {
    pub last_time: u32,
    pub ppm_data: [u16; FRAME_SLOTS],
    pub channel: usize,
}

impl View for PpmDecoder {
    type V = DecoderModel;

    open spec fn view(&self) -> DecoderModel {
        DecoderModel {
            last_time: self.last_time,
            frame: self.ppm_data@,
            cursor: self.channel as int,
        }
    }
}

impl PpmDecoder {
    pub open spec fn wf(&self) -> bool {
        self.channel < FRAME_SLOTS
    }

    /// The state before any edge: every slot zero, cursor on slot zero.
    pub open spec fn new_model() -> DecoderModel {
        DecoderModel { last_time: 0, frame: Seq::new(FRAME_SLOTS as nat, |i: int| 0u16), cursor: 0 }
    }

    /// A decoder that has seen no edge.
    pub fn new() -> (d: PpmDecoder)
        ensures
            d.wf(),
            d@.wf(),
            d@ == Self::new_model(),
    {
        let d = PpmDecoder { last_time: 0, ppm_data: [0u16; FRAME_SLOTS], channel: 0 };
        assert(d@.frame =~= Self::new_model().frame);
        d
    }

    /// Records the edge at tick `now`: the interval since the previous edge
    /// fills the current slot, and the cursor advances or, on a boundary,
    /// returns to zero. Returns whether the edge closed a frame.
    pub fn on_edge(&mut self, now: u32) -> (boundary: bool)
        requires
            old(self).wf(),
        ensures
            final(self).wf(),
            final(self)@ == next_state(old(self)@, now),
            boundary == is_boundary(elapsed_ticks(now, old(self).last_time), old(self).channel as int),
    {
        let elapsed: u32 = now.wrapping_sub(self.last_time);
        self.last_time = now;
        let pulse: u16 = (elapsed % 0x1_0000) as u16;
        self.ppm_data[self.channel] = pulse;
        self.channel = self.channel + 1;
        let boundary = elapsed > SYNC_GAP_THRESHOLD || self.channel >= FRAME_SLOTS;
        if boundary {
            self.channel = 0;
        }
        proof {
            assert(self@.frame =~= next_state(old(self)@, now).frame);
        }
        boundary
    }

    /// The frame as collected so far.
    pub fn frame(&self) -> (f: [u16; FRAME_SLOTS])
        ensures
            f@ == self@.frame,
    {
        self.ppm_data
    }
}

} // verus!
