//! A PPM receiver driving one PWM output: each completed frame is validated,
//! and a valid one sets the output's duty from the throttle channel.

use vstd::prelude::*;
use crate::decoder::{PpmDecoder, is_boundary, elapsed_ticks, next_state};
use crate::frame::{FRAME_SLOTS, filters, frame_valid, pulse_in_range};
use crate::pwm::PwmRegisters;
use crate::throttle::{DutyRange, THROTTLE_SLOT, throttle_duty, duty_for};

verus! {

/// What an edge did to the output.
#[derive(Clone, Copy, Debug, PartialEq, Eq, Structural)]
pub enum FrameAction {
    /// The frame is still being collected.
    Pending,
    /// The frame closed but failed validation; the output is untouched.
    Rejected,
    /// The frame closed and was valid; this duty was staged and committed.
    Committed(i16),
}

/// The action owed for a frame that a boundary did or did not close.
pub open spec fn frame_action(range: DutyRange, boundary: bool, frame: Seq<u16>) -> FrameAction {
    if !boundary {
        FrameAction::Pending
    } else if !frame_valid(frame) {
        FrameAction::Rejected
    } else {
        FrameAction::Committed(duty_for(range, frame[THROTTLE_SLOT as int] as int) as i16)
    }
}

/// The registers after an action: only a commit stages and commits its duty.
pub open spec fn pwm_after(pwm: PwmRegisters, action: FrameAction) -> PwmRegisters {
    match action {
        FrameAction::Committed(d) => PwmRegisters { shadow_turn_off: d, load_ok: true, ..pwm },
        _ => pwm,
    }
}

/// The output changes only after a boundary that closed a valid frame; any
/// other edge, an invalid frame in particular, leaves every register as it
/// was. The active threshold is never written by an edge.
pub proof fn lemma_output_changes_only_on_valid_frame(
    range: DutyRange,
    boundary: bool,
    frame: Seq<u16>,
    pwm: PwmRegisters,
)
    ensures
        pwm_after(pwm, frame_action(range, boundary, frame)) != pwm ==> boundary && frame_valid(frame),
        !frame_valid(frame) ==> pwm_after(pwm, frame_action(range, boundary, frame)) == pwm,
        pwm_after(pwm, frame_action(range, boundary, frame)).active_turn_off == pwm.active_turn_off,
{
}

/// Acts on a completed frame: a valid one has its throttle duty staged and
/// committed; an invalid one leaves the registers exactly as they were.
pub fn apply_frame(range: DutyRange, frame: &[u16; FRAME_SLOTS], pwm: &mut PwmRegisters) -> (action:
    FrameAction)
    requires
        range.wf(),
    ensures
        action == frame_action(range, true, frame@),
        *final(pwm) == pwm_after(*old(pwm), action),
{
    if filters(frame) {
        assert(pulse_in_range(frame@[THROTTLE_SLOT as int]));
        let duty = throttle_duty(range, frame[THROTTLE_SLOT]);
        pwm.stage_and_commit(duty);
        FrameAction::Committed(duty)
    } else {
        FrameAction::Rejected
    }
}

/// The decoder, the duty range and the output registers of a PPM-to-PWM
/// receiver.
pub struct ThrottleOutput {
    pub decoder: PpmDecoder,
    pub range: DutyRange,
    pub pwm: PwmRegisters,
}

impl ThrottleOutput {
    pub open spec fn wf(&self) -> bool {
        self.decoder.wf() && self.range.wf()
    }

    /// A receiver with a fresh decoder and the output at `initial_turn_off`.
    pub fn new(range: DutyRange, initial_turn_off: i16) -> (r: ThrottleOutput)
        requires
            range.wf(),
        ensures
            r.wf(),
            r.decoder@ == PpmDecoder::new_model(),
            r.range == range,
            r.pwm == PwmRegisters::spec_new(initial_turn_off),
    {
        ThrottleOutput { decoder: PpmDecoder::new(), range, pwm: PwmRegisters::new(initial_turn_off) }
    }

    /// Handles the edge at tick `now`: decodes it and, when it closes a frame,
    /// validates the frame and updates the output from it.
    pub fn on_edge(&mut self, now: u32) -> (action: FrameAction)
        requires
            old(self).wf(),
        ensures
            final(self).wf(),
            final(self).range == old(self).range,
            final(self).decoder@ == next_state(old(self).decoder@, now),
            action == frame_action(
                old(self).range,
                is_boundary(elapsed_ticks(now, old(self).decoder.last_time), old(self).decoder.channel as int),
                final(self).decoder@.frame,
            ),
            final(self).pwm == pwm_after(old(self).pwm, action),
    {
        let boundary = self.decoder.on_edge(now);
        if boundary {
            apply_frame(self.range, &self.decoder.ppm_data, &mut self.pwm)
        } else {
            FrameAction::Pending
        }
    }
}

} // verus!
