//! Linear re-encoding of a validated channel pulse width into a PWM duty
//! threshold, and the PWM timing figures that bound it.

use vstd::prelude::*;
use crate::frame::{PULSE_MIN, PULSE_MAX};

verus! {

/// Frame slot that carries the throttle channel.
pub const THROTTLE_SLOT: usize = 2;

/// Width of the accepted pulse range, in ticks.
pub const PULSE_SPAN: u16 = 1000;

/// The duty thresholds that the shortest and the longest accepted pulse map to.
#[derive(Clone, Copy, Debug, PartialEq, Eq, Structural)]
pub struct DutyRange {
    pub low: i16,
    pub high: i16,
}

impl DutyRange {
    pub open spec fn wf(self) -> bool {
        self.low <= self.high
    }
}

/// The duty threshold for a pulse width in the accepted range: a linear map of
/// `[PULSE_MIN, PULSE_MAX]` onto `[low, high]`, rounded down.
pub open spec fn duty_for(range: DutyRange, pulse: int) -> int {
    range.low + (pulse - PULSE_MIN) * (range.high - range.low) / (PULSE_SPAN as int)
}

/// Maps a validated pulse width onto the duty range.
pub fn throttle_duty(range: DutyRange, pulse: u16) -> (duty: i16)
    requires
        range.wf(),
        PULSE_MIN <= pulse <= PULSE_MAX,
    ensures
        duty as int == duty_for(range, pulse as int),
        range.low <= duty <= range.high,
{
    let offset: i64 = (pulse - PULSE_MIN) as i64;
    let width: i64 = range.high as i64 - range.low as i64;
    proof {
        lemma_duty_within(range, pulse as int);
    }
    assert(0 <= offset * width <= 1000 * 65535) by (nonlinear_arith)
        requires
            0 <= offset <= 1000,
            0 <= width <= 65535,
    ;
    let scaled: i64 = offset * width / (PULSE_SPAN as i64);
    (range.low as i64 + scaled) as i16
}

/// The mapped duty never leaves the range.
proof fn lemma_duty_within(range: DutyRange, pulse: int)
    requires
        range.wf(),
        PULSE_MIN <= pulse <= PULSE_MAX,
    ensures
        range.low <= duty_for(range, pulse) <= range.high,
{
    let off = pulse - PULSE_MIN;
    let w = range.high - range.low;
    assert(0 <= off * w <= 1000 * w) by (nonlinear_arith)
        requires
            0 <= off <= 1000,
            0 <= w,
    ;
    assert(0 <= off * w / 1000 <= w) by (nonlinear_arith)
        requires
            0 <= off * w <= 1000 * w,
            0 <= w,
    ;
}

/// Re-encoding is linear: the shortest pulse gives `low`, the longest gives
/// `high`, and the midpoint gives the midpoint of the range, rounded down.
pub proof fn lemma_duty_linear(range: DutyRange)
    requires
        range.wf(),
    ensures
        duty_for(range, PULSE_MIN as int) == range.low,
        duty_for(range, PULSE_MAX as int) == range.high,
        duty_for(range, 1500) == range.low + (range.high - range.low) / 2,
        forall|p: int, q: int|
            PULSE_MIN <= p <= q <= PULSE_MAX ==> #[trigger] duty_for(range, p) <= #[trigger] duty_for(range, q),
{
    let w = range.high - range.low;
    assert(0 * w / 1000 == 0 && 1000 * w / 1000 == w && 500 * w / 1000 == w / 2)
        by (nonlinear_arith)
        requires
            0 <= w,
    ;
    assert forall|p: int, q: int|
        PULSE_MIN <= p <= q <= PULSE_MAX implies #[trigger] duty_for(range, p) <= #[trigger] duty_for(range, q) by {
        assert((p - 1000) * w <= (q - 1000) * w) by (nonlinear_arith)
            requires
                p <= q,
                0 <= w,
        ;
        assert((p - 1000) * w / 1000 <= (q - 1000) * w / 1000) by (nonlinear_arith)
            requires
                (p - 1000) * w <= (q - 1000) * w,
        ;
    }
}

/// Half the PWM period in counter ticks: the counter runs from minus this
/// value to this value once per PWM period.
pub fn pwm_half_period(ipg_hz: u32, prescaler_divider: u32, pwm_hz: u32) -> (half: u32)
    requires
        prescaler_divider > 0,
        pwm_hz > 0,
    ensures
        half as int == ipg_hz as int / prescaler_divider as int / pwm_hz as int / 2,
{
    ipg_hz / prescaler_divider / pwm_hz / 2
}

/// The duty range used by the throttle output: the shortest pulse leaves the
/// turn-off threshold at zero, the longest moves it to a tenth of the counter's
/// half period.
pub fn throttle_range(half_period: i16) -> (range: DutyRange)
    requires
        half_period >= 0,
    ensures
        range.low == 0,
        range.high as int == half_period as int / 10,
        range.wf(),
{
    DutyRange { low: 0, high: half_period / 10 }
}

} // verus!
