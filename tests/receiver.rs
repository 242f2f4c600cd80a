use ppm_receiver::decoder::PpmDecoder;
use ppm_receiver::frame::{filters, FRAME_SLOTS};
use ppm_receiver::pwm::PwmRegisters;
use ppm_receiver::receiver::{apply_frame, FrameAction, ThrottleOutput};
use ppm_receiver::throttle::{pwm_half_period, throttle_duty, throttle_range, DutyRange};

const REFERENCE_RANGE: DutyRange = DutyRange { low: 0, high: 2343 };

/// Feeds edges spaced by `gaps`, starting one long gap after tick zero so that
/// the first edge closes a frame and the cursor starts on slot zero.
fn feed(out: &mut ThrottleOutput, start: u32, gaps: &[u32]) -> Vec<FrameAction> {
    let mut actions = Vec::new();
    let mut t = start;
    actions.push(out.on_edge(t));
    for g in gaps {
        t = t.wrapping_add(*g);
        actions.push(out.on_edge(t));
    }
    actions
}

#[test]
fn scenario_valid_frame_with_sync_gap() {
    let mut out = ThrottleOutput::new(REFERENCE_RANGE, 0);
    let actions = feed(&mut out, 10_000, &[1500, 1500, 1500, 1500, 1500, 1500, 1500, 1500, 5000]);
    assert_eq!(actions[0], FrameAction::Rejected);
    for a in &actions[1..9] {
        assert_eq!(*a, FrameAction::Pending);
    }
    assert_eq!(out.decoder.channel, 0);
    assert_eq!(actions[9], FrameAction::Committed(1171));
    assert_eq!(out.pwm.shadow_turn_off, 1171);
    assert!(out.pwm.load_ok);
    assert_eq!(out.pwm.active_turn_off, 0);
}

#[test]
fn scenario_sync_gap_closes_frame_early() {
    let mut out = ThrottleOutput::new(REFERENCE_RANGE, 0);
    let actions = feed(&mut out, 10_000, &[1500, 1500, 1500, 4000]);
    assert_eq!(actions[3], FrameAction::Pending);
    assert_eq!(out.decoder.channel, 0);
    // Slots beyond the short frame still hold zeros from start-up.
    assert_eq!(actions[4], FrameAction::Rejected);
}

#[test]
fn scenario_out_of_range_channel_rejected() {
    let mut out = ThrottleOutput::new(REFERENCE_RANGE, 0);
    let mut first = ThrottleOutput::new(REFERENCE_RANGE, 0);
    feed(&mut first, 10_000, &[1500, 1500, 1500, 1500, 1500, 1500, 1500, 1500, 5000]);
    out.pwm = first.pwm;
    out.pwm.reload();
    let before = out.pwm;
    let actions = feed(&mut out, 10_000, &[1500, 1500, 1500, 900, 1500, 1500, 1500, 1500, 5000]);
    assert_eq!(actions[9], FrameAction::Rejected);
    assert_eq!(out.decoder.channel, 0);
    assert_eq!(out.pwm, before);
    assert_eq!(out.pwm.active_turn_off, 1171);
}

#[test]
fn scenario_capacity_closes_frame_without_gap() {
    let mut out = ThrottleOutput::new(REFERENCE_RANGE, 0);
    let actions = feed(&mut out, 10_000, &[1500, 1500, 1500, 1500, 1500, 1500, 1500, 1500, 1500]);
    assert_eq!(actions[8], FrameAction::Pending);
    assert_eq!(actions[9], FrameAction::Committed(1171));
    assert_eq!(out.decoder.channel, 0);
    assert_eq!(out.decoder.frame(), [1500u16; FRAME_SLOTS]);
    assert_eq!(out.pwm.shadow_turn_off, 1171);
}

#[test]
fn first_edge_is_a_boundary() {
    let mut d = PpmDecoder::new();
    assert!(d.on_edge(50_000));
    assert_eq!(d.channel, 0);
    assert_eq!(d.last_time, 50_000);
    assert_eq!(d.frame()[0], 50_000);
}

#[test]
fn short_gap_advances_cursor() {
    let mut d = PpmDecoder::new();
    d.on_edge(10_000);
    assert!(!d.on_edge(11_200));
    assert_eq!(d.channel, 1);
    assert_eq!(d.frame()[0], 1200);
}

#[test]
fn threshold_gap_is_not_a_boundary() {
    let mut d = PpmDecoder::new();
    d.on_edge(10_000);
    assert!(!d.on_edge(12_100));
    assert_eq!(d.channel, 1);
    assert!(d.on_edge(14_201));
    assert_eq!(d.channel, 0);
    assert_eq!(d.frame()[1], 2101);
}

#[test]
fn elapsed_wraps_with_the_counter() {
    let mut d = PpmDecoder::new();
    d.on_edge(u32::MAX - 499);
    assert!(!d.on_edge(1000));
    assert_eq!(d.frame()[0], 1500);
    assert_eq!(d.channel, 1);
}

#[test]
fn long_interval_keeps_low_bits() {
    let mut d = PpmDecoder::new();
    d.on_edge(10_000);
    assert!(d.on_edge(80_000));
    assert_eq!(d.frame()[0], (70_000u32 % 65_536) as u16);
}

#[test]
fn cursor_stays_in_frame_over_many_edges() {
    let mut d = PpmDecoder::new();
    let mut t: u32 = 0;
    for i in 0..1000u32 {
        t = t.wrapping_add(300 + (i * 7919) % 3000);
        d.on_edge(t);
        assert!(d.channel < FRAME_SLOTS);
    }
}

#[test]
fn filter_accepts_range_bounds() {
    let mut f = [1500u16; FRAME_SLOTS];
    f[0] = 1000;
    f[7] = 2000;
    assert!(filters(&f));
}

#[test]
fn filter_rejects_just_outside_range() {
    let mut f = [1500u16; FRAME_SLOTS];
    f[3] = 999;
    assert!(!filters(&f));
    let mut g = [1500u16; FRAME_SLOTS];
    g[7] = 2001;
    assert!(!filters(&g));
}

#[test]
fn filter_ignores_sync_slot() {
    let mut f = [1500u16; FRAME_SLOTS];
    f[8] = 0;
    assert!(filters(&f));
    f[8] = u16::MAX;
    assert!(filters(&f));
}

#[test]
fn duty_is_linear_over_the_range() {
    let r = DutyRange { low: -2343, high: 2343 };
    assert_eq!(throttle_duty(r, 1000), -2343);
    assert_eq!(throttle_duty(r, 2000), 2343);
    assert_eq!(throttle_duty(r, 1500), 0);
    assert_eq!(throttle_duty(REFERENCE_RANGE, 1000), 0);
    assert_eq!(throttle_duty(REFERENCE_RANGE, 2000), 2343);
    assert_eq!(throttle_duty(REFERENCE_RANGE, 1500), 1171);
    assert_eq!(throttle_duty(REFERENCE_RANGE, 1250), 585);
}

#[test]
fn reference_pwm_timing() {
    let half = pwm_half_period(150_000_000, 64, 50);
    assert_eq!(half, 23_437);
    assert_eq!(throttle_range(half as i16), REFERENCE_RANGE);
}

#[test]
fn pwm_commit_takes_effect_at_reload() {
    let mut p = PwmRegisters::new(-5);
    p.set_turn_off(40);
    p.reload();
    assert_eq!(p.active_turn_off, -5);
    p.set_load_ok();
    assert_eq!(p.active_turn_off, -5);
    p.reload();
    assert_eq!(p.active_turn_off, 40);
    assert!(!p.load_ok);
}

#[test]
fn apply_frame_reads_throttle_slot() {
    let mut f = [1000u16; FRAME_SLOTS];
    f[2] = 2000;
    let mut p = PwmRegisters::new(7);
    assert_eq!(apply_frame(REFERENCE_RANGE, &f, &mut p), FrameAction::Committed(2343));
    assert_eq!(p.shadow_turn_off, 2343);
    assert!(p.load_ok);
    assert_eq!(p.active_turn_off, 7);
}

#[test]
fn apply_frame_leaves_output_on_invalid_frame() {
    let mut f = [1500u16; FRAME_SLOTS];
    f[5] = 2500;
    let mut p = PwmRegisters::new(7);
    assert_eq!(apply_frame(REFERENCE_RANGE, &f, &mut p), FrameAction::Rejected);
    assert_eq!(p, PwmRegisters::new(7));
}
