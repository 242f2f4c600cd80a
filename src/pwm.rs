//! A double-buffered PWM turn-off threshold: writes land in a shadow register
//! and reach the active register only at a reload after an explicit commit.

use vstd::prelude::*;

verus! {

#[derive(Clone, Copy, Debug, PartialEq, Eq, Structural)]
pub struct PwmRegisters {
    /// Staged threshold, written by software.
    pub shadow_turn_off: i16,
    /// Threshold the output waveform currently follows.
    pub active_turn_off: i16,
    /// Set by a commit; the next reload promotes the shadow value.
    pub load_ok: bool,
}

impl PwmRegisters {
    /// Both registers at `turn_off`, nothing pending.
    pub open spec fn spec_new(turn_off: i16) -> PwmRegisters {
        PwmRegisters { shadow_turn_off: turn_off, active_turn_off: turn_off, load_ok: false }
    }

    /// Registers loaded with an initial threshold, nothing pending.
    pub fn new(turn_off: i16) -> (r: PwmRegisters)
        ensures
            r == Self::spec_new(turn_off),
    {
        PwmRegisters { shadow_turn_off: turn_off, active_turn_off: turn_off, load_ok: false }
    }

    /// Stages a new turn-off threshold; the active one is left alone.
    pub fn set_turn_off(&mut self, value: i16)
        ensures
            final(self).shadow_turn_off == value,
            final(self).active_turn_off == old(self).active_turn_off,
            final(self).load_ok == old(self).load_ok,
    {
        self.shadow_turn_off = value;
    }

    /// Commits the staged threshold for the next reload.
    pub fn set_load_ok(&mut self)
        ensures
            final(self).load_ok,
            final(self).shadow_turn_off == old(self).shadow_turn_off,
            final(self).active_turn_off == old(self).active_turn_off,
    {
        self.load_ok = true;
    }

    /// The counter's reload boundary: a committed threshold becomes active and
    /// the commit is consumed; without a commit nothing changes.
    pub fn reload(&mut self)
        ensures
            final(self).shadow_turn_off == old(self).shadow_turn_off,
            !final(self).load_ok,
            final(self).active_turn_off == if old(self).load_ok {
                old(self).shadow_turn_off
            } else {
                old(self).active_turn_off
            },
    {
        if self.load_ok {
            self.active_turn_off = self.shadow_turn_off;
            self.load_ok = false;
        }
    }

    /// Stages a threshold and commits it in one step.
    pub fn stage_and_commit(&mut self, value: i16)
        ensures
            final(self).shadow_turn_off == value,
            final(self).load_ok,
            final(self).active_turn_off == old(self).active_turn_off,
    {
        self.set_turn_off(value);
        self.set_load_ok();
    }
}

} // verus!
