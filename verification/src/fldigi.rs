//! The digital-mode companion's carrier-shift state.
//!
//! The companion program can ask for a one-shot frequency shift; the
//! next poll in a teletype mode consumes it.

use crate::hamlib::RIG_MODE_RTTY;
use crate::hamlib::RIG_MODE_RTTYR;
use vstd::prelude::*;

verus! {

/// A pending one-shot carrier shift in Hz; zero means none.
pub struct ShiftState {
    shift: i32,
}

/// A shift is applied only in a teletype mode and only when one is
/// pending.
pub open spec fn shift_applies(mode: Option<u64>, shift: i32) -> bool {
    (mode == Some(RIG_MODE_RTTY) || mode == Some(RIG_MODE_RTTYR)) && shift != 0
}

impl ShiftState {
    /// The pending shift.
    pub closed spec fn shift_spec(&self) -> i32 {
        self.shift
    }

    /// No shift pending.
    pub fn new() -> (s: ShiftState)
        ensures
            s.shift_spec() == 0,
    {
        ShiftState { shift: 0 }
    }

    /// Reads the pending shift.
    pub fn fldigi_var_shift_freq_get(&self) -> (r: i32)
        ensures
            r == self.shift_spec(),
    {
        self.shift
    }

    /// Sets the pending shift.
    pub fn fldigi_var_shift_freq_set(&mut self, freq: i32)
        ensures
            final(self).shift_spec() == freq,
    {
        self.shift = freq;
    }

    /// Consumes the pending shift when the mode calls for it: in a
    /// teletype mode a pending shift is handed out once and cleared;
    /// otherwise nothing is touched.
    pub fn get_shifted_freq(&mut self, mode: Option<u64>) -> (r: Option<i32>)
        ensures
            shift_applies(mode, old(self).shift_spec()) ==> r == Some(old(self).shift_spec())
                && final(self).shift_spec() == 0,
            !shift_applies(mode, old(self).shift_spec()) ==> r is None && *final(self) == *old(
                self,
            ),
    {
        let is_rtty = match mode {
            Some(m) => m == RIG_MODE_RTTY || m == RIG_MODE_RTTYR,
            None => false,
        };
        if !is_rtty {
            return None;
        }
        if self.shift == 0 {
            return None;
        }
        let shift = self.shift;
        self.shift = 0;
        Some(shift)
    }
}

} // verus!
