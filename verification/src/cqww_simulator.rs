//! The contest simulator: picks stations that answer, keys their
//! exchanges, and wobbles the sidetone so each station sounds
//! different.
//!
//! Randomness comes from an outside generator; every function is
//! verified for each value the generator may hand back, and the
//! contracts state what holds of every outcome.

use crate::keyer_interface::TrxMode;
use crate::netkeyer::ToneState;
use vstd::prelude::*;
use vstd::slice::slice_to_vec;

verus! {

/// Relies on rand::Rng::gen_range over `0..n`: a value below `n`.
#[verifier::external_body]
fn rand_below(n: usize) -> (r: usize)
    requires
        n > 0,
    ensures
        r < n,
{
    rand::Rng::gen_range(&mut rand::thread_rng(), 0..n)
}

/// Relies on rand::Rng::gen_ratio with one chance in two: nothing is
/// promised about the outcome.
#[verifier::external_body]
fn rand_coin() -> bool {
    rand::Rng::gen_ratio(&mut rand::thread_rng(), 1, 2)
}

/// The sidetone frequencies the simulator hands out.
pub open spec fn cw_tones_spec() -> Seq<u16> {
    seq![625u16, 800, 650, 750, 700, 725, 675, 775, 600, 640]
}

/// The simulator's sidetone table.
pub fn cw_tones() -> (tones: Vec<u16>)
    ensures
        tones@ =~= cw_tones_spec(),
{
    let mut tones: Vec<u16> = Vec::new();
    tones.push(625);
    tones.push(800);
    tones.push(650);
    tones.push(750);
    tones.push(700);
    tones.push(725);
    tones.push(675);
    tones.push(775);
    tones.push(600);
    tones.push(640);
    tones
}

/// One step of the simulator's output: retune the sidetone, or key a
/// message.
#[derive(Clone, PartialEq, Eq, Debug)]
pub enum SimAction {
    /// Set the logical sidetone to this value.
    Tone(u16),
    /// Key this message.
    Message(Vec<u8>),
}

/// Some entry of the call list has these bytes.
pub open spec fn call_list_contains(calls: Seq<Vec<u8>>, c: Seq<u8>) -> bool {
    exists|i: int| 0 <= i < calls.len() && (#[trigger] calls[i])@ == c
}

/// `n` copies of the byte `b`.
pub open spec fn rep_byte(b: u8, n: int) -> Seq<u8> {
    Seq::new(n as nat, |i: int| b)
}

/// The simulated final exchange: `TU 5NN ` and the two-digit zone,
/// with a `T` for a leading zero in the short form.
pub open spec fn tu_msg(zone: u8, short: bool) -> Seq<u8> {
    let d1: u8 = (48 + zone / 10) as u8;
    let d2: u8 = (48 + zone % 10) as u8;
    let z1: u8 = if short && d1 == 48 {
        84u8
    } else {
        d1
    };
    seq![84u8, 85, 32, 53, 78, 78, 32] + seq![z1, d2]
}

/// The simulator's session state.
pub struct CqwwSimulator {
    /// Whether the simulator answers at all.
    pub enabled: bool,
    /// The sidetone used for the current station.
    pub tone: u16,
    /// The operator's own sidetone, remembered while a station is
    /// keyed.
    pub tonecpy: Option<u16>,
    /// The station currently worked.
    pub current_call: Option<Vec<u8>>,
    /// How often the current exchange was repeated.
    pub repeat_count: usize,
}

impl CqwwSimulator {
    /// A fresh, disabled simulator on the first table tone.
    pub fn new() -> (s: CqwwSimulator)
        ensures
            !s.enabled,
            s.tone == cw_tones_spec()[0],
            s.tonecpy is None,
            s.current_call is None,
            s.repeat_count == 0,
    {
        CqwwSimulator { enabled: false, tone: 625, tonecpy: None, current_call: None, repeat_count: 0 }
    }

    /// Picks a random station from the call list.
    fn pick_call(&mut self, calls: &Vec<Vec<u8>>)
        requires
            calls@.len() > 0,
        ensures
            final(self).current_call matches Some(c) && call_list_contains(calls@, c@),
            final(self).enabled == old(self).enabled,
            final(self).tone == old(self).tone,
            final(self).tonecpy == old(self).tonecpy,
            final(self).repeat_count == old(self).repeat_count,
    {
        let idx = rand_below(calls.len());
        let call = slice_to_vec(calls[idx].as_slice());
        proof {
            assert(calls@[idx as int]@ == call@);
        }
        self.current_call = Some(call);
        proof {
            assert((#[trigger] calls@[idx as int])@ == call@);
        }
    }

    /// Enables the simulator over a nonempty call list and picks the
    /// first station.
    pub fn enable(&mut self, calls: &Vec<Vec<u8>>)
        requires
            calls@.len() > 0,
        ensures
            final(self).enabled,
            final(self).current_call matches Some(c) && call_list_contains(calls@, c@),
            final(self).tone == old(self).tone,
            final(self).tonecpy == old(self).tonecpy,
            final(self).repeat_count == old(self).repeat_count,
    {
        self.pick_call(calls);
        self.enabled = true;
    }

    /// Disables the simulator; everything else stays.
    pub fn disable(&mut self)
        ensures
            *final(self) == (CqwwSimulator { enabled: false, ..*old(self) }),
    {
        self.enabled = false;
    }

    /// Retunes the sidetone to the current station's tone, remembering
    /// the operator's own value.
    fn set_tone(&mut self, tone_state: &mut ToneState, out: &mut Vec<SimAction>)
        ensures
            final(self).tonecpy == Some(old(tone_state).tone_spec()),
            final(self).tone == old(self).tone,
            final(self).enabled == old(self).enabled,
            final(self).current_call == old(self).current_call,
            final(self).repeat_count == old(self).repeat_count,
            final(tone_state).tone_spec() == old(self).tone,
            final(out)@.len() == old(out)@.len() + 2,
            final(out)@.take(old(out)@.len() as int) == old(out)@,
            final(out)@[old(out)@.len() as int] == SimAction::Tone(old(self).tone),
            final(out)@[old(out)@.len() as int + 1] matches SimAction::Message(m) && m@ == seq![
                32u8,
                32u8,
            ],
    {
        let prev = tone_state.write_tone(self.tone);
        self.tonecpy = Some(prev);
        out.push(SimAction::Tone(self.tone));
        let mut gap: Vec<u8> = Vec::new();
        gap.push(32);
        gap.push(32);
        proof {
            assert(gap@ =~= seq![32u8, 32u8]);
        }
        out.push(SimAction::Message(gap));
        proof {
            assert(out@.take(old(out)@.len() as int) =~= old(out)@);
        }
    }

    /// Restores the operator's sidetone after keying a station.
    fn restore_tone(&mut self, tone_state: &mut ToneState, out: &mut Vec<SimAction>)
        ensures
            *final(self) == *old(self),
            old(self).tonecpy matches Some(t) ==> final(tone_state).tone_spec() == t
                && final(out)@ == old(out)@ + seq![SimAction::Tone(t)],
            old(self).tonecpy is None ==> *final(tone_state) == *old(tone_state) && final(out)@
                == old(out)@,
    {
        match self.tonecpy {
            Some(t) => {
                tone_state.write_tone(t);
                out.push(SimAction::Tone(t));
            },
            None => {},
        }
    }

    /// First step of a simulated contact: pick a random tone and a
    /// random station, key its call, and restore the tone.  Whatever
    /// the random draws, the keyed call comes from the list and the
    /// operator's tone is restored.
    pub fn send_call(&mut self, tone_state: &mut ToneState, calls: &Vec<Vec<u8>>) -> (out: Vec<
        SimAction,
    >)
        requires
            calls@.len() > 0,
        ensures
            final(self).enabled == old(self).enabled,
            final(self).repeat_count == 0,
            final(self).current_call matches Some(c) && call_list_contains(calls@, c@),
            cw_tones_spec().contains(final(self).tone),
            final(tone_state).tone_spec() == old(tone_state).tone_spec(),
            out@.len() == 4,
            out@[0] == SimAction::Tone(final(self).tone),
            out@[1] matches SimAction::Message(m) && m@ == seq![32u8, 32u8],
            out@[2] matches SimAction::Message(m) && (final(self).current_call matches Some(c)
                && m@ == c@),
            out@[3] == SimAction::Tone(old(tone_state).tone_spec()),
    {
        let tones = cw_tones();
        let ti = rand_below(10);
        self.tone = tones[ti];
        proof {
            assert(cw_tones_spec().contains(cw_tones_spec()[ti as int]));
        }
        let mut out: Vec<SimAction> = Vec::new();
        self.set_tone(tone_state, &mut out);
        self.pick_call(calls);
        let call = match &self.current_call {
            Some(c) => slice_to_vec(c.as_slice()),
            None => Vec::new(),
        };
        out.push(SimAction::Message(call));
        self.repeat_count = 0;
        self.restore_tone(tone_state, &mut out);
        out
    }

    /// Second step: key `TU 5NN` and the station's two-digit zone,
    /// sometimes shortening a leading zero to `T`.  A zone of ten or
    /// more is always keyed in full.
    pub fn send_final(&mut self, tone_state: &mut ToneState, zone: u8) -> (out: Vec<SimAction>)
        requires
            old(self).current_call is Some,
            zone < 100,
        ensures
            final(self).repeat_count == 0,
            final(self).current_call == old(self).current_call,
            final(tone_state).tone_spec() == old(tone_state).tone_spec(),
            out@.len() == 4,
            out@[0] == SimAction::Tone(old(self).tone),
            out@[1] matches SimAction::Message(m) && m@ == seq![32u8, 32u8],
            out@[2] matches SimAction::Message(m) && (m@ == tu_msg(zone, false) || m@ == tu_msg(
                zone,
                true,
            )),
            zone >= 10 ==> (out@[2] matches SimAction::Message(m) && m@ == tu_msg(zone, false)),
            out@[3] == SimAction::Tone(old(tone_state).tone_spec()),
    {
        let mut out: Vec<SimAction> = Vec::new();
        self.set_tone(tone_state, &mut out);
        let d1: u8 = 48 + zone / 10;
        let d2: u8 = 48 + zone % 10;
        let use_short = rand_coin();
        let z1: u8 = if use_short && d1 == 48 {
            84
        } else {
            d1
        };
        let mut msg: Vec<u8> = Vec::new();
        msg.push(84);
        msg.push(85);
        msg.push(32);
        msg.push(53);
        msg.push(78);
        msg.push(78);
        msg.push(32);
        msg.push(z1);
        msg.push(d2);
        proof {
            if use_short && d1 == 48 {
                assert(msg@ =~= tu_msg(zone, true));
            } else {
                assert(msg@ =~= tu_msg(zone, false));
                if d1 != 48 {
                    assert(tu_msg(zone, true) =~= tu_msg(zone, false));
                }
            }
        }
        out.push(SimAction::Message(msg));
        self.repeat_count = 0;
        self.restore_tone(tone_state, &mut out);
        out
    }

    /// Repeat step: key the current call again, slowed a little more
    /// each second repeat, at most three steps slower.
    pub fn send_repeat(&mut self, tone_state: &mut ToneState) -> (out: Vec<SimAction>)
        requires
            old(self).current_call is Some,
        ensures
            final(self).repeat_count == (if old(self).repeat_count < usize::MAX {
                old(self).repeat_count + 1
            } else {
                old(self).repeat_count as int
            }),
            final(self).current_call == old(self).current_call,
            final(tone_state).tone_spec() == old(tone_state).tone_spec(),
            out@.len() == 4,
            out@[0] == SimAction::Tone(old(self).tone),
            out@[1] matches SimAction::Message(m) && m@ == seq![32u8, 32u8],
            out@[2] matches SimAction::Message(m) && (old(self).current_call matches Some(c)
                && m@ == rep_byte(45, slow_of(final(self).repeat_count as int)) + c@ + rep_byte(
                43,
                slow_of(final(self).repeat_count as int),
            )),
            out@[3] == SimAction::Tone(old(tone_state).tone_spec()),
    {
        let mut out: Vec<SimAction> = Vec::new();
        self.set_tone(tone_state, &mut out);
        if self.repeat_count < usize::MAX {
            self.repeat_count = self.repeat_count + 1;
        }
        let slow: usize = if self.repeat_count / 2 < 3 {
            self.repeat_count / 2
        } else {
            3
        };
        let mut msg: Vec<u8> = Vec::new();
        let mut i: usize = 0;
        while i < slow
            invariant
                0 <= i <= slow,
                msg@ =~= rep_byte(45, i as int),
            decreases slow - i,
        {
            msg.push(45);
            i = i + 1;
        }
        let call = match &self.current_call {
            Some(c) => slice_to_vec(c.as_slice()),
            None => Vec::new(),
        };
        let mut k: usize = 0;
        let n = call.len();
        while k < n
            invariant
                0 <= k <= n,
                n == call@.len(),
                msg@ =~= rep_byte(45, slow as int) + call@.take(k as int),
            decreases n - k,
        {
            msg.push(call[k]);
            k = k + 1;
        }
        let mut j: usize = 0;
        while j < slow
            invariant
                0 <= j <= slow,
                msg@ =~= rep_byte(45, slow as int) + call@ + rep_byte(43, j as int),
            decreases slow - j,
        {
            msg.push(43);
            j = j + 1;
        }
        proof {
            assert(slow as int == slow_of(self.repeat_count as int));
        }
        out.push(SimAction::Message(msg));
        self.restore_tone(tone_state, &mut out);
        out
    }

    /// The simulator answers only when enabled, running, and in CW
    /// mode.
    pub fn precondition(&self, stop_requested: bool, trxmode: TrxMode) -> (r: bool)
        ensures
            r == (self.enabled && !stop_requested && trxmode == TrxMode::Cw),
    {
        let is_cw = match trxmode {
            TrxMode::Cw => true,
            _ => false,
        };
        self.enabled && !stop_requested && is_cw
    }
}

/// How many steps slower a repeat is keyed: half the repeat count,
/// capped at three.
pub open spec fn slow_of(repeat_count: int) -> int {
    if repeat_count / 2 < 3 {
        repeat_count / 2
    } else {
        3
    }
}

} // verus!
