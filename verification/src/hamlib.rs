//! The rig controller: configuration, state snapshots, the poll state
//! machine, and the translation of user requests into hardware
//! actions.
//!
//! The hardware-abstraction library itself is an outside capability
//! driven by the thread that owns the rig; this module holds the
//! decisions: what to read, what to write, when a poll is due, what a
//! band change re-applies.  Hardware readings come in as plain values
//! and hardware writes go out as [`RigAction`] values.

use crate::bands::band_lookup;
use crate::bands::freq2bandindex;
use crate::cw_utils::speed_conversion_spec;
use crate::cw_utils::speeds_spec;
use crate::cw_utils::CwSpeedState;
use crate::fldigi::shift_applies;
use crate::fldigi::ShiftState;
use crate::keyer_interface::DigiKeyerKind;
use crate::keyer_interface::TrxMode;
use vstd::prelude::*;

verus! {

/// The hardware library's success code.
pub const RIG_OK: i32 = 0;

/// Return code for a call the backend does not implement, as the
/// library returns it (negated).
pub const ENIMPL: i32 = -4;

/// Return code for information the backend cannot provide, as the
/// library returns it (negated).
pub const ENAVAIL: i32 = -11;

/// No mode reported.
pub const RIG_MODE_NONE: u64 = 0;

/// The CW mode bit.
pub const RIG_MODE_CW: u64 = 2;

/// The upper-sideband mode bit.
pub const RIG_MODE_USB: u64 = 4;

/// The lower-sideband mode bit.
pub const RIG_MODE_LSB: u64 = 8;

/// The teletype mode bit.
pub const RIG_MODE_RTTY: u64 = 16;

/// The reversed teletype mode bit.
pub const RIG_MODE_RTTYR: u64 = 256;

/// Passband argument meaning: keep the current passband.
pub const RIG_PASSBAND_NOCHANGE: i64 = -1;

/// Minimum interval between two hardware polls, in milliseconds.
pub const POLL_PERIOD_MS: u64 = 200;

/// Longest serial-port path the hardware library accepts, including
/// the terminator.
pub const HAMLIB_FILPATHLEN: usize = 100;

/// A numeric return code of the hardware library, other than success.
#[derive(Clone, Copy, PartialEq, Eq, Structural, Debug)]
pub struct GenericError(pub i32);

/// Failures of rig control.
#[derive(Clone, Copy, PartialEq, Eq, Structural, Debug)]
pub enum Error {
    /// A hardware call failed with the library's code.
    Generic(i32),
    /// The backend configuration directives could not be parsed or
    /// applied.
    InvalidRigconf,
    /// The configured model number is unknown.
    InvalidModel,
    /// The frequency could not be read during a poll.
    Poll,
    /// Opening the connection failed with the library's code.
    Open(i32),
    /// Rig control is disabled for this session.
    ControlDisabled,
}

/// Converts a library return code into a result.
pub fn retval_to_result(retval: i32) -> (r: Result<(), GenericError>)
    ensures
        r is Ok <==> retval == RIG_OK,
        r matches Err(e) ==> e.0 == retval,
{
    if retval == RIG_OK {
        Ok(())
    } else {
        Err(GenericError(retval))
    }
}

/// Converts a result back into a library return code.
pub fn result_to_retval(result: Result<(), GenericError>) -> (r: i32)
    ensures
        result is Ok ==> r == RIG_OK,
        result matches Err(e) ==> r == e.0,
{
    match result {
        Ok(_) => RIG_OK,
        Err(e) => e.0,
    }
}

/// One poll's snapshot of the radio's state.
#[derive(Clone, PartialEq, Eq, Structural, Debug)]
pub struct RigState {
    /// The active tuning register, when the backend reports one.
    pub vfo: Option<u32>,
    /// The tuned frequency in Hz.
    pub freq: Option<i64>,
    /// The reported mode bitmask.
    pub mode: Option<u64>,
    /// The reported passband width in Hz.
    pub bandwidth: Option<i64>,
    /// The band index derived from the display frequency.
    pub bandidx: Option<usize>,
    /// The digital-mode carrier offset, when one applies.
    pub fldigi_carrier: Option<i64>,
    /// When this snapshot was taken, in milliseconds.
    pub time_ms: u64,
}

/// The rig session: capability flags, session settings, and the last
/// poll snapshot.
#[derive(Clone, PartialEq, Eq, Structural, Debug)]
pub struct Rig {
    /// Whether the connection is open.
    pub opened: bool,
    /// The backend can send Morse.
    pub can_send_morse: bool,
    /// The backend can stop a Morse transmission.
    pub can_stop_morse: bool,
    /// The configured CW passband override.
    pub cw_bandwidth: Option<i64>,
    /// PTT is driven over the control channel this session.
    pub use_ptt: bool,
    /// The last PTT value written, to avoid redundant toggles.
    pub ptt_state: bool,
    /// The session uses the rig's own keyer.
    pub use_keyer: bool,
    /// The last poll snapshot.
    pub state: Option<RigState>,
}

/// The capability flags read from the opened backend.
#[derive(Clone, Copy, PartialEq, Eq, Structural, Debug)]
pub struct RigCaps {
    /// The backend can key PTT over the control channel.
    pub has_ptt: bool,
    /// The backend can send Morse.
    pub can_send_morse: bool,
    /// The backend can stop a Morse transmission.
    pub can_stop_morse: bool,
}

/// The rig configuration snapshot taken once at startup.
pub struct RigConfig {
    /// The hardware model identifier.
    pub model: u32,
    /// The serial port path, if any.
    pub portname: Option<Vec<u8>>,
    /// The serial rate.
    pub serial_rate: i32,
    /// Backend-specific configuration directives.
    pub rigconf: Vec<(Vec<u8>, Vec<u8>)>,
    /// This session uses the rig's own keyer.
    pub use_keyer: bool,
    /// The CW passband override.
    pub cw_bandwidth: Option<i64>,
    /// The operator asked for PTT over the control channel.
    pub want_ptt: bool,
    /// The initial operating mode.
    pub trxmode: TrxMode,
}

impl RigConfig {
    /// A configured port path must fit the library's fixed path
    /// buffer, terminator included.
    pub open spec fn portname_fits(&self) -> bool {
        match self.portname {
            Some(p) => p@.len() + 1 < HAMLIB_FILPATHLEN,
            None => true,
        }
    }

    /// Checks that the configured port path fits the library's path
    /// buffer; opening with a longer one would overrun it.
    pub fn portname_ok(&self) -> (r: bool)
        ensures
            r == self.portname_fits(),
    {
        match &self.portname {
            Some(p) => p.len() < HAMLIB_FILPATHLEN - 1,
            None => true,
        }
    }

    /// Builds the session record for an opened rig from this
    /// configuration and the backend's capabilities.  PTT over the
    /// control channel is used only when both wanted and supported;
    /// wanting it without support is worth a warning, nothing more.
    pub fn open_plan(&self, caps: RigCaps) -> (r: (Rig, bool))
        ensures
            r.0.opened == false,
            r.0.can_send_morse == caps.can_send_morse,
            r.0.can_stop_morse == caps.can_stop_morse,
            r.0.cw_bandwidth == self.cw_bandwidth,
            r.0.use_ptt == (caps.has_ptt && self.want_ptt),
            r.0.ptt_state == false,
            r.0.use_keyer == self.use_keyer,
            r.0.state is None,
            r.1 == (self.want_ptt && !caps.has_ptt),
    {
        let warn_ptt = self.want_ptt && !caps.has_ptt;
        let rig = Rig {
            opened: false,
            can_send_morse: caps.can_send_morse,
            can_stop_morse: caps.can_stop_morse,
            cw_bandwidth: match self.cw_bandwidth {
                Some(b) => Some(b),
                None => None,
            },
            use_ptt: caps.has_ptt && self.want_ptt,
            ptt_state: false,
            use_keyer: self.use_keyer,
            state: None,
        };
        (rig, warn_ptt)
    }
}

/// An `i64` frequency clamped into `u32`, the way the band table is
/// indexed.
pub open spec fn freq_to_u32_spec(freq: int) -> u32 {
    if freq < 0 {
        0u32
    } else if freq > 0xFFFF_FFFF {
        0xFFFF_FFFFu32
    } else {
        freq as u32
    }
}

/// Saturating conversion of a frequency to the band table's domain.
pub fn freq_to_u32(freq: i64) -> (r: u32)
    ensures
        r == freq_to_u32_spec(freq as int),
{
    if freq < 0 {
        0
    } else if freq > 0xFFFF_FFFF {
        0xFFFF_FFFF
    } else {
        freq as u32
    }
}

/// The sideband convention: lower sideband below the bottom of the
/// 20 m band, upper sideband at or above it.
pub open spec fn ssb_mode_spec(freq: int, corner_20m_bottom: u32) -> u64 {
    if freq_to_u32_spec(freq) < corner_20m_bottom {
        RIG_MODE_LSB
    } else {
        RIG_MODE_USB
    }
}

/// Picks the sideband for a frequency.
pub fn get_ssb_mode(freq: i64, corner_20m_bottom: u32) -> (r: u64)
    ensures
        r == ssb_mode_spec(freq as int, corner_20m_bottom),
{
    if freq_to_u32(freq) < corner_20m_bottom {
        RIG_MODE_LSB
    } else {
        RIG_MODE_USB
    }
}

/// The mode and passband a band change re-applies, if any: SSB picks
/// the sideband for the new frequency; digital leaves an already
/// acceptable mode alone and forces lower sideband otherwise; CW is
/// re-applied with the configured CW passband.
pub open spec fn band_mode_decision_spec(
    trxmode: TrxMode,
    rigmode: Option<u64>,
    freq: int,
    corner_20m_bottom: u32,
    cw_bandwidth: Option<i64>,
) -> Option<(u64, i64)> {
    match trxmode {
        TrxMode::Ssb => Some((ssb_mode_spec(freq, corner_20m_bottom), RIG_PASSBAND_NOCHANGE)),
        TrxMode::Digi => {
            let m = match rigmode {
                Some(m) => m,
                None => RIG_MODE_NONE,
            };
            if m & (RIG_MODE_LSB | RIG_MODE_USB | RIG_MODE_RTTY | RIG_MODE_RTTYR) != m {
                Some((RIG_MODE_LSB, RIG_PASSBAND_NOCHANGE))
            } else {
                None
            }
        },
        TrxMode::Cw => Some(
            (
                RIG_MODE_CW,
                match cw_bandwidth {
                    Some(b) => b,
                    None => RIG_PASSBAND_NOCHANGE,
                },
            ),
        ),
    }
}

/// Decides what mode to re-apply after a band change.
pub fn set_band_mode_decision(
    trxmode: TrxMode,
    rigmode: Option<u64>,
    freq: i64,
    corner_20m_bottom: u32,
    cw_bandwidth: Option<i64>,
) -> (r: Option<(u64, i64)>)
    ensures
        r == band_mode_decision_spec(
            trxmode,
            rigmode,
            freq as int,
            corner_20m_bottom,
            cw_bandwidth,
        ),
{
    match trxmode {
        TrxMode::Ssb => Some((get_ssb_mode(freq, corner_20m_bottom), RIG_PASSBAND_NOCHANGE)),
        TrxMode::Digi => {
            let m = match rigmode {
                Some(m) => m,
                None => RIG_MODE_NONE,
            };
            if m & (RIG_MODE_LSB | RIG_MODE_USB | RIG_MODE_RTTY | RIG_MODE_RTTYR) != m {
                Some((RIG_MODE_LSB, RIG_PASSBAND_NOCHANGE))
            } else {
                None
            }
        },
        TrxMode::Cw => Some(
            (
                RIG_MODE_CW,
                match cw_bandwidth {
                    Some(b) => b,
                    None => RIG_PASSBAND_NOCHANGE,
                },
            ),
        ),
    }
}

impl Rig {
    /// Whether the rate limit lets a poll run now: the first poll is
    /// always due, later ones only once the interval has passed.
    pub open spec fn poll_due_spec(&self, now_ms: u64) -> bool {
        match self.state {
            Some(s) => now_ms - s.time_ms >= POLL_PERIOD_MS,
            None => true,
        }
    }

    /// A PTT write is needed only when PTT is in use and the value
    /// actually changes.
    pub open spec fn ptt_write_needed(&self, ptt: bool) -> bool {
        self.use_ptt && self.ptt_state != ptt
    }

    /// Debounced PTT: decides whether the hardware must be written.
    pub fn set_ptt_plan(&self, ptt: bool) -> (r: Option<bool>)
        ensures
            r == if self.ptt_write_needed(ptt) {
                Some(ptt)
            } else {
                None::<bool>
            },
    {
        if !self.use_ptt || self.ptt_state == ptt {
            None
        } else {
            Some(ptt)
        }
    }

    /// Commits the debounced PTT value only when the hardware write
    /// succeeded; a failed write leaves the cached state untouched, so
    /// the next request retries the toggle.
    pub fn note_ptt_result(&mut self, ptt: bool, retval: i32)
        ensures
            *final(self) == (if retval == RIG_OK {
                Rig { ptt_state: ptt, ..*old(self) }
            } else {
                *old(self)
            }),
    {
        if retval == RIG_OK {
            self.ptt_state = ptt;
        }
    }
}

/// The mode-change requests a symbolic frequency can carry.
pub const SETCWMODE: i64 = -1;

/// Request to switch to SSB.
pub const SETSSBMODE: i64 = -2;

/// Request to switch to a digital mode.
pub const SETDIGIMODE: i64 = -3;

/// Request to reset the receiver incremental tuning.
pub const RESETRIT: i64 = -4;

/// A request for the thread that owns the rig.
#[derive(Clone, PartialEq, Eq, Structural, Debug)]
pub enum RigCommand {
    /// Tune to this display frequency in Hz.
    SetFreq(i64),
    /// Force CW mode with the configured passband.
    SetCwMode,
    /// Force the sideband chosen for this frequency.
    SetSsbMode(i64),
    /// Force this digital mode.
    SetDigiMode(u64),
    /// Reset the receiver incremental tuning.
    ResetRit,
    /// Write this keyer speed.
    SetKeyerSpeed(u32),
    /// Stop the keyer.
    StopKeyer,
    /// Key or unkey the transmitter.
    SetPtt(bool),
}

/// What `set_outfreq` asks of the rig thread: nothing without rig
/// control or for a zero frequency; a tune request for a positive
/// frequency; one of the symbolic mode requests for the known negative
/// values.
pub open spec fn outfreq_spec(
    hertz: i64,
    trx_control: bool,
    digi_mode: Option<u64>,
    is_fldigi: bool,
) -> Option<RigCommand> {
    if !trx_control {
        None
    } else if hertz > 0 {
        Some(RigCommand::SetFreq(hertz))
    } else if hertz == SETCWMODE {
        Some(RigCommand::SetCwMode)
    } else if hertz == SETSSBMODE {
        Some(RigCommand::SetSsbMode(hertz))
    } else if hertz == SETDIGIMODE {
        let mode = match digi_mode {
            Some(m) => m,
            None => if is_fldigi {
                RIG_MODE_USB
            } else {
                RIG_MODE_LSB
            },
        };
        Some(RigCommand::SetDigiMode(mode))
    } else if hertz == RESETRIT {
        Some(RigCommand::ResetRit)
    } else {
        None
    }
}

/// Translates a frequency request into a rig command.  A negative
/// value is a symbolic mode-change request and must be one of the
/// known ones; zero is ignored.
pub fn set_outfreq(hertz: i64, trx_control: bool, digi_mode: Option<u64>, is_fldigi: bool) -> (r:
    Option<RigCommand>)
    requires
        hertz >= 0 || hertz == SETCWMODE || hertz == SETSSBMODE || hertz == SETDIGIMODE || hertz
            == RESETRIT,
    ensures
        r == outfreq_spec(hertz, trx_control, digi_mode, is_fldigi),
{
    if !trx_control {
        return None;
    }
    if hertz > 0 {
        Some(RigCommand::SetFreq(hertz))
    } else if hertz == SETCWMODE {
        Some(RigCommand::SetCwMode)
    } else if hertz == SETSSBMODE {
        Some(RigCommand::SetSsbMode(hertz))
    } else if hertz == SETDIGIMODE {
        let mode: u64 = match digi_mode {
            Some(m) => m,
            None => if is_fldigi {
                RIG_MODE_USB
            } else {
                RIG_MODE_LSB
            },
        };
        Some(RigCommand::SetDigiMode(mode))
    } else if hertz == RESETRIT {
        Some(RigCommand::ResetRit)
    } else {
        None
    }
}

/// A write the rig thread performs on the hardware.
#[derive(Clone, PartialEq, Eq, Structural, Debug)]
pub enum RigAction {
    /// Tune to this radio frequency in Hz.
    SetFreq(i64),
    /// Set this mode with this passband.
    SetMode(u64, i64),
    /// Announce the new frequency for band-switching peripherals.
    SendBandswitch(i64),
    /// Publish this display frequency and its band index.
    PublishFreq(i64, Option<usize>),
    /// Publish that no frequency could be read.
    ClearFreq,
    /// Write this keyer speed to the rig.
    SetKeyerSpeed(u32),
    /// Stop the rig's Morse keyer.
    StopMorse,
    /// Redraw the displayed CW speed.
    DisplayCwSpeed(u32),
    /// Reset the receiver incremental tuning.
    ResetRit,
    /// Key or unkey the transmitter.
    SetPtt(bool),
    /// Close the open connection.
    Close,
    /// Release the library handle; runs whatever else happened.
    Cleanup,
}

/// The carrier offset of a snapshot, zero when none applies.
pub open spec fn carrier_of(state: Option<RigState>) -> int {
    match state {
        Some(s) => match s.fldigi_carrier {
            Some(c) => c as int,
            None => 0,
        },
        None => 0,
    }
}

/// Display frequencies add the digital carrier offset to the radio
/// frequency.
pub fn radio_to_display_frequency(freq: i64, carrier: i64) -> (r: i64)
    requires
        -0x2000_0000_0000_0000 <= freq <= 0x2000_0000_0000_0000,
        -0x2000_0000_0000_0000 <= carrier <= 0x2000_0000_0000_0000,
    ensures
        r == freq + carrier,
{
    freq + carrier
}

/// Radio frequencies subtract the digital carrier offset from the
/// display frequency.
pub fn display_to_radio_frequency(freq: i64, carrier: i64) -> (r: i64)
    requires
        -0x2000_0000_0000_0000 <= freq <= 0x2000_0000_0000_0000,
        -0x2000_0000_0000_0000 <= carrier <= 0x2000_0000_0000_0000,
    ensures
        r == freq - carrier,
{
    freq - carrier
}

/// Reconciles the rig's reported keyer speed into the application's
/// speed table.  Returns the rounded speed to write back when the
/// table rounding changed the value, so that indicator and hardware
/// agree.
pub fn keyer_speed_sync(speed: &mut CwSpeedState, rig_speed: u32) -> (r: Option<u32>)
    ensures
        final(speed).inv(),
        final(speed).index_spec() == speed_conversion_spec(rig_speed),
        r == if speeds_spec()[speed_conversion_spec(rig_speed)] != rig_speed {
            Some(speeds_spec()[speed_conversion_spec(rig_speed)])
        } else {
            None::<u32>
        },
{
    speed.SetCWSpeed(rig_speed);
    let rounded = speed.GetCWSpeed();
    if rounded != rig_speed {
        Some(rounded)
    } else {
        None
    }
}

/// Index of the first occurrence of `b` in `s`, or `s.len()` when `b`
/// does not occur.
pub open spec fn find_byte(s: Seq<u8>, b: u8) -> int
    decreases s.len(),
{
    if s.len() == 0 {
        0
    } else if s[0] == b {
        0
    } else {
        1 + find_byte(s.drop_first(), b)
    }
}

/// The defining properties of `find_byte`.
pub proof fn lemma_find_byte(s: Seq<u8>, b: u8)
    ensures
        0 <= find_byte(s, b) <= s.len(),
        forall|j: int| 0 <= j < find_byte(s, b) ==> s[j] != b,
        find_byte(s, b) < s.len() ==> s[find_byte(s, b)] == b,
    decreases s.len(),
{
    if s.len() > 0 && s[0] != b {
        lemma_find_byte(s.drop_first(), b);
        let rest = s.drop_first();
        assert forall|j: int| 0 <= j < find_byte(s, b) implies s[j] != b by {
            if j > 0 {
                assert(rest[j - 1] == s[j]);
            }
        }
        if find_byte(s, b) < s.len() {
            assert(rest[find_byte(s, b) - 1] == s[find_byte(s, b)]);
        }
    }
}

/// A directive is well formed when it has a nonempty parameter before
/// an equals sign.
pub open spec fn wf_directive(seg: Seq<u8>) -> bool {
    let e = find_byte(seg, 61);
    0 < e < seg.len()
}

/// A configuration string is well formed when every comma-separated
/// directive is.
pub open spec fn wf_rigconf_list(s: Seq<u8>) -> bool
    decreases s.len(),
{
    let k = find_byte(s, 44);
    if k >= s.len() {
        wf_directive(s)
    } else if k < 0 {
        false
    } else {
        wf_directive(s.take(k)) && wf_rigconf_list(s.skip(k + 1))
    }
}

/// The parameter and value of one directive.
pub open spec fn directive_pair(seg: Seq<u8>) -> (Seq<u8>, Seq<u8>) {
    let e = find_byte(seg, 61);
    (seg.take(e), seg.skip(e + 1))
}

/// The parameter/value pairs of a well-formed configuration string.
pub open spec fn rigconf_pairs_spec(s: Seq<u8>) -> Seq<(Seq<u8>, Seq<u8>)>
    decreases s.len(),
{
    let k = find_byte(s, 44);
    if k >= s.len() {
        seq![directive_pair(s)]
    } else if k < 0 {
        Seq::empty()
    } else {
        seq![directive_pair(s.take(k))] + rigconf_pairs_spec(s.skip(k + 1))
    }
}

/// The parsed vector carries exactly these parameter/value pairs.
pub open spec fn pairs_match(pairs: Seq<(Vec<u8>, Vec<u8>)>, model: Seq<(Seq<u8>, Seq<u8>)>) -> bool {
    pairs.len() == model.len() && (forall|i: int|
        0 <= i < pairs.len() ==> (#[trigger] pairs[i]).0@ == model[i].0 && pairs[i].1@
            == model[i].1)
}

/// First position of `b` in `s` at or after `pos`, or the length.
pub fn find_from(s: &[u8], pos: usize, b: u8) -> (r: usize)
    requires
        pos <= s@.len(),
    ensures
        pos <= r <= s@.len(),
        r - pos == find_byte(s@.skip(pos as int), b),
        forall|j: int| pos <= j < r ==> s@[j] != b,
        r < s@.len() ==> s@[r as int] == b,
{
    let n = s.len();
    let mut j = pos;
    while j < n
        invariant
            pos <= j <= n,
            n == s@.len(),
            find_byte(s@.skip(pos as int), b) == (j - pos) + find_byte(s@.skip(j as int), b),
            forall|i: int| pos <= i < j ==> s@[i] != b,
        decreases n - j,
    {
        if s[j] == b {
            proof {
                let sj = s@.skip(j as int);
                assert(sj[0] == s@[j as int]);
                lemma_find_byte(s@.skip(pos as int), b);
            }
            return j;
        }
        proof {
            let sj = s@.skip(j as int);
            assert(sj[0] == s@[j as int]);
            assert(sj.drop_first() =~= s@.skip(j as int + 1));
        }
        j = j + 1;
    }
    proof {
        assert(s@.skip(n as int) =~= Seq::<u8>::empty());
        lemma_find_byte(s@.skip(pos as int), b);
    }
    n
}

/// Parses the backend configuration directives: comma-separated
/// `parameter=value` pairs, each parameter nonempty.  An empty string
/// means no directives; any malformed directive refuses the whole
/// string.
#[verifier::rlimit(80)]
pub fn parse_rigconf(s: &[u8]) -> (r: Result<Vec<(Vec<u8>, Vec<u8>)>, Error>)
    ensures
        s@.len() == 0 ==> (r matches Ok(pairs) ==> pairs@.len() == 0) && r is Ok,
        s@.len() > 0 ==> (r is Ok <==> wf_rigconf_list(s@)),
        s@.len() > 0 ==> (r matches Ok(pairs) ==> pairs_match(pairs@, rigconf_pairs_spec(s@))),
        r matches Err(e) ==> e == Error::InvalidRigconf,
{
    let n = s.len();
    let mut out: Vec<(Vec<u8>, Vec<u8>)> = Vec::new();
    if n == 0 {
        return Ok(out);
    }

    let mut pos: usize = 0;
    proof {
        assert(s@.skip(0) =~= s@);
    }
    loop
        invariant
            n == s@.len(),
            0 < n,
            pos <= n,
            wf_rigconf_list(s@) == wf_rigconf_list(s@.skip(pos as int)),
            wf_rigconf_list(s@) ==> rigconf_pairs_spec(s@) =~= pairs_view(out@)
                + rigconf_pairs_spec(s@.skip(pos as int)),
            wf_rigconf_list(s@) ==> pairs_match(out@, pairs_view(out@)),
        decreases n - pos,
    {
        let ghost rem = s@.skip(pos as int);
        let k = find_from(s, pos, 44);
        let e = find_from(s, pos, 61);
        proof {
            lemma_find_byte(rem, 44);
            lemma_find_byte(rem, 61);
        }
        let ghost seg = if (k - pos) >= rem.len() {
            rem
        } else {
            rem.take(k - pos)
        };
        proof {
            if (k - pos) < rem.len() {
                assert(seg =~= s@.subrange(pos as int, k as int));
            } else {
                assert(seg =~= s@.subrange(pos as int, n as int));
            }
        }
        // Locate the equals sign inside this directive.
        proof {
            lemma_find_byte(seg, 61);
            if e < k {
                // found before the comma: it is the segment's first
                assert(seg[e - pos] == s@[e as int]);
                assert forall|j: int| 0 <= j < e - pos implies seg[j] != 61 by {
                    assert(seg[j] == s@[pos + j]);
                }
                assert(find_byte(seg, 61) == e - pos);
            } else {
                // not inside the segment at all
                assert forall|j: int| 0 <= j < seg.len() implies seg[j] != 61 by {
                    assert(seg[j] == s@[pos + j]);
                }
                assert(find_byte(seg, 61) == seg.len());
            }
        }
        let seg_end = if k < n {
            k
        } else {
            n
        };
        if e == pos || e >= seg_end {
            // parameter empty, or no equals sign in this directive
            proof {
                assert(!wf_directive(seg));
                if (k - pos) < rem.len() {
                    assert(rem.take(k - pos) == seg);
                }
                assert(!wf_rigconf_list(rem));
            }
            return Err(Error::InvalidRigconf);
        }
        let param = vstd::slice::slice_to_vec(vstd::slice::slice_subrange(s, pos, e));
        let value = vstd::slice::slice_to_vec(vstd::slice::slice_subrange(s, e + 1, seg_end));
        proof {
            assert(wf_directive(seg));
            assert(param@ =~= directive_pair(seg).0);
            assert(value@ =~= directive_pair(seg).1);
        }
        let ghost old_out = out@;
        out.push((param, value));
        proof {
            assert(pairs_view(out@) =~= pairs_view(old_out) + seq![directive_pair(seg)]);
        }
        if k >= n {
            proof {
                assert(wf_rigconf_list(rem) == wf_directive(seg));
                assert(rigconf_pairs_spec(rem) =~= seq![directive_pair(seg)]);
                if wf_rigconf_list(s@) {
                    assert(rigconf_pairs_spec(s@) =~= pairs_view(out@));
                }
            }
            return Ok(out);
        }
        proof {
            assert(rem.take(k - pos) == seg);
            assert(rem.skip(k - pos + 1) =~= s@.skip(k as int + 1));
            assert(wf_rigconf_list(rem) == (wf_directive(seg) && wf_rigconf_list(
                s@.skip(k as int + 1),
            )));
            if wf_rigconf_list(s@) {
                assert(rigconf_pairs_spec(rem) =~= seq![directive_pair(seg)]
                    + rigconf_pairs_spec(s@.skip(k as int + 1)));
            }
        }
        pos = k + 1;
    }
}

/// The pairs a parsed vector carries, as sequences.
pub open spec fn pairs_view(pairs: Seq<(Vec<u8>, Vec<u8>)>) -> Seq<(Seq<u8>, Seq<u8>)> {
    pairs.map_values(|p: (Vec<u8>, Vec<u8>)| (p.0@, p.1@))
}

/// One poll cycle's hardware readings, handed in by the thread that
/// owns the rig.
#[derive(Clone, Copy, Debug)]
pub struct PollReadings {
    /// The active tuning register, or the library's error code.
    pub vfo: Result<u32, i32>,
    /// The tuned frequency in Hz, or the library's error code.
    pub freq: Result<i64, i32>,
    /// Mode bitmask and passband width, or the library's error code.
    pub mode: Result<(u64, i64), i32>,
    /// The companion program's carrier offset, read only when a
    /// digital software modem is active.
    pub fldigi_carrier: i64,
    /// The rig's keyer speed, read only when the session uses the
    /// rig's keyer.
    pub keyer_speed: Result<u32, i32>,
}

/// Frequencies and offsets a real radio reports stay far inside these
/// bounds; they keep the display arithmetic exact.
pub open spec fn readings_bounded(r: PollReadings) -> bool {
    &&& match r.freq {
        Ok(f) => -0x100_0000_0000 <= f <= 0x100_0000_0000,
        Err(_) => true,
    }
    &&& -0x8000_0000 <= r.fldigi_carrier <= 0x8000_0000
}

/// A tuning-register read that failed only because the backend cannot
/// answer it is tolerated.
pub open spec fn vfo_tolerable(v: Result<u32, i32>) -> bool {
    match v {
        Ok(_) => true,
        Err(e) => e == ENIMPL || e == ENAVAIL,
    }
}

/// The digital carrier offset applies only in digital mode with one of
/// the software-modem keyers.
pub open spec fn carrier_applies(trxmode: TrxMode, digikeyer: DigiKeyerKind) -> bool {
    trxmode == TrxMode::Digi && (digikeyer == DigiKeyerKind::Gmfsk || digikeyer
        == DigiKeyerKind::Fldigi)
}

/// The snapshot one poll cycle produces from its readings: reads stop
/// at the first intolerable failure, and the band index is derived
/// from the display frequency.
pub open spec fn poll_state_spec(
    readings: PollReadings,
    time_ms: u64,
    trxmode: TrxMode,
    digikeyer: DigiKeyerKind,
    corners: Seq<(u32, u32)>,
) -> RigState {
    let base = RigState {
        vfo: None,
        freq: None,
        mode: None,
        bandwidth: None,
        bandidx: None,
        fldigi_carrier: None,
        time_ms,
    };
    if !vfo_tolerable(readings.vfo) {
        base
    } else {
        let vfo = match readings.vfo {
            Ok(v) => Some(v),
            Err(_) => None,
        };
        match readings.freq {
            Err(_) => RigState { vfo, ..base },
            Ok(f) => {
                let mode = match readings.mode {
                    Ok(mb) => Some(mb.0),
                    Err(_) => None,
                };
                let bandwidth = match readings.mode {
                    Ok(mb) => Some(mb.1),
                    Err(_) => None,
                };
                let carrier = if carrier_applies(trxmode, digikeyer) {
                    Some(readings.fldigi_carrier)
                } else {
                    None
                };
                let carrier_val: int = match carrier {
                    Some(c) => c as int,
                    None => 0,
                };
                let bandidx = match band_lookup(corners, freq_to_u32_spec(f + carrier_val)) {
                    Some(i) => Some(i as usize),
                    None => None,
                };
                RigState {
                    vfo,
                    freq: Some(f),
                    mode,
                    bandwidth,
                    bandidx,
                    fldigi_carrier: carrier,
                    time_ms,
                }
            },
        }
    }
}

/// Builds one poll snapshot from the cycle's readings.
pub fn rig_state_poll(
    readings: &PollReadings,
    time_ms: u64,
    trxmode: TrxMode,
    digikeyer: DigiKeyerKind,
    corners: &Vec<(u32, u32)>,
) -> (st: RigState)
    requires
        readings_bounded(*readings),
    ensures
        st == poll_state_spec(*readings, time_ms, trxmode, digikeyer, corners@),
{
    let mut out = RigState {
        vfo: None,
        freq: None,
        mode: None,
        bandwidth: None,
        bandidx: None,
        fldigi_carrier: None,
        time_ms,
    };
    match readings.vfo {
        Ok(v) => {
            out.vfo = Some(v);
        },
        Err(e) => {
            if !(e == ENIMPL || e == ENAVAIL) {
                return out;
            }
        },
    }
    let f = match readings.freq {
        Ok(f) => f,
        Err(_) => {
            return out;
        },
    };
    out.freq = Some(f);
    match readings.mode {
        Ok(mb) => {
            out.mode = Some(mb.0);
            out.bandwidth = Some(mb.1);
        },
        Err(_) => {},
    }
    let is_digi = match trxmode {
        TrxMode::Digi => true,
        _ => false,
    };
    let keyer_is_modem = match digikeyer {
        DigiKeyerKind::Gmfsk => true,
        DigiKeyerKind::Fldigi => true,
        _ => false,
    };
    let mut carrier_val: i64 = 0;
    if is_digi && keyer_is_modem {
        out.fldigi_carrier = Some(readings.fldigi_carrier);
        carrier_val = readings.fldigi_carrier;
    }
    out.bandidx = freq2bandindex(corners, freq_to_u32(f + carrier_val));
    out
}

/// The band index of the previous snapshot, if any.
pub open spec fn prev_bandidx_of(rig: Rig) -> Option<usize> {
    match rig.state {
        Some(s) => s.bandidx,
        None => None,
    }
}

/// The display frequency of a snapshot: radio frequency plus carrier
/// offset.
pub open spec fn display_freq_of(st: RigState) -> int {
    (match st.freq {
        Some(f) => f as int,
        None => 0,
    }) + (match st.fldigi_carrier {
        Some(c) => c as int,
        None => 0,
    })
}

/// The poll result owed to the keyer-speed read: its failure is the
/// cycle's failure when the session uses the rig's keyer.
pub open spec fn poll_keyer_result(use_keyer: bool, keyer_speed: Result<u32, i32>) -> Result<
    (),
    Error,
> {
    if use_keyer {
        match keyer_speed {
            Ok(_) => Ok(()),
            Err(e) => Err(Error::Generic(e)),
        }
    } else {
        Ok(())
    }
}

/// The speed-table index after a poll: re-read hardware speed wins,
/// rounded into the table, when it differs from the displayed speed.
pub open spec fn poll_keyer_index(
    use_keyer: bool,
    keyer_speed: Result<u32, i32>,
    old_wpm: u32,
    old_index: int,
) -> int {
    if use_keyer {
        match keyer_speed {
            Ok(sp) => if old_wpm != sp {
                speed_conversion_spec(sp)
            } else {
                old_index
            },
            Err(_) => old_index,
        }
    } else {
        old_index
    }
}

/// The redraw a poll owes: the rounded speed, when rounding moved the
/// hardware's value.
pub open spec fn poll_keyer_display(
    use_keyer: bool,
    keyer_speed: Result<u32, i32>,
    old_wpm: u32,
) -> Seq<RigAction> {
    if use_keyer {
        match keyer_speed {
            Ok(sp) => if old_wpm != sp && speeds_spec()[speed_conversion_spec(sp)] != sp {
                seq![RigAction::DisplayCwSpeed(speeds_spec()[speed_conversion_spec(sp)])]
            } else {
                Seq::empty()
            },
            Err(_) => Seq::empty(),
        }
    } else {
        Seq::empty()
    }
}

/// Every write a successful poll performs, in order: the shift
/// correction, the frequency publication, and on a band change the
/// band announcement and the re-applied mode, then the speed redraw.
pub open spec fn poll_actions_spec(
    old_rig: Rig,
    st: RigState,
    trxmode: TrxMode,
    corner_20m_bottom: u32,
    old_shift: i32,
    old_wpm: u32,
    keyer_speed: Result<u32, i32>,
) -> Seq<RigAction> {
    let display = display_freq_of(st);
    let shift_part = if st.fldigi_carrier is Some && shift_applies(st.mode, old_shift) {
        seq![RigAction::SetFreq((display + old_shift) as i64)]
    } else {
        Seq::empty()
    };
    let publish_part = if display > 0 {
        seq![RigAction::PublishFreq(display as i64, st.bandidx)]
    } else {
        Seq::empty()
    };
    let band_part = if st.bandidx != prev_bandidx_of(old_rig) {
        seq![RigAction::SendBandswitch(display as i64)] + (match band_mode_decision_spec(
            trxmode,
            st.mode,
            display,
            corner_20m_bottom,
            old_rig.cw_bandwidth,
        ) {
            Some(mw) => seq![RigAction::SetMode(mw.0, mw.1)],
            None => Seq::empty(),
        })
    } else {
        Seq::empty()
    };
    shift_part + publish_part + band_part + poll_keyer_display(
        old_rig.use_keyer,
        keyer_speed,
        old_wpm,
    )
}

/// The complete effect of one poll call: the rig afterwards, the
/// speed-table index afterwards, the pending shift afterwards, the
/// result, and the hardware writes, in order.  Within the rate-limit
/// window nothing happens and nothing changes; a cycle that cannot
/// read the frequency clears the snapshot and publishes that failure.
pub open spec fn poll_model(
    old_rig: Rig,
    old_speed_index: int,
    old_shift: i32,
    now_ms: u64,
    trxmode: TrxMode,
    digikeyer: DigiKeyerKind,
    corners: Seq<(u32, u32)>,
    corner_20m_bottom: u32,
    readings: PollReadings,
) -> (Rig, int, i32, Result<(), Error>, Seq<RigAction>) {
    if !old_rig.poll_due_spec(now_ms) {
        (old_rig, old_speed_index, old_shift, Result::<(), Error>::Ok(()), Seq::empty())
    } else {
        let st = poll_state_spec(readings, now_ms, trxmode, digikeyer, corners);
        if st.freq is None {
            (
                Rig { state: None, ..old_rig },
                old_speed_index,
                old_shift,
                Result::<(), Error>::Err(Error::Poll),
                seq![RigAction::ClearFreq],
            )
        } else {
            let old_wpm = speeds_spec()[old_speed_index];
            let new_shift: i32 = if st.fldigi_carrier is Some && shift_applies(
                st.mode,
                old_shift,
            ) {
                0
            } else {
                old_shift
            };
            (
                Rig { state: Some(st), ..old_rig },
                poll_keyer_index(old_rig.use_keyer, readings.keyer_speed, old_wpm, old_speed_index),
                new_shift,
                poll_keyer_result(old_rig.use_keyer, readings.keyer_speed),
                poll_actions_spec(
                    old_rig,
                    st,
                    trxmode,
                    corner_20m_bottom,
                    old_shift,
                    old_wpm,
                    readings.keyer_speed,
                ),
            )
        }
    }
}

impl Rig {
    /// One rate-limited poll cycle over the readings the owning thread
    /// gathered: takes a fresh snapshot, publishes the display
    /// frequency, re-applies the mode on a band change, and reconciles
    /// the keyer speed.  Rig poll rate limiting: a second call within
    /// the rate-limit window leaves the previous snapshot untouched
    /// and performs nothing.
    #[verifier::rlimit(80)]
    pub fn poll(
        &mut self,
        speed: &mut CwSpeedState,
        shift: &mut ShiftState,
        now_ms: u64,
        trxmode: TrxMode,
        digikeyer: DigiKeyerKind,
        corners: &Vec<(u32, u32)>,
        corner_20m_bottom: u32,
        readings: &PollReadings,
    ) -> (r: (Result<(), Error>, Vec<RigAction>))
        requires
            old(speed).inv(),
            readings_bounded(*readings),
            match old(self).state {
                Some(s) => s.time_ms <= now_ms,
                None => true,
            },
        ensures
            final(speed).inv(),
            *final(self) == poll_model(
                *old(self),
                old(speed).index_spec(),
                old(shift).shift_spec(),
                now_ms,
                trxmode,
                digikeyer,
                corners@,
                corner_20m_bottom,
                *readings,
            ).0,
            final(speed).index_spec() == poll_model(
                *old(self),
                old(speed).index_spec(),
                old(shift).shift_spec(),
                now_ms,
                trxmode,
                digikeyer,
                corners@,
                corner_20m_bottom,
                *readings,
            ).1,
            final(shift).shift_spec() == poll_model(
                *old(self),
                old(speed).index_spec(),
                old(shift).shift_spec(),
                now_ms,
                trxmode,
                digikeyer,
                corners@,
                corner_20m_bottom,
                *readings,
            ).2,
            r.0 == poll_model(
                *old(self),
                old(speed).index_spec(),
                old(shift).shift_spec(),
                now_ms,
                trxmode,
                digikeyer,
                corners@,
                corner_20m_bottom,
                *readings,
            ).3,
            r.1@ == poll_model(
                *old(self),
                old(speed).index_spec(),
                old(shift).shift_spec(),
                now_ms,
                trxmode,
                digikeyer,
                corners@,
                corner_20m_bottom,
                *readings,
            ).4,
    {
        let ghost m = poll_model(
            *old(self),
            old(speed).index_spec(),
            old(shift).shift_spec(),
            now_ms,
            trxmode,
            digikeyer,
            corners@,
            corner_20m_bottom,
            *readings,
        );
        let due = match &self.state {
            Some(s) => now_ms - s.time_ms >= POLL_PERIOD_MS,
            None => true,
        };
        let mut actions: Vec<RigAction> = Vec::new();
        if !due {
            proof {
                assert(actions@ =~= m.4);
            }
            return (Ok(()), actions);
        }

        let st = rig_state_poll(readings, now_ms, trxmode, digikeyer, corners);
        let ghost st_g = st;

        let f = match st.freq {
            Some(f) => f,
            None => {
                self.state = None;
                actions.push(RigAction::ClearFreq);
                proof {
                    assert(actions@ =~= m.4);
                }
                return (Err(Error::Poll), actions);
            },
        };

        let carrier: i64 = match st.fldigi_carrier {
            Some(c) => c,
            None => 0,
        };
        let display: i64 = f + carrier;
        proof {
            assert(display == display_freq_of(st_g));
        }

        let carrier_present = match st.fldigi_carrier {
            Some(_) => true,
            None => false,
        };
        if carrier_present {
            let shifted = shift.get_shifted_freq(st.mode);
            if let Some(sh) = shifted {
                actions.push(RigAction::SetFreq(display + sh as i64));
            }
        }

        if display > 0 {
            actions.push(RigAction::PublishFreq(display, st.bandidx));
        }

        let prev_bandidx = match &self.state {
            Some(s) => s.bandidx,
            None => None,
        };
        let band_changed = match (st.bandidx, prev_bandidx) {
            (Some(a), Some(b)) => a != b,
            (None, None) => false,
            _ => true,
        };
        if band_changed {
            actions.push(RigAction::SendBandswitch(display));
            let decision = set_band_mode_decision(
                trxmode,
                st.mode,
                display,
                corner_20m_bottom,
                self.cw_bandwidth,
            );
            if let Some(mw) = decision {
                actions.push(RigAction::SetMode(mw.0, mw.1));
            }
        }

        self.state = Some(st);

        let mut result: Result<(), Error> = Ok(());
        if self.use_keyer {
            match readings.keyer_speed {
                Err(e) => {
                    result = Err(Error::Generic(e));
                },
                Ok(sp) => {
                    let cur = speed.GetCWSpeed();
                    if cur != sp {
                        if let Some(rounded) = keyer_speed_sync(speed, sp) {
                            actions.push(RigAction::DisplayCwSpeed(rounded));
                        }
                    }
                },
            }
        }
        proof {
            assert(actions@ =~= m.4);
        }
        (result, actions)
    }
}

/// Rig poll rate limiting: a poll within the rate-limit window leaves
/// the rig, the speed state and the pending shift exactly as they
/// were, performs no hardware write, and reports success.
pub proof fn lemma_poll_rate_limited(
    rig: Rig,
    speed_index: int,
    sh: i32,
    now_ms: u64,
    trxmode: TrxMode,
    digikeyer: DigiKeyerKind,
    corners: Seq<(u32, u32)>,
    corner_20m_bottom: u32,
    readings: PollReadings,
)
    requires
        rig.state matches Some(s) && now_ms - s.time_ms < POLL_PERIOD_MS,
    ensures
        poll_model(
            rig,
            speed_index,
            sh,
            now_ms,
            trxmode,
            digikeyer,
            corners,
            corner_20m_bottom,
            readings,
        ) == (rig, speed_index, sh, Result::<(), Error>::Ok(()), Seq::<RigAction>::empty()),
{
}

/// Number of mode-setting writes in an action list.
pub open spec fn count_set_mode(s: Seq<RigAction>) -> int
    decreases s.len(),
{
    if s.len() == 0 {
        0
    } else {
        (if s[0] matches RigAction::SetMode(_, _) {
            1int
        } else {
            0int
        }) + count_set_mode(s.drop_first())
    }
}

/// Mode-write counting distributes over concatenation.
pub proof fn lemma_count_set_mode_add(a: Seq<RigAction>, b: Seq<RigAction>)
    ensures
        count_set_mode(a + b) == count_set_mode(a) + count_set_mode(b),
    decreases a.len(),
{
    if a.len() == 0 {
        assert(a + b =~= b);
    } else {
        assert((a + b).drop_first() =~= a.drop_first() + b);
        assert((a + b)[0] == a[0]);
        lemma_count_set_mode_add(a.drop_first(), b);
    }
}

/// The count of a one-element list.
pub proof fn lemma_count_set_mode_singleton(a: RigAction)
    ensures
        count_set_mode(seq![a]) == (if a matches RigAction::SetMode(_, _) {
            1int
        } else {
            0int
        }),
{
    assert(seq![a].len() == 1);
    assert(seq![a][0] == a);
    assert(seq![a].drop_first() =~= Seq::<RigAction>::empty());
    assert(count_set_mode(Seq::<RigAction>::empty()) == 0);
}

/// Band-change mode reapplication: a poll that crosses from one band
/// index to another performs the mode write exactly once — with SSB
/// selecting the sideband by the 20 m lower corner — and a poll that
/// stays in its band performs none.
pub proof fn lemma_band_change_mode(
    rig: Rig,
    speed_index: int,
    sh: i32,
    now_ms: u64,
    trxmode: TrxMode,
    digikeyer: DigiKeyerKind,
    corners: Seq<(u32, u32)>,
    corner_20m_bottom: u32,
    readings: PollReadings,
)
    requires
        rig.poll_due_spec(now_ms),
        poll_state_spec(readings, now_ms, trxmode, digikeyer, corners).freq is Some,
        0 <= speed_index < speeds_spec().len(),
    ensures
        ({
            let st = poll_state_spec(readings, now_ms, trxmode, digikeyer, corners);
            let actions = poll_model(
                rig,
                speed_index,
                sh,
                now_ms,
                trxmode,
                digikeyer,
                corners,
                corner_20m_bottom,
                readings,
            ).4;
            let decision = band_mode_decision_spec(
                trxmode,
                st.mode,
                display_freq_of(st),
                corner_20m_bottom,
                rig.cw_bandwidth,
            );
            &&& st.bandidx != prev_bandidx_of(rig) ==> count_set_mode(actions) == (
            if decision is Some {
                1int
            } else {
                0int
            })
            &&& st.bandidx != prev_bandidx_of(rig) && trxmode == TrxMode::Ssb
                ==> actions.contains(
                RigAction::SetMode(
                    ssb_mode_spec(display_freq_of(st), corner_20m_bottom),
                    RIG_PASSBAND_NOCHANGE,
                ),
            )
            &&& st.bandidx == prev_bandidx_of(rig) ==> count_set_mode(actions) == 0
        }),
{
    let st = poll_state_spec(readings, now_ms, trxmode, digikeyer, corners);
    let display = display_freq_of(st);
    let old_wpm = speeds_spec()[speed_index];
    let shift_part: Seq<RigAction> = if st.fldigi_carrier is Some && shift_applies(st.mode, sh) {
        seq![RigAction::SetFreq((display + sh) as i64)]
    } else {
        Seq::empty()
    };
    let publish_part: Seq<RigAction> = if display > 0 {
        seq![RigAction::PublishFreq(display as i64, st.bandidx)]
    } else {
        Seq::empty()
    };
    let decision = band_mode_decision_spec(
        trxmode,
        st.mode,
        display,
        corner_20m_bottom,
        rig.cw_bandwidth,
    );
    let mode_part: Seq<RigAction> = match decision {
        Some(mw) => seq![RigAction::SetMode(mw.0, mw.1)],
        None => Seq::empty(),
    };
    let band_part: Seq<RigAction> = if st.bandidx != prev_bandidx_of(rig) {
        seq![RigAction::SendBandswitch(display as i64)] + mode_part
    } else {
        Seq::empty()
    };
    let keyer_part = poll_keyer_display(rig.use_keyer, readings.keyer_speed, old_wpm);
    let actions = poll_actions_spec(
        rig,
        st,
        trxmode,
        corner_20m_bottom,
        sh,
        old_wpm,
        readings.keyer_speed,
    );
    assert(actions == shift_part + publish_part + band_part + keyer_part);
    lemma_count_set_mode_add(shift_part + publish_part + band_part, keyer_part);
    lemma_count_set_mode_add(shift_part + publish_part, band_part);
    lemma_count_set_mode_add(shift_part, publish_part);
    if st.fldigi_carrier is Some && shift_applies(st.mode, sh) {
        lemma_count_set_mode_singleton(RigAction::SetFreq((display + sh) as i64));
    }
    if display > 0 {
        lemma_count_set_mode_singleton(RigAction::PublishFreq(display as i64, st.bandidx));
    }
    if rig.use_keyer {
        match readings.keyer_speed {
            Ok(sp) => {
                if old_wpm != sp && speeds_spec()[speed_conversion_spec(sp)] != sp {
                    lemma_count_set_mode_singleton(
                        RigAction::DisplayCwSpeed(speeds_spec()[speed_conversion_spec(sp)]),
                    );
                }
            },
            Err(_) => {},
        }
    }
    if st.bandidx != prev_bandidx_of(rig) {
        match decision {
            Some(mw) => {
                lemma_count_set_mode_add(
                    seq![RigAction::SendBandswitch(display as i64)],
                    mode_part,
                );
                lemma_count_set_mode_singleton(RigAction::SendBandswitch(display as i64));
                lemma_count_set_mode_singleton(RigAction::SetMode(mw.0, mw.1));
                if trxmode == TrxMode::Ssb {
                    let target = RigAction::SetMode(
                        ssb_mode_spec(display, corner_20m_bottom),
                        RIG_PASSBAND_NOCHANGE,
                    );
                    assert(band_part[1] == target);
                    let i = shift_part.len() + publish_part.len() + 1;
                    assert(actions[i as int] == target);
                    assert(actions.contains(target));
                }
            },
            None => {
                lemma_count_set_mode_add(
                    seq![RigAction::SendBandswitch(display as i64)],
                    mode_part,
                );
                lemma_count_set_mode_singleton(RigAction::SendBandswitch(display as i64));
            },
        }
    }
}

/// The hardware writes one rig command translates to: a tune request
/// converts the display frequency back to the radio frequency; mode
/// requests pick the mode; stopping the keyer needs the capability;
/// PTT is debounced.
pub open spec fn rig_command_actions(rig: Rig, cmd: RigCommand, corner_20m_bottom: u32) -> Seq<
    RigAction,
> {
    match cmd {
        RigCommand::SetFreq(f) => seq![RigAction::SetFreq((f - carrier_of(rig.state)) as i64)],
        RigCommand::SetCwMode => seq![
            RigAction::SetMode(
                RIG_MODE_CW,
                match rig.cw_bandwidth {
                    Some(b) => b,
                    None => RIG_PASSBAND_NOCHANGE,
                },
            ),
        ],
        RigCommand::SetSsbMode(f) => seq![
            RigAction::SetMode(ssb_mode_spec(f as int, corner_20m_bottom), RIG_PASSBAND_NOCHANGE),
        ],
        RigCommand::SetDigiMode(m) => seq![RigAction::SetMode(m, RIG_PASSBAND_NOCHANGE)],
        RigCommand::ResetRit => seq![RigAction::ResetRit],
        RigCommand::SetKeyerSpeed(sp) => seq![RigAction::SetKeyerSpeed(sp)],
        RigCommand::StopKeyer => if rig.can_stop_morse {
            seq![RigAction::StopMorse]
        } else {
            Seq::empty()
        },
        RigCommand::SetPtt(p) => if rig.use_ptt && rig.ptt_state != p {
            seq![RigAction::SetPtt(p)]
        } else {
            Seq::empty()
        },
    }
}

/// Executes one queued command against the rig session: decides the
/// hardware writes and records the debounced PTT value.
pub fn run_rig_command(rig: &mut Rig, cmd: &RigCommand, corner_20m_bottom: u32) -> (acts: Vec<
    RigAction,
>)
    requires
        -0x8000_0000 <= carrier_of(old(rig).state) <= 0x8000_0000,
        match *cmd {
            RigCommand::SetFreq(f) => -0x100_0000_0000 <= f <= 0x100_0000_0000,
            _ => true,
        },
    ensures
        acts@ == rig_command_actions(*old(rig), *cmd, corner_20m_bottom),
        *final(rig) == *old(rig),
{
    let mut acts: Vec<RigAction> = Vec::new();
    match cmd {
        RigCommand::SetFreq(f) => {
            let carrier: i64 = match &rig.state {
                Some(st) => match st.fldigi_carrier {
                    Some(c) => c,
                    None => 0,
                },
                None => 0,
            };
            acts.push(RigAction::SetFreq(*f - carrier));
        },
        RigCommand::SetCwMode => {
            let width = match rig.cw_bandwidth {
                Some(b) => b,
                None => RIG_PASSBAND_NOCHANGE,
            };
            acts.push(RigAction::SetMode(RIG_MODE_CW, width));
        },
        RigCommand::SetSsbMode(f) => {
            acts.push(
                RigAction::SetMode(get_ssb_mode(*f, corner_20m_bottom), RIG_PASSBAND_NOCHANGE),
            );
        },
        RigCommand::SetDigiMode(m) => {
            acts.push(RigAction::SetMode(*m, RIG_PASSBAND_NOCHANGE));
        },
        RigCommand::ResetRit => {
            acts.push(RigAction::ResetRit);
        },
        RigCommand::SetKeyerSpeed(sp) => {
            acts.push(RigAction::SetKeyerSpeed(*sp));
        },
        RigCommand::StopKeyer => {
            if rig.can_stop_morse {
                acts.push(RigAction::StopMorse);
            }
        },
        RigCommand::SetPtt(p) => {
            // the new value is committed by note_ptt_result once the
            // write's return code is known
            if let Some(want) = rig.set_ptt_plan(*p) {
                acts.push(RigAction::SetPtt(want));
            }
        },
    }
    proof {
        assert(acts@ =~= rig_command_actions(*old(rig), *cmd, corner_20m_bottom));
    }
    acts
}


/// What the owning thread gathered while opening the rig: the library
/// handle's creation, the per-directive configuration outcomes, the
/// open call's code, the warm-up reads, and the globals the
/// initial-mode request reads at that moment.
#[derive(Debug)]
pub struct OpenReadings {
    /// The library produced a handle for the configured model.
    pub init_ok: bool,
    /// The outcome of writing each configuration directive, in order.
    pub conf_results: Vec<Result<(), i32>>,
    /// The first directive whose parameter resolved to no known token.
    pub conf_token_end: Option<usize>,
    /// The open call's return code.
    pub open_retval: i32,
    /// The warm-up tuning-register read.
    pub vfo: Result<u32, i32>,
    /// The warm-up frequency read.
    pub freq: Result<i64, i32>,
    /// The rig's keyer speed, read only when the session uses the
    /// rig's keyer.
    pub keyer_speed: Result<u32, i32>,
    /// The configured digital mode, when one is set.
    pub digi_mode: Option<u64>,
    /// The digital keyer is the companion program.
    pub is_fldigi: bool,
}

/// The outcome of applying the configuration directives from index
/// `i` on: a directive whose parameter resolves to no token refuses
/// the configuration; a failed write carries the library's code; the
/// first failure in order wins.
pub open spec fn conf_apply_outcome(
    token_end: Option<usize>,
    results: Seq<Result<(), i32>>,
    i: int,
) -> Result<(), Error>
    decreases results.len() - i,
{
    if i < 0 || i >= results.len() {
        Ok(())
    } else if token_end == Some(i as usize) {
        Err(Error::InvalidRigconf)
    } else {
        match results[i] {
            Err(c) => Err(Error::Generic(c)),
            Ok(_) => conf_apply_outcome(token_end, results, i + 1),
        }
    }
}

/// Whether the open sequence succeeds, and with which error it stops:
/// no handle, then the directives in order, then the open call, then
/// the warm-up reads tolerating only the two cannot-answer codes, then
/// the keyer-speed read when the session uses the rig's keyer.
pub open spec fn open_rig_result_spec(use_keyer: bool, r: OpenReadings) -> Result<(), Error> {
    if !r.init_ok {
        Err(Error::InvalidModel)
    } else {
        match conf_apply_outcome(r.conf_token_end, r.conf_results@, 0) {
            Err(e) => Err(e),
            Ok(_) => if r.open_retval != RIG_OK {
                Err(Error::Open(r.open_retval))
            } else {
                match r.vfo {
                    Err(e) => if e == ENIMPL || e == ENAVAIL {
                        open_warmup_rest_spec(use_keyer, r)
                    } else {
                        Err(Error::Generic(e))
                    },
                    Ok(_) => open_warmup_rest_spec(use_keyer, r),
                }
            },
        }
    }
}

/// The warm-up after a tolerated tuning-register read: the frequency
/// must be readable, and so must the keyer speed when it is used.
pub open spec fn open_warmup_rest_spec(use_keyer: bool, r: OpenReadings) -> Result<(), Error> {
    match r.freq {
        Err(c) => Err(Error::Generic(c)),
        Ok(_) => if use_keyer {
            match r.keyer_speed {
                Err(c) => Err(Error::Generic(c)),
                Ok(_) => Ok(()),
            }
        } else {
            Ok(())
        },
    }
}

/// The one mode write the initial operating mode asks for.
pub open spec fn initial_mode_actions_spec(
    trxmode: TrxMode,
    digi_mode: Option<u64>,
    is_fldigi: bool,
    corner_20m_bottom: u32,
    cw_bandwidth: Option<i64>,
) -> Seq<RigAction> {
    match trxmode {
        TrxMode::Cw => seq![
            RigAction::SetMode(
                RIG_MODE_CW,
                match cw_bandwidth {
                    Some(b) => b,
                    None => RIG_PASSBAND_NOCHANGE,
                },
            ),
        ],
        TrxMode::Ssb => seq![
            RigAction::SetMode(
                ssb_mode_spec(SETSSBMODE as int, corner_20m_bottom),
                RIG_PASSBAND_NOCHANGE,
            ),
        ],
        TrxMode::Digi => {
            let m = match digi_mode {
                Some(m) => m,
                None => if is_fldigi {
                    RIG_MODE_USB
                } else {
                    RIG_MODE_LSB
                },
            };
            seq![RigAction::SetMode(m, RIG_PASSBAND_NOCHANGE)]
        },
    }
}

/// The writes a successful open performs, in order: the rounded keyer
/// speed written back when the table rounding moved the rig's value,
/// then the initial operating mode.
pub open spec fn open_rig_actions_spec(
    config: RigConfig,
    r: OpenReadings,
    corner_20m_bottom: u32,
) -> Seq<RigAction> {
    let keyer_part: Seq<RigAction> = if config.use_keyer {
        match r.keyer_speed {
            Ok(sp) => if speeds_spec()[speed_conversion_spec(sp)] != sp {
                seq![RigAction::SetKeyerSpeed(speeds_spec()[speed_conversion_spec(sp)])]
            } else {
                Seq::empty()
            },
            Err(_) => Seq::empty(),
        }
    } else {
        Seq::empty()
    };
    keyer_part + initial_mode_actions_spec(
        config.trxmode,
        r.digi_mode,
        r.is_fldigi,
        corner_20m_bottom,
        config.cw_bandwidth,
    )
}

/// The session record a successful open leaves behind.
pub open spec fn open_rig_rig_spec(config: RigConfig, caps: RigCaps) -> Rig {
    Rig {
        opened: true,
        can_send_morse: caps.can_send_morse,
        can_stop_morse: caps.can_stop_morse,
        cw_bandwidth: config.cw_bandwidth,
        use_ptt: caps.has_ptt && config.want_ptt,
        ptt_state: false,
        use_keyer: config.use_keyer,
        state: None,
    }
}

impl RigConfig {
    /// The whole open sequence over the gathered readings: refuses a
    /// missing handle, a bad directive, a failed open or warm-up, and
    /// on success hands back the open session with the writes still
    /// owed — the rounded keyer speed when rounding moved it, and the
    /// initial mode.  The speed table is synchronized to the rig's
    /// keyer speed exactly on success.
    pub fn open_rig_plan(
        &self,
        caps: RigCaps,
        readings: &OpenReadings,
        speed: &mut CwSpeedState,
        corner_20m_bottom: u32,
    ) -> (r: Result<(Rig, Vec<RigAction>), Error>)
        requires
            self.portname_fits(),
            old(speed).inv(),
            readings.conf_results@.len() == self.rigconf@.len(),
        ensures
            final(speed).inv(),
            r is Ok <==> open_rig_result_spec(self.use_keyer, *readings) is Ok,
            r matches Err(e) ==> open_rig_result_spec(self.use_keyer, *readings) == Err::<
                (),
                Error,
            >(e),
            r matches Ok(p) ==> p.0 == open_rig_rig_spec(*self, caps) && p.1@
                == open_rig_actions_spec(*self, *readings, corner_20m_bottom),
            r is Ok && self.use_keyer ==> (readings.keyer_speed matches Ok(sp)
                && final(speed).index_spec() == speed_conversion_spec(sp)),
            !(r is Ok && self.use_keyer) ==> *final(speed) == *old(speed),
    {
        if !readings.init_ok {
            return Err(Error::InvalidModel);
        }

        let n = self.rigconf.len();
        let ghost token_end = readings.conf_token_end;
        let ghost results = readings.conf_results@;
        let mut i: usize = 0;
        while i < n
            invariant
                n == self.rigconf@.len(),
                results == readings.conf_results@,
                token_end == readings.conf_token_end,
                results.len() == n,
                0 <= i <= n,
                readings.init_ok,
                *speed == *old(speed),
                old(speed).inv(),
                conf_apply_outcome(token_end, results, 0) == conf_apply_outcome(
                    token_end,
                    results,
                    i as int,
                ),
            decreases n - i,
        {
            let token_failed = match readings.conf_token_end {
                Some(t) => t == i,
                None => false,
            };
            if token_failed {
                proof {
                    assert(conf_apply_outcome(token_end, results, i as int) == Err::<(), Error>(
                        Error::InvalidRigconf,
                    ));
                }
                return Err(Error::InvalidRigconf);
            }
            match readings.conf_results[i] {
                Err(c) => {
                    proof {
                        assert(results[i as int] == Err::<(), i32>(c));
                        assert(conf_apply_outcome(token_end, results, i as int) == Err::<
                            (),
                            Error,
                        >(Error::Generic(c)));
                    }
                    return Err(Error::Generic(c));
                },
                Ok(_) => {},
            }
            i = i + 1;
        }

        if readings.open_retval != RIG_OK {
            return Err(Error::Open(readings.open_retval));
        }

        match readings.vfo {
            Err(e) => {
                if !(e == ENIMPL || e == ENAVAIL) {
                    return Err(Error::Generic(e));
                }
            },
            Ok(_) => {},
        }
        match readings.freq {
            Err(c) => {
                return Err(Error::Generic(c));
            },
            Ok(_) => {},
        }

        let mut acts: Vec<RigAction> = Vec::new();
        if self.use_keyer {
            let sp = match readings.keyer_speed {
                Err(c) => {
                    return Err(Error::Generic(c));
                },
                Ok(sp) => sp,
            };
            if let Some(rounded) = keyer_speed_sync(speed, sp) {
                acts.push(RigAction::SetKeyerSpeed(rounded));
            }
        }

        let width = match self.cw_bandwidth {
            Some(b) => b,
            None => RIG_PASSBAND_NOCHANGE,
        };
        match self.trxmode {
            TrxMode::Cw => {
                acts.push(RigAction::SetMode(RIG_MODE_CW, width));
            },
            TrxMode::Ssb => {
                acts.push(
                    RigAction::SetMode(
                        get_ssb_mode(SETSSBMODE, corner_20m_bottom),
                        RIG_PASSBAND_NOCHANGE,
                    ),
                );
            },
            TrxMode::Digi => {
                let m: u64 = match readings.digi_mode {
                    Some(m) => m,
                    None => if readings.is_fldigi {
                        RIG_MODE_USB
                    } else {
                        RIG_MODE_LSB
                    },
                };
                acts.push(RigAction::SetMode(m, RIG_PASSBAND_NOCHANGE));
            },
        }
        proof {
            assert(acts@ =~= open_rig_actions_spec(*self, *readings, corner_20m_bottom));
        }

        let (mut rig, _warn) = self.open_plan(caps);
        rig.opened = true;
        Ok((rig, acts))
    }
}

/// The teardown writes when a session ends: close only an open
/// connection, then release the library handle unconditionally, even
/// when earlier operations failed.
pub fn close_plan(rig: &mut Rig) -> (acts: Vec<RigAction>)
    ensures
        *final(rig) == (Rig { opened: false, ..*old(rig) }),
        acts@ == (if old(rig).opened {
            seq![RigAction::Close, RigAction::Cleanup]
        } else {
            seq![RigAction::Cleanup]
        }),
{
    let mut acts: Vec<RigAction> = Vec::new();
    if rig.opened {
        acts.push(RigAction::Close);
        rig.opened = false;
    }
    acts.push(RigAction::Cleanup);
    proof {
        assert(acts@ =~= (if old(rig).opened {
            seq![RigAction::Close, RigAction::Cleanup]
        } else {
            seq![RigAction::Cleanup]
        }));
    }
    acts
}

} // verus!
