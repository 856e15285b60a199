//! The network-keyer datagram protocol.
//!
//! Every command to the keying daemon is one datagram: an escape byte,
//! a command character, and an optional ASCII-decimal parameter.
//! Parameters outside their protocol-defined range are rejected before
//! any datagram is built.  This module builds and validates the
//! datagrams; handing them to a socket is the caller's concern.

use crate::err_utils::CResult;
use vstd::prelude::*;

verus! {

/// The single escape byte that opens every command datagram.
pub const ESC: u8 = 27;

/// Failures of the keyer path: a parameter outside its documented
/// range, a device that cannot be used, or a transport failure
/// reported by the code that performs the send.
#[derive(Clone, Copy, PartialEq, Eq, Structural, Debug)]
pub enum Error {
    Io,
    InvalidParameter,
    InvalidDevice,
}

/// Decimal digits of `n`, most significant first.
pub open spec fn dec_digits(n: nat) -> Seq<u8>
    decreases n,
{
    if n < 10 {
        seq![(48 + n) as u8]
    } else {
        dec_digits(n / 10).push((48 + n % 10) as u8)
    }
}

/// Decimal digits of `w` with a leading minus sign when negative.
pub open spec fn dec_signed(w: int) -> Seq<u8> {
    if w >= 0 {
        dec_digits(w as nat)
    } else {
        seq![45u8] + dec_digits((-w) as nat)
    }
}

/// A command datagram: the escape byte, the command character, the
/// parameter bytes.
pub open spec fn esc_cmd(cmd: u8, param: Seq<u8>) -> Seq<u8> {
    seq![ESC, cmd] + param
}

/// Appends the decimal digits of `n` to `out`.
pub fn push_dec(out: &mut Vec<u8>, n: u16)
    ensures
        final(out)@ == old(out)@ + dec_digits(n as nat),
    decreases n,
{
    if n < 10 {
        out.push(48 + n as u8);
        proof {
            assert(out@ =~= old(out)@ + dec_digits(n as nat));
        }
    } else {
        push_dec(out, n / 10);
        out.push(48 + (n % 10) as u8);
        proof {
            assert(out@ =~= old(out)@ + dec_digits(n as nat));
        }
    }
}

/// Appends the signed decimal digits of `w` to `out`.
pub fn push_dec_signed(out: &mut Vec<u8>, w: i8)
    ensures
        final(out)@ == old(out)@ + dec_signed(w as int),
{
    if w >= 0 {
        push_dec(out, w as u16);
    } else {
        out.push(45);
        let magnitude: u16 = (-(w as i16)) as u16;
        push_dec(out, magnitude);
        proof {
            assert(out@ =~= old(out)@ + dec_signed(w as int));
        }
    }
}

/// The local address family and scope a session binds its socket to.
#[derive(Clone, Copy, PartialEq, Eq, Structural, Debug)]
pub enum BindAddrKind {
    V4Loopback,
    V4Unspecified,
    V6Loopback,
    V6Unspecified,
}

/// The bind address matching a destination: the same family, and
/// loopback exactly when the destination is loopback.
pub fn bind_addr_kind(dest_is_v6: bool, dest_is_loopback: bool) -> (r: BindAddrKind)
    ensures
        !dest_is_v6 && dest_is_loopback ==> r == BindAddrKind::V4Loopback,
        !dest_is_v6 && !dest_is_loopback ==> r == BindAddrKind::V4Unspecified,
        dest_is_v6 && dest_is_loopback ==> r == BindAddrKind::V6Loopback,
        dest_is_v6 && !dest_is_loopback ==> r == BindAddrKind::V6Unspecified,
{
    if dest_is_v6 {
        if dest_is_loopback {
            BindAddrKind::V6Loopback
        } else {
            BindAddrKind::V6Unspecified
        }
    } else {
        if dest_is_loopback {
            BindAddrKind::V4Loopback
        } else {
            BindAddrKind::V4Unspecified
        }
    }
}

/// The written prefix of a fixed command scratch buffer: the bytes up
/// to the write position are the datagram.
pub fn extract_buf<'a>(buf: &'a [u8], position: usize) -> (r: &'a [u8])
    requires
        position <= buf@.len(),
    ensures
        r@ == buf@.take(position as int),
{
    vstd::slice::slice_subrange(buf, 0, position)
}

/// The network-keyer session state: only the cached sidetone volume,
/// kept to restore the daemon's volume after a tone change.
pub struct Netkeyer {
    sc_volume: i8,
}

impl Netkeyer {
    /// The cached sidetone volume; negative when none was ever set.
    pub closed spec fn volume_spec(&self) -> int {
        self.sc_volume as int
    }

    /// A fresh session caches no volume.
    pub fn new() -> (k: Netkeyer)
        ensures
            k.volume_spec() == -1,
    {
        Netkeyer { sc_volume: -1 }
    }

    /// A bare command datagram with no parameter.
    fn simple_command(&self, cmd: u8) -> (r: Vec<u8>)
        ensures
            r@ == esc_cmd(cmd, Seq::<u8>::empty()),
    {
        let mut out: Vec<u8> = Vec::new();
        out.push(ESC);
        out.push(cmd);
        proof {
            assert(out@ =~= esc_cmd(cmd, Seq::<u8>::empty()));
        }
        out
    }

    /// Command `0`: reset the keyer.
    pub fn reset(&self) -> (r: Vec<u8>)
        ensures
            r@ == esc_cmd(48, Seq::<u8>::empty()),
    {
        self.simple_command(48)
    }

    /// Command `2`: keying speed in words per minute, 5 through 60.
    pub fn set_speed(&self, speed: u8) -> (r: Result<Vec<u8>, Error>)
        ensures
            r is Ok <==> 5 <= speed <= 60,
            r matches Ok(d) ==> d@ == esc_cmd(50, dec_digits(speed as nat)),
            r matches Err(e) ==> e == Error::InvalidParameter,
    {
        if speed < 5 || speed > 60 {
            return Err(Error::InvalidParameter);
        }
        let mut out: Vec<u8> = Vec::new();
        out.push(ESC);
        out.push(50);
        push_dec(&mut out, speed as u16);
        proof {
            assert(out@ =~= esc_cmd(50, dec_digits(speed as nat)));
        }
        Ok(out)
    }

    /// Command `3`: sidetone frequency in Hz, 300 through 1000, or 0
    /// for mute.
    pub fn set_tone(&self, tone: u16) -> (r: Result<Vec<u8>, Error>)
        ensures
            r is Ok <==> (tone == 0 || 300 <= tone <= 1000),
            r matches Ok(d) ==> d@ == esc_cmd(51, dec_digits(tone as nat)),
            r matches Err(e) ==> e == Error::InvalidParameter,
    {
        if tone != 0 && (tone < 300 || tone > 1000) {
            return Err(Error::InvalidParameter);
        }
        let mut out: Vec<u8> = Vec::new();
        out.push(ESC);
        out.push(51);
        push_dec(&mut out, tone);
        proof {
            assert(out@ =~= esc_cmd(51, dec_digits(tone as nat)));
        }
        Ok(out)
    }

    /// Command `4`: abort the current send.
    pub fn abort(&self) -> (r: Vec<u8>)
        ensures
            r@ == esc_cmd(52, Seq::<u8>::empty()),
    {
        self.simple_command(52)
    }

    /// Command `5`: stop the daemon session.
    pub fn exit(&self) -> (r: Vec<u8>)
        ensures
            r@ == esc_cmd(53, Seq::<u8>::empty()),
    {
        self.simple_command(53)
    }

    /// Command `6`: enable word-buffered mode.
    pub fn enable_word_mode(&self) -> (r: Vec<u8>)
        ensures
            r@ == esc_cmd(54, Seq::<u8>::empty()),
    {
        self.simple_command(54)
    }

    /// Command `7`: dot/dash weight bias in percent, -50 through 50.
    pub fn set_weight(&self, weight: i8) -> (r: Result<Vec<u8>, Error>)
        ensures
            r is Ok <==> -50 <= weight <= 50,
            r matches Ok(d) ==> d@ == esc_cmd(55, dec_signed(weight as int)),
            r matches Err(e) ==> e == Error::InvalidParameter,
    {
        if weight < -50 || weight > 50 {
            return Err(Error::InvalidParameter);
        }
        let mut out: Vec<u8> = Vec::new();
        out.push(ESC);
        out.push(55);
        push_dec_signed(&mut out, weight);
        proof {
            assert(out@ =~= esc_cmd(55, dec_signed(weight as int)));
        }
        Ok(out)
    }

    /// Command `8`: set the output device; the bytes are passed
    /// through unchecked.
    pub fn set_device(&self, device: &[u8]) -> (r: Vec<u8>)
        ensures
            r@ == esc_cmd(56, device@),
    {
        let mut out: Vec<u8> = Vec::new();
        out.push(ESC);
        out.push(56);
        let mut i: usize = 0;
        while i < device.len()
            invariant
                0 <= i <= device@.len(),
                out@ =~= seq![ESC, 56u8] + device@.take(i as int),
            decreases device@.len() - i,
        {
            out.push(device[i]);
            i = i + 1;
        }
        proof {
            assert(out@ =~= esc_cmd(56, device@));
        }
        out
    }

    /// Command `a`: PTT on or off, as `1` or `0`.
    pub fn set_ptt(&self, ptt: bool) -> (r: Vec<u8>)
        ensures
            r@ == esc_cmd(97, seq![if ptt { 49u8 } else { 48u8 }]),
    {
        let mut out: Vec<u8> = Vec::new();
        out.push(ESC);
        out.push(97);
        out.push(if ptt { 49 } else { 48 });
        proof {
            assert(out@ =~= esc_cmd(97, seq![if ptt { 49u8 } else { 48u8 }]));
        }
        out
    }

    /// Command `b`: the auxiliary pin, on or off, as `1` or `0`.
    pub fn set_pin14(&self, pin14: bool) -> (r: Vec<u8>)
        ensures
            r@ == esc_cmd(98, seq![if pin14 { 49u8 } else { 48u8 }]),
    {
        let mut out: Vec<u8> = Vec::new();
        out.push(ESC);
        out.push(98);
        out.push(if pin14 { 49 } else { 48 });
        proof {
            assert(out@ =~= esc_cmd(98, seq![if pin14 { 49u8 } else { 48u8 }]));
        }
        out
    }

    /// Command `c`: tune for the given number of seconds, at most 10.
    pub fn tune(&self, seconds: u8) -> (r: Result<Vec<u8>, Error>)
        ensures
            r is Ok <==> seconds <= 10,
            r matches Ok(d) ==> d@ == esc_cmd(99, dec_digits(seconds as nat)),
            r matches Err(e) ==> e == Error::InvalidParameter,
    {
        if seconds > 10 {
            return Err(Error::InvalidParameter);
        }
        let mut out: Vec<u8> = Vec::new();
        out.push(ESC);
        out.push(99);
        push_dec(&mut out, seconds as u16);
        proof {
            assert(out@ =~= esc_cmd(99, dec_digits(seconds as nat)));
        }
        Ok(out)
    }

    /// Command `d`: transmit delay in milliseconds, at most 50.
    pub fn set_tx_delay(&self, ms: u8) -> (r: Result<Vec<u8>, Error>)
        ensures
            r is Ok <==> ms <= 50,
            r matches Ok(d) ==> d@ == esc_cmd(100, dec_digits(ms as nat)),
            r matches Err(e) ==> e == Error::InvalidParameter,
    {
        if ms > 50 {
            return Err(Error::InvalidParameter);
        }
        let mut out: Vec<u8> = Vec::new();
        out.push(ESC);
        out.push(100);
        push_dec(&mut out, ms as u16);
        proof {
            assert(out@ =~= esc_cmd(100, dec_digits(ms as nat)));
        }
        Ok(out)
    }

    /// Command `e`: band-switch index, 1 through 9.
    pub fn set_band_switch(&self, bandindex: u8) -> (r: Result<Vec<u8>, Error>)
        ensures
            r is Ok <==> 1 <= bandindex <= 9,
            r matches Ok(d) ==> d@ == esc_cmd(101, dec_digits(bandindex as nat)),
            r matches Err(e) ==> e == Error::InvalidParameter,
    {
        if bandindex < 1 || bandindex > 9 {
            return Err(Error::InvalidParameter);
        }
        let mut out: Vec<u8> = Vec::new();
        out.push(ESC);
        out.push(101);
        push_dec(&mut out, bandindex as u16);
        proof {
            assert(out@ =~= esc_cmd(101, dec_digits(bandindex as nat)));
        }
        Ok(out)
    }

    /// The sidetone outputs the daemon accepts: the characters
    /// `c`, `o`, `a`, `p`, `n` and `s`.
    pub open spec fn valid_sidetone_device(dev: u8) -> bool {
        dev == 99 || dev == 111 || dev == 97 || dev == 112 || dev == 110 || dev == 115
    }

    /// Command `f`: select the sidetone output device.
    pub fn set_sidetone_device(&self, dev: u8) -> (r: Result<Vec<u8>, Error>)
        ensures
            r is Ok <==> Self::valid_sidetone_device(dev),
            r matches Ok(d) ==> d@ == esc_cmd(102, seq![dev]),
            r matches Err(e) ==> e == Error::InvalidParameter,
    {
        if !(dev == 99 || dev == 111 || dev == 97 || dev == 112 || dev == 110 || dev == 115) {
            return Err(Error::InvalidParameter);
        }
        let mut out: Vec<u8> = Vec::new();
        out.push(ESC);
        out.push(102);
        out.push(dev);
        proof {
            assert(out@ =~= esc_cmd(102, seq![dev]));
        }
        Ok(out)
    }

    /// Command `g`: sidetone volume in percent, at most 100.  The
    /// volume is cached first, even when it is then rejected, mirroring
    /// the session's read-modify-write on the cache.
    pub fn set_sidetone_volume(&mut self, volume: u8) -> (r: Result<Vec<u8>, Error>)
        ensures
            final(self).volume_spec() == if volume <= 127 {
                volume as int
            } else {
                -1
            },
            r is Ok <==> volume <= 100,
            r matches Ok(d) ==> d@ == esc_cmd(103, dec_digits(volume as nat)),
            r matches Err(e) ==> e == Error::InvalidParameter,
    {
        self.sc_volume = if volume <= 127 {
            volume as i8
        } else {
            -1
        };
        if volume > 100 {
            return Err(Error::InvalidParameter);
        }
        let mut out: Vec<u8> = Vec::new();
        out.push(ESC);
        out.push(103);
        push_dec(&mut out, volume as u16);
        proof {
            assert(out@ =~= esc_cmd(103, dec_digits(volume as nat)));
        }
        Ok(out)
    }

    /// The volume a tone change restores: the cached value, or 70
    /// percent when none was cached.
    pub open spec fn restore_volume_spec(&self) -> int {
        if self.volume_spec() >= 0 {
            self.volume_spec()
        } else {
            70
        }
    }

    /// Sets the tone and, for an audible tone, restores the sidetone
    /// volume with a second datagram, working around daemons that
    /// reset or drop the volume on a tone change.
    pub fn write_tone(&mut self, tone: u16) -> (r: Result<Vec<Vec<u8>>, Error>)
        ensures
            r is Ok <==> (tone == 0 || (300 <= tone <= 1000 && old(self).restore_volume_spec()
                <= 100)),
            tone == 0 ==> *final(self) == *old(self),
            r matches Ok(ds) ==> if tone == 0 {
                ds@.len() == 1 && ds@[0]@ == esc_cmd(51, dec_digits(tone as nat))
            } else {
                ds@.len() == 2 && ds@[0]@ == esc_cmd(51, dec_digits(tone as nat)) && ds@[1]@
                    == esc_cmd(103, dec_digits(old(self).restore_volume_spec() as nat))
            },
            r matches Err(e) ==> e == Error::InvalidParameter,
    {
        let tone_datagram = self.set_tone(tone)?;
        let mut out: Vec<Vec<u8>> = Vec::new();
        out.push(tone_datagram);
        if tone != 0 {
            let vol: u8 = if self.sc_volume >= 0 {
                self.sc_volume as u8
            } else {
                70
            };
            let vol_datagram = self.set_sidetone_volume(vol)?;
            out.push(vol_datagram);
        }
        Ok(out)
    }

    /// Plain text to key: passed through as one datagram, rejected if
    /// it contains the escape byte.
    pub fn send_text(&self, text: &[u8]) -> (r: Result<Vec<u8>, Error>)
        ensures
            r is Ok <==> !text@.contains(ESC),
            r matches Ok(d) ==> d@ == text@,
            r matches Err(e) ==> e == Error::InvalidParameter,
    {
        let n = text.len();
        let mut i: usize = 0;
        while i < n
            invariant
                n == text@.len(),
                0 <= i <= n,
                forall|j: int| 0 <= j < i ==> text@[j] != ESC,
            decreases n - i,
        {
            if text[i] == ESC {
                assert(text@.contains(ESC));
                return Err(Error::InvalidParameter);
            }
            i = i + 1;
        }
        let mut out: Vec<u8> = Vec::new();
        let mut k: usize = 0;
        while k < n
            invariant
                n == text@.len(),
                0 <= k <= n,
                out@ =~= text@.take(k as int),
            decreases n - k,
        {
            out.push(text[k]);
            k = k + 1;
        }
        proof {
            assert(out@ =~= text@);
            if text@.contains(ESC) {
                let j = choose|j: int| 0 <= j < text@.len() && text@[j] == ESC;
                assert(text@[j] == ESC);
            }
        }
        Ok(out)
    }
}

/// The sidetone frequency assumed when none is configured.
pub const DEFAULT_TONE: u16 = 600;

/// ASCII whitespace, as trimming sees it.
pub open spec fn is_space(b: u8) -> bool {
    b == 32 || (9 <= b && b <= 13)
}

/// `s` without its leading whitespace.
pub open spec fn trim_front(s: Seq<u8>) -> Seq<u8>
    decreases s.len(),
{
    if s.len() > 0 && is_space(s[0]) {
        trim_front(s.drop_first())
    } else {
        s
    }
}

/// `s` without its trailing whitespace.
pub open spec fn trim_back(s: Seq<u8>) -> Seq<u8>
    decreases s.len(),
{
    if s.len() > 0 && is_space(s.last()) {
        trim_back(s.drop_last())
    } else {
        s
    }
}

/// `s` without leading and trailing whitespace.
pub open spec fn trimmed(s: Seq<u8>) -> Seq<u8> {
    trim_back(trim_front(s))
}

/// Every byte of `s` is a decimal digit.
pub open spec fn all_digits(s: Seq<u8>) -> bool {
    forall|i: int| 0 <= i < s.len() ==> 48 <= #[trigger] s[i] <= 57
}

/// The number the digit string `s` denotes.
pub open spec fn dec_value(s: Seq<u8>) -> int
    decreases s.len(),
{
    if s.len() == 0 {
        0
    } else {
        dec_value(s.drop_last()) * 10 + (s.last() - 48)
    }
}

/// A digit string denotes a number at least zero.
pub proof fn lemma_dec_value_nonneg(s: Seq<u8>)
    requires
        all_digits(s),
    ensures
        dec_value(s) >= 0,
    decreases s.len(),
{
    if s.len() > 0 {
        assert(all_digits(s.drop_last()));
        lemma_dec_value_nonneg(s.drop_last());
        assert(dec_value(s.drop_last()) * 10 >= 0) by (nonlinear_arith)
            requires dec_value(s.drop_last()) >= 0;
    }
}

/// Extending a digit string never shrinks its value.
pub proof fn lemma_dec_value_prefix(s: Seq<u8>, k: int)
    requires
        all_digits(s),
        0 <= k <= s.len(),
    ensures
        dec_value(s.take(k)) <= dec_value(s),
    decreases s.len() - k,
{
    if k < s.len() {
        lemma_dec_value_prefix(s, k + 1);
        let t = s.take(k + 1);
        assert(t.drop_last() =~= s.take(k));
        assert(all_digits(s.take(k)));
        lemma_dec_value_nonneg(s.take(k));
        assert(dec_value(s.take(k)) * 10 >= dec_value(s.take(k))) by (nonlinear_arith)
            requires dec_value(s.take(k)) >= 0;
        assert(dec_value(t) == dec_value(s.take(k)) * 10 + (t.last() - 48));
    } else {
        assert(s.take(k) =~= s);
    }
}

/// What a tone string parses to: its trimmed digits, with an optional
/// leading plus sign, when they denote a sidetone value; the default
/// tone otherwise.
pub open spec fn parse_tone_spec(s: Seq<u8>) -> u16 {
    let t = trimmed(s);
    let body = if t.len() > 0 && t[0] == 43 {
        t.drop_first()
    } else {
        t
    };
    if body.len() > 0 && all_digits(body) && dec_value(body) <= 65535 {
        dec_value(body) as u16
    } else {
        DEFAULT_TONE
    }
}

/// Whether the byte at `i` is whitespace.
fn space_at(s: &[u8], i: usize) -> (r: bool)
    requires
        i < s@.len(),
    ensures
        r == is_space(s@[i as int]),
{
    let c = s[i];
    c == 32 || (9 <= c && c <= 13)
}

/// Parses a configured tone string; anything unusable falls back to
/// the default tone.
#[verifier::rlimit(60)]
pub fn parse_tone(s: &[u8]) -> (r: u16)
    ensures
        r == parse_tone_spec(s@),
{
    let n = s.len();
    proof {
        assert(s@.skip(0) =~= s@);
    }
    let mut start: usize = 0;
    while start < n && space_at(s, start)
        invariant
            n == s@.len(),
            0 <= start <= n,
            trim_front(s@) == trim_front(s@.skip(start as int)),
        decreases n - start,
    {
        proof {
            let sk = s@.skip(start as int);
            assert(sk.drop_first() =~= s@.skip(start as int + 1));
        }
        start = start + 1;
    }
    proof {
        assert(trim_front(s@) == s@.skip(start as int));
    }

    let mut end: usize = n;
    while end > start && space_at(s, end - 1)
        invariant
            n == s@.len(),
            start <= end <= n,
            trim_front(s@) == s@.skip(start as int),
            trim_back(s@.skip(start as int)) == trim_back(
                s@.subrange(start as int, end as int),
            ),
        decreases end,
    {
        proof {
            let sub = s@.subrange(start as int, end as int);
            assert(sub.last() == s@[end - 1]);
            assert(sub.drop_last() =~= s@.subrange(start as int, end as int - 1));
        }
        end = end - 1;
    }
    proof {
        let sub = s@.subrange(start as int, end as int);
        assert(s@.skip(start as int) =~= s@.subrange(start as int, n as int));
        assert(trim_back(sub) == sub);
        assert(trimmed(s@) == sub);
    }

    let bstart: usize = if start < end && s[start] == 43 {
        start + 1
    } else {
        start
    };
    let ghost t = trimmed(s@);
    let ghost body = if t.len() > 0 && t[0] == 43 {
        t.drop_first()
    } else {
        t
    };
    proof {
        assert(body =~= s@.subrange(bstart as int, end as int));
    }

    if bstart == end {
        return DEFAULT_TONE;
    }

    let mut acc: u32 = 0;
    let mut k: usize = bstart;
    while k < end
        invariant
            n == s@.len(),
            bstart <= k <= end <= n,
            bstart < end,
            t == trimmed(s@),
            body == (if t.len() > 0 && t[0] == 43 {
                t.drop_first()
            } else {
                t
            }),
            body == s@.subrange(bstart as int, end as int),
            all_digits(body.take(k - bstart)),
            acc == dec_value(body.take(k - bstart)),
            acc <= 65535,
        decreases end - k,
    {
        let c = s[k];
        proof {
            assert(body[k - bstart] == s@[k as int]);
        }
        if c < 48 || c > 57 {
            proof {
                assert(!(48 <= body[k - bstart] <= 57));
                assert(!all_digits(body));
            }
            return DEFAULT_TONE;
        }
        proof {
            let prev = body.take(k - bstart);
            let cur = body.take(k - bstart + 1);
            assert(cur.drop_last() =~= prev);
            assert(cur.last() == body[k - bstart]);
            assert(dec_value(cur) == dec_value(prev) * 10 + (c - 48));
        }
        acc = acc * 10 + (c - 48) as u32;
        k = k + 1;
        proof {
            assert(acc == dec_value(body.take(k - bstart)));
        }
        if acc > 65535 {
            proof {
                if all_digits(body) {
                    lemma_dec_value_prefix(body, k - bstart);
                    assert(dec_value(body) >= dec_value(body.take(k - bstart)));
                    assert(dec_value(body) > 65535);
                }
            }
            return DEFAULT_TONE;
        }
    }
    proof {
        assert(body.take(end - bstart) =~= body);
    }
    acc as u16
}

/// The application's logical sidetone value, read and written from
/// several places with read-modify-write semantics.
pub struct ToneState {
    tone: u16,
}

impl ToneState {
    /// The stored tone.
    pub closed spec fn tone_spec(&self) -> u16 {
        self.tone
    }

    /// Starts at the default tone.
    pub fn new() -> (t: ToneState)
        ensures
            t.tone_spec() == DEFAULT_TONE,
    {
        ToneState { tone: DEFAULT_TONE }
    }

    /// Overwrites the stored tone.
    pub fn init_tone(&mut self, tone: u16)
        ensures
            final(self).tone_spec() == tone,
    {
        self.tone = tone;
    }

    /// Reads the stored tone.
    pub fn get_tone(&self) -> (r: u16)
        ensures
            r == self.tone_spec(),
    {
        self.tone
    }

    /// Stores a new tone and hands back the previous one.
    pub fn write_tone(&mut self, tone: u16) -> (prev: u16)
        ensures
            final(self).tone_spec() == tone,
            prev == old(self).tone_spec(),
    {
        let prev = self.tone;
        self.tone = tone;
        prev
    }
}

/// The network-keyer frontend: the session state behind the
/// user-facing speed, weight, tone, stop and reset actions.
pub struct NetKeyerFrontend {
    netkeyer: Netkeyer,
}

impl NetKeyerFrontend {
    /// The wrapped session.
    pub closed spec fn netkeyer_spec(&self) -> Netkeyer {
        self.netkeyer
    }

    /// Wraps a network-keyer session.
    pub fn new(netkeyer: Netkeyer) -> (f: NetKeyerFrontend)
        ensures
            f.netkeyer_spec() == netkeyer,
    {
        NetKeyerFrontend { netkeyer }
    }

    /// Speed change from the user interface; values beyond the
    /// protocol's byte range are parameter errors like any other.
    pub fn set_speed(&self, speed: u32) -> (r: Result<Vec<u8>, Error>)
        ensures
            r is Ok <==> 5 <= speed <= 60,
            r matches Ok(d) ==> d@ == esc_cmd(50, dec_digits(speed as nat)),
            r matches Err(e) ==> e == Error::InvalidParameter,
    {
        if speed > 255 {
            return Err(Error::InvalidParameter);
        }
        self.netkeyer.set_speed(speed as u8)
    }

    /// Weight change from the user interface.
    pub fn set_weight(&self, weight: i32) -> (r: Result<Vec<u8>, Error>)
        ensures
            r is Ok <==> -50 <= weight <= 50,
            r matches Ok(d) ==> d@ == esc_cmd(55, dec_signed(weight as int)),
            r matches Err(e) ==> e == Error::InvalidParameter,
    {
        if weight < -128 || weight > 127 {
            return Err(Error::InvalidParameter);
        }
        self.netkeyer.set_weight(weight as i8)
    }

    /// Tone change from the user interface: the tone datagram, plus
    /// the volume restore when audible.
    pub fn set_tone(&mut self, tone: u16) -> (r: Result<Vec<Vec<u8>>, Error>)
        ensures
            r is Ok <==> (tone == 0 || (300 <= tone <= 1000
                && old(self).netkeyer_spec().restore_volume_spec() <= 100)),
            tone == 0 ==> *final(self) == *old(self),
            r matches Ok(ds) ==> (if tone == 0 {
                ds@.len() == 1 && ds@[0]@ == esc_cmd(51, dec_digits(tone as nat))
            } else {
                ds@.len() == 2 && ds@[0]@ == esc_cmd(51, dec_digits(tone as nat)) && ds@[1]@
                    == esc_cmd(
                    103,
                    dec_digits(old(self).netkeyer_spec().restore_volume_spec() as nat),
                )
            }),
            r matches Err(e) ==> e == Error::InvalidParameter,
    {
        self.netkeyer.write_tone(tone)
    }

    /// Stop keying: the abort datagram.
    pub fn stop_keying(&self) -> (r: Vec<u8>)
        ensures
            r@ == esc_cmd(52, Seq::<u8>::empty()),
    {
        self.netkeyer.abort()
    }

    /// Reset the daemon.
    pub fn reset(&self) -> (r: Vec<u8>)
        ensures
            r@ == esc_cmd(48, Seq::<u8>::empty()),
    {
        self.netkeyer.reset()
    }
}

/// Whether every parameter of the init sequence lies in its
/// protocol-defined range.
pub open spec fn init_valid(
    weight: i8,
    tone: u16,
    speed: u8,
    txdelay: u8,
    sc_volume: Option<u8>,
) -> bool {
    &&& -50 <= weight <= 50
    &&& (tone == 0 || 300 <= tone <= 1000)
    &&& 5 <= speed <= 60
    &&& txdelay <= 50
    &&& match sc_volume {
        Some(v) => v <= 100,
        None => true,
    }
}

/// The fixed startup command sequence of a session: reset, weight,
/// tone (restoring the default volume when audible), speed, weight
/// again, the device when one is named, the transmit delay, the
/// soundcard sidetone when wanted, and the configured volume.
pub open spec fn init_sequence_spec(
    weight: i8,
    tone: u16,
    speed: u8,
    device: Seq<u8>,
    txdelay: u8,
    sc_sidetone: bool,
    sc_volume: Option<u8>,
) -> Seq<Seq<u8>> {
    seq![esc_cmd(48, Seq::<u8>::empty()), esc_cmd(55, dec_signed(weight as int))] + (if tone == 0 {
        seq![esc_cmd(51, dec_digits(tone as nat))]
    } else {
        seq![esc_cmd(51, dec_digits(tone as nat)), esc_cmd(103, dec_digits(70))]
    }) + seq![esc_cmd(50, dec_digits(speed as nat)), esc_cmd(55, dec_signed(weight as int))] + (
    if device.len() > 0 {
        seq![esc_cmd(56, device)]
    } else {
        Seq::<Seq<u8>>::empty()
    }) + seq![esc_cmd(100, dec_digits(txdelay as nat))] + (if sc_sidetone {
        seq![esc_cmd(102, seq![115u8])]
    } else {
        Seq::<Seq<u8>>::empty()
    }) + (match sc_volume {
        Some(v) => seq![esc_cmd(103, dec_digits(v as nat))],
        None => Seq::<Seq<u8>>::empty(),
    })
}

/// The built datagrams carry exactly these bytes.
pub open spec fn datagrams_match(ds: Seq<Vec<u8>>, model: Seq<Seq<u8>>) -> bool {
    ds.len() == model.len() && (forall|i: int|
        0 <= i < ds.len() ==> (#[trigger] ds[i])@ == model[i])
}

impl Netkeyer {
    /// Builds the whole startup command sequence for a fresh session.
    /// Every parameter is validated before anything is sent; one out
    /// of range refuses the whole sequence.
    #[verifier::rlimit(60)]
    pub fn init_sequence(
        &mut self,
        weight: i8,
        tone: u16,
        speed: u8,
        device: &[u8],
        txdelay: u8,
        sc_sidetone: bool,
        sc_volume: Option<u8>,
    ) -> (r: Result<Vec<Vec<u8>>, Error>)
        requires
            old(self).volume_spec() == -1,
        ensures
            r is Ok <==> init_valid(weight, tone, speed, txdelay, sc_volume),
            r matches Ok(ds) ==> datagrams_match(
                ds@,
                init_sequence_spec(weight, tone, speed, device@, txdelay, sc_sidetone, sc_volume),
            ),
            r matches Err(e) ==> e == Error::InvalidParameter,
    {
        let ghost model = init_sequence_spec(
            weight,
            tone,
            speed,
            device@,
            txdelay,
            sc_sidetone,
            sc_volume,
        );
        let mut ds: Vec<Vec<u8>> = Vec::new();
        ds.push(self.reset());
        let w1 = match self.set_weight(weight) {
            Ok(d) => d,
            Err(e) => {
                return Err(e);
            },
        };
        ds.push(w1);
        let tone_ds = match self.write_tone(tone) {
            Ok(t) => t,
            Err(e) => {
                return Err(e);
            },
        };
        let mut tone_ds = tone_ds;
        let t0 = tone_ds.remove(0);
        ds.push(t0);
        if tone_ds.len() > 0 {
            let t1 = tone_ds.remove(0);
            ds.push(t1);
        }
        let sp = match self.set_speed(speed) {
            Ok(d) => d,
            Err(e) => {
                return Err(e);
            },
        };
        ds.push(sp);
        let w2 = match self.set_weight(weight) {
            Ok(d) => d,
            Err(e) => {
                return Err(e);
            },
        };
        ds.push(w2);
        if device.len() > 0 {
            ds.push(self.set_device(device));
        }
        let td = match self.set_tx_delay(txdelay) {
            Ok(d) => d,
            Err(e) => {
                return Err(e);
            },
        };
        ds.push(td);
        if sc_sidetone {
            let sd = match self.set_sidetone_device(115) {
                Ok(d) => d,
                Err(e) => {
                    return Err(e);
                },
            };
            ds.push(sd);
        }
        if let Some(v) = sc_volume {
            let vd = match self.set_sidetone_volume(v) {
                Ok(d) => d,
                Err(e) => {
                    return Err(e);
                },
            };
            ds.push(vd);
        }
        proof {
            assert(datagrams_match(ds@, model));
        }
        Ok(ds)
    }
}

/// PTT toggle across the C boundary: a datagram when a session is
/// installed, a failure code when none is.
pub fn netkeyer_set_ptt(netkeyer: Option<&Netkeyer>, ptt: bool) -> (r: (CResult, Option<Vec<u8>>))
    ensures
        r.0 == CResult::Success <==> netkeyer is Some,
        netkeyer is Some ==> (r.1 matches Some(d) && d@ == esc_cmd(
            97,
            seq![if ptt { 49u8 } else { 48u8 }],
        )),
{
    match netkeyer {
        Some(k) => (CResult::Success, Some(k.set_ptt(ptt))),
        None => (CResult::Failure, None),
    }
}

/// Abort across the C boundary.
pub fn netkeyer_abort(netkeyer: Option<&Netkeyer>) -> (r: (CResult, Option<Vec<u8>>))
    ensures
        r.0 == CResult::Success <==> netkeyer is Some,
        netkeyer is Some ==> (r.1 matches Some(d) && d@ == esc_cmd(52, Seq::<u8>::empty())),
{
    match netkeyer {
        Some(k) => (CResult::Success, Some(k.abort())),
        None => (CResult::Failure, None),
    }
}

/// Auxiliary-pin toggle across the C boundary.
pub fn netkeyer_set_pin14(netkeyer: Option<&Netkeyer>, pin14: bool) -> (r: (
    CResult,
    Option<Vec<u8>>,
))
    ensures
        r.0 == CResult::Success <==> netkeyer is Some,
        netkeyer is Some ==> (r.1 matches Some(d) && d@ == esc_cmd(
            98,
            seq![if pin14 { 49u8 } else { 48u8 }],
        )),
{
    match netkeyer {
        Some(k) => (CResult::Success, Some(k.set_pin14(pin14))),
        None => (CResult::Failure, None),
    }
}

/// Word-mode enable across the C boundary.
pub fn netkeyer_enable_word_mode(netkeyer: Option<&Netkeyer>) -> (r: (CResult, Option<Vec<u8>>))
    ensures
        r.0 == CResult::Success <==> netkeyer is Some,
        netkeyer is Some ==> (r.1 matches Some(d) && d@ == esc_cmd(54, Seq::<u8>::empty())),
{
    match netkeyer {
        Some(k) => (CResult::Success, Some(k.enable_word_mode())),
        None => (CResult::Failure, None),
    }
}

/// Tune request across the C boundary: the wide integer is narrowed
/// and validated like any other parameter.
pub fn netkeyer_tune(netkeyer: Option<&Netkeyer>, seconds: u32) -> (r: (CResult, Option<Vec<u8>>))
    ensures
        r.0 == CResult::Success <==> (netkeyer is Some && seconds <= 10),
        r.0 == CResult::Success ==> (r.1 matches Some(d) && d@ == esc_cmd(
            99,
            dec_digits(seconds as nat),
        )),
{
    match netkeyer {
        Some(k) => {
            if seconds > 255 {
                return (CResult::Failure, None);
            }
            match k.tune(seconds as u8) {
                Ok(d) => (CResult::Success, Some(d)),
                Err(_) => (CResult::Failure, None),
            }
        },
        None => (CResult::Failure, None),
    }
}

/// Band-switch announcement across the C boundary.
pub fn netkeyer_set_band_switch(netkeyer: Option<&Netkeyer>, bandidx: u32) -> (r: (
    CResult,
    Option<Vec<u8>>,
))
    ensures
        r.0 == CResult::Success <==> (netkeyer is Some && 1 <= bandidx <= 9),
        r.0 == CResult::Success ==> (r.1 matches Some(d) && d@ == esc_cmd(
            101,
            dec_digits(bandidx as nat),
        )),
{
    match netkeyer {
        Some(k) => {
            if bandidx > 255 {
                return (CResult::Failure, None);
            }
            match k.set_band_switch(bandidx as u8) {
                Ok(d) => (CResult::Success, Some(d)),
                Err(_) => (CResult::Failure, None),
            }
        },
        None => (CResult::Failure, None),
    }
}

/// Sidetone-volume change across the C boundary.
pub fn netkeyer_set_sidetone_volume(netkeyer: Option<&mut Netkeyer>, volume: u32) -> (r: (
    CResult,
    Option<Vec<u8>>,
))
    ensures
        r.0 == CResult::Success <==> (netkeyer is Some && volume <= 100),
        r.0 == CResult::Success ==> (r.1 matches Some(d) && d@ == esc_cmd(
            103,
            dec_digits(volume as nat),
        )),
{
    match netkeyer {
        Some(k) => {
            if volume > 255 {
                return (CResult::Failure, None);
            }
            match k.set_sidetone_volume(volume as u8) {
                Ok(d) => (CResult::Success, Some(d)),
                Err(_) => (CResult::Failure, None),
            }
        },
        None => (CResult::Failure, None),
    }
}

} // verus!
