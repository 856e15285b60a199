//! CW speed table and Morse message length.
//!
//! The application keeps the keying speed as an index into a fixed
//! table of words-per-minute values; speed changes move along that
//! table.  Message length is measured in dot elements, with `%`
//! standing for the operator's own call.

use vstd::prelude::*;

verus! {

/// Number of entries in the speed table.
pub const N_SPEEDS: usize = 21;

/// The words-per-minute value of each speed-table entry.
pub open spec fn speeds_spec() -> Seq<u32> {
    seq![6u32, 12, 14, 16, 18, 20, 22, 24, 26, 28, 30, 32, 34, 36, 38, 40, 42, 44, 46, 48, 50]
}

/// The speed table as a vector, lowest speed first.
pub fn cw_speeds() -> (speeds: Vec<u32>)
    ensures
        speeds@ =~= speeds_spec(),
{
    let mut speeds: Vec<u32> = Vec::new();
    speeds.push(6);
    speeds.push(12);
    speeds.push(14);
    speeds.push(16);
    speeds.push(18);
    speeds.push(20);
    speeds.push(22);
    speeds.push(24);
    speeds.push(26);
    speeds.push(28);
    speeds.push(30);
    speeds.push(32);
    speeds.push(34);
    speeds.push(36);
    speeds.push(38);
    speeds.push(40);
    speeds.push(42);
    speeds.push(44);
    speeds.push(46);
    speeds.push(48);
    speeds.push(50);
    speeds
}

/// The table index `wpm` converts to, scanning from entry `i`: the
/// first entry at or above `wpm`, or the top entry when none is.
pub open spec fn conv_from(wpm: u32, i: int) -> int
    decreases N_SPEEDS - i,
{
    if i >= N_SPEEDS - 1 {
        (N_SPEEDS - 1) as int
    } else if wpm <= speeds_spec()[i] {
        i
    } else {
        conv_from(wpm, i + 1)
    }
}

/// The table index a words-per-minute value converts to.
pub open spec fn speed_conversion_spec(wpm: u32) -> int {
    conv_from(wpm, 0)
}

/// The application's current keying speed, held as an index into the
/// speed table.
pub struct CwSpeedState {
    index: usize,
}

impl CwSpeedState {
    /// The table index currently selected.
    pub closed spec fn index_spec(&self) -> int {
        self.index as int
    }

    /// The index always stays inside the table.
    pub closed spec fn inv(&self) -> bool {
        self.index < N_SPEEDS
    }

    /// Initial speed: table entry 10 (30 words per minute).
    pub fn new() -> (s: CwSpeedState)
        ensures
            s.inv(),
            s.index_spec() == 10,
    {
        CwSpeedState { index: 10 }
    }

    /// The current speed in words per minute.
    #[allow(non_snake_case)]
    pub fn GetCWSpeed(&self) -> (r: u32)
        requires
            self.inv(),
        ensures
            r == speeds_spec()[self.index_spec()],
    {
        let speeds = cw_speeds();
        speeds[self.index]
    }

    /// The current index into the speed table.
    #[allow(non_snake_case)]
    pub fn GetCWSpeedIndex(&self) -> (r: usize)
        ensures
            r == self.index_spec(),
    {
        self.index
    }

    /// Selects the first table entry at or above `wpm`; past the table,
    /// the top entry.
    #[allow(non_snake_case)]
    pub fn SetCWSpeed(&mut self, wpm: u32)
        ensures
            final(self).inv(),
            final(self).index_spec() == speed_conversion_spec(wpm),
            wpm <= speeds_spec()[final(self).index_spec()] || final(self).index_spec() == N_SPEEDS
                - 1,
            forall|j: int| 0 <= j < final(self).index_spec() ==> wpm > speeds_spec()[j],
    {
        let speeds = cw_speeds();
        let mut k: usize = 0;
        while k < N_SPEEDS
            invariant
                speeds@ =~= speeds_spec(),
                0 <= k <= N_SPEEDS,
                forall|j: int| 0 <= j < k ==> wpm > speeds_spec()[j],
                speed_conversion_spec(wpm) == conv_from(wpm, k as int),
            decreases N_SPEEDS - k,
        {
            if wpm <= speeds[k] {
                self.index = k;
                return ;
            }
            k = k + 1;
        }
        self.index = N_SPEEDS - 1;
    }

    /// Steps one entry up the table, saturating at the top.
    #[allow(non_snake_case)]
    pub fn IncreaseCWSpeed(&mut self)
        requires
            old(self).inv(),
        ensures
            final(self).inv(),
            final(self).index_spec() == if old(self).index_spec() < N_SPEEDS - 1 {
                old(self).index_spec() + 1
            } else {
                old(self).index_spec()
            },
    {
        if self.index < N_SPEEDS - 1 {
            self.index = self.index + 1;
        }
    }

    /// Steps one entry down the table, saturating at the bottom.
    #[allow(non_snake_case)]
    pub fn DecreaseCWSpeed(&mut self)
        requires
            old(self).inv(),
        ensures
            final(self).inv(),
            final(self).index_spec() == if old(self).index_spec() > 0 {
                old(self).index_spec() - 1
            } else {
                0
            },
    {
        if self.index > 0 {
            self.index = self.index - 1;
        }
    }
}

/// Dot elements of one character, including the trailing character
/// space; unknown characters count zero.
pub open spec fn cw_dots_spec(ch: u8) -> u32 {
    if ch == 65 {
        9
    } else if ch == 66 {
        13
    } else if ch == 67 {
        15
    } else if ch == 68 {
        11
    } else if ch == 69 {
        5
    } else if ch == 70 {
        13
    } else if ch == 71 {
        13
    } else if ch == 72 {
        11
    } else if ch == 73 {
        7
    } else if ch == 74 {
        17
    } else if ch == 75 {
        13
    } else if ch == 76 {
        13
    } else if ch == 77 {
        11
    } else if ch == 78 {
        9
    } else if ch == 79 {
        15
    } else if ch == 80 {
        15
    } else if ch == 81 {
        17
    } else if ch == 82 {
        11
    } else if ch == 83 {
        9
    } else if ch == 84 {
        7
    } else if ch == 85 {
        11
    } else if ch == 86 {
        13
    } else if ch == 87 {
        13
    } else if ch == 88 {
        15
    } else if ch == 89 {
        17
    } else if ch == 90 {
        15
    } else if ch == 48 {
        23
    } else if ch == 49 {
        21
    } else if ch == 50 {
        19
    } else if ch == 51 {
        17
    } else if ch == 52 {
        15
    } else if ch == 53 {
        13
    } else if ch == 54 {
        15
    } else if ch == 55 {
        17
    } else if ch == 56 {
        19
    } else if ch == 57 {
        21
    } else if ch == 47 {
        17
    } else if ch == 63 {
        19
    } else if ch == 32 {
        3
    } else {
        0
    }
}

/// Dot elements of one character, as a table lookup.
#[allow(non_snake_case)]
pub fn getCWdots(ch: u8) -> (r: u32)
    ensures
        r == cw_dots_spec(ch),
{
    match ch {
        65 => 9,
        66 => 13,
        67 => 15,
        68 => 11,
        69 => 5,
        70 => 13,
        71 => 13,
        72 => 11,
        73 => 7,
        74 => 17,
        75 => 13,
        76 => 13,
        77 => 11,
        78 => 9,
        79 => 15,
        80 => 15,
        81 => 17,
        82 => 11,
        83 => 9,
        84 => 7,
        85 => 11,
        86 => 13,
        87 => 13,
        88 => 15,
        89 => 17,
        90 => 15,
        48 => 23,
        49 => 21,
        50 => 19,
        51 => 17,
        52 => 15,
        53 => 13,
        54 => 15,
        55 => 17,
        56 => 19,
        57 => 21,
        47 => 17,
        63 => 19,
        32 => 3,
        _ => 0,
    }
}

/// Sum of dot elements of `call` from position `i` on.
pub open spec fn call_dots_from(call: Seq<u8>, i: int) -> int
    decreases call.len() - i,
{
    if i < 0 || i >= call.len() {
        0
    } else {
        cw_dots_spec(call[i]) + call_dots_from(call, i + 1)
    }
}

/// Dot elements of one message character, with `%` standing for the
/// whole own call.
pub open spec fn message_char_dots(ch: u8, call: Seq<u8>) -> int {
    if ch == 37 {
        call_dots_from(call, 0)
    } else {
        cw_dots_spec(ch) as int
    }
}

/// Sum of dot elements of `msg` from position `i` on, expanding `%`.
pub open spec fn message_dots_from(msg: Seq<u8>, call: Seq<u8>, i: int) -> int
    decreases msg.len() - i,
{
    if i < 0 || i >= msg.len() {
        0
    } else {
        message_char_dots(msg[i], call) + message_dots_from(msg, call, i + 1)
    }
}

/// Every character is at most 23 dots.
pub proof fn lemma_call_dots_from_bound(call: Seq<u8>, i: int)
    requires
        0 <= i <= call.len(),
    ensures
        0 <= call_dots_from(call, i) <= 23 * (call.len() - i),
    decreases call.len() - i,
{
    if i < call.len() {
        lemma_call_dots_from_bound(call, i + 1);
        assert(cw_dots_spec(call[i]) <= 23);
    }
}

/// A message's dot count is bounded by its length times the largest
/// per-character count.
pub proof fn lemma_message_dots_from_bound(msg: Seq<u8>, call: Seq<u8>, i: int, per: int)
    requires
        0 <= i <= msg.len(),
        per >= 23,
        0 <= call_dots_from(call, 0) <= per,
    ensures
        0 <= message_dots_from(msg, call, i) <= per * (msg.len() - i),
    decreases msg.len() - i,
{
    if i < msg.len() {
        lemma_message_dots_from_bound(msg, call, i + 1, per);
        assert(cw_dots_spec(msg[i]) <= 23);
        assert(per * (msg.len() - i) == per * (msg.len() - i - 1) + per) by (nonlinear_arith);
    }
}

/// Length of a CW message in dot elements, expanding `%` into the own
/// call.
pub fn cw_message_length(message: &[u8], mycall: &[u8]) -> (r: u32)
    requires
        message@.len() <= 0x1_0000,
        mycall@.len() <= 0x100,
    ensures
        r == message_dots_from(message@, mycall@, 0),
{
    let call_len = mycall.len();
    let mut call_sum: u32 = 0;
    let mut k: usize = 0;
    proof {
        lemma_call_dots_from_bound(mycall@, 0);
    }
    while k < call_len
        invariant
            call_len == mycall@.len() <= 0x100,
            0 <= k <= call_len,
            call_sum <= 23 * k,
            call_sum + call_dots_from(mycall@, k as int) == call_dots_from(mycall@, 0),
        decreases call_len - k,
    {
        proof {
            lemma_call_dots_from_bound(mycall@, k as int);
        }
        call_sum = call_sum + getCWdots(mycall[k]);
        k = k + 1;
    }

    let msg_len = message.len();
    let mut sum: u32 = 0;
    let mut j: usize = 0;
    proof {
        lemma_message_dots_from_bound(message@, mycall@, 0, (23 * 0x100) as int);
    }
    while j < msg_len
        invariant
            msg_len == message@.len() <= 0x1_0000,
            0 <= j <= msg_len,
            call_sum == call_dots_from(mycall@, 0) <= 23 * 0x100,
            sum <= 23 * 0x100 * j,
            sum + message_dots_from(message@, mycall@, j as int) == message_dots_from(
                message@,
                mycall@,
                0,
            ),
        decreases msg_len - j,
    {
        proof {
            lemma_message_dots_from_bound(message@, mycall@, j as int, (23 * 0x100) as int);
            assert(23 * 0x100 * (j + 1) == 23 * 0x100 * j + 23 * 0x100) by (nonlinear_arith);
        }
        let c = message[j];
        if c == 37 {
            sum = sum + call_sum;
        } else {
            sum = sum + getCWdots(c);
        }
        j = j + 1;
    }
    sum
}

} // verus!
