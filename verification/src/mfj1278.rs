//! The terminal-node-controller keyer.
//!
//! The controller is a serial device fed plain bytes.  A speed change
//! is a three-message dialog: escape to command mode, set the speed,
//! re-enter converse mode.  Outgoing text swaps line feeds for
//! carriage returns, the controller's line convention.

use crate::netkeyer::dec_digits;
use crate::netkeyer::push_dec;
use vstd::pervasive::VecAdditionalExecFns;
use vstd::prelude::*;

verus! {

/// Line feeds become carriage returns; everything else passes.
pub open spec fn crlf_map(s: Seq<u8>) -> Seq<u8> {
    s.map_values(
        |b: u8|
            if b == 10 {
                13u8
            } else {
                b
            },
    )
}

/// The controller's speed command: `MSP `, the speed right-aligned to
/// two columns, a space and a carriage return.
pub open spec fn msp_msg(speed: u32) -> Seq<u8> {
    seq![77u8, 83, 80, 32] + (if speed < 10 {
        seq![32u8] + dec_digits(speed as nat)
    } else {
        dec_digits(speed as nat)
    }) + seq![32u8, 13u8]
}

/// The terminal-node-controller keyer.
pub struct Mfj1278Keyer;

impl Mfj1278Keyer {
    /// Rewrites the message to the controller's line convention.
    pub fn prepare_message(&self, msg: &mut Vec<u8>)
        ensures
            final(msg)@ == crlf_map(old(msg)@),
    {
        let n = msg.len();
        let mut i: usize = 0;
        while i < n
            invariant
                n == msg@.len(),
                n == old(msg)@.len(),
                0 <= i <= n,
                forall|j: int| 0 <= j < i ==> msg@[j] == crlf_map(old(msg)@)[j],
                forall|j: int| i <= j < n ==> msg@[j] == old(msg)@[j],
            decreases n - i,
        {
            proof {
                assert(crlf_map(old(msg)@).len() == n);
                assert(crlf_map(old(msg)@)[i as int] == (if old(msg)@[i as int] == 10 {
                    13u8
                } else {
                    old(msg)@[i as int]
                }));
            }
            if msg[i] == 10 {
                msg.set(i, 13);
            }
            i = i + 1;
        }
        proof {
            assert(msg@ =~= crlf_map(old(msg)@));
        }
    }

    /// The three messages of the speed dialog, in sending order.
    pub fn set_speed(&self, speed: u32) -> (msgs: Vec<Vec<u8>>)
        requires
            speed <= 0xFFFF,
        ensures
            msgs@.len() == 3,
            msgs@[0]@ == seq![92u8, 13u8],
            msgs@[1]@ == msp_msg(speed),
            msgs@[2]@ == seq![67u8, 79u8, 78u8, 86u8, 13u8, 10u8],
    {
        let mut escape: Vec<u8> = Vec::new();
        escape.push(92);
        escape.push(13);
        proof {
            assert(escape@ =~= seq![92u8, 13u8]);
        }

        let mut msp: Vec<u8> = Vec::new();
        msp.push(77);
        msp.push(83);
        msp.push(80);
        msp.push(32);
        if speed < 10 {
            msp.push(32);
        }
        push_dec(&mut msp, speed as u16);
        msp.push(32);
        msp.push(13);
        proof {
            assert(msp@ =~= msp_msg(speed));
        }

        let mut conv: Vec<u8> = Vec::new();
        conv.push(67);
        conv.push(79);
        conv.push(78);
        conv.push(86);
        conv.push(13);
        conv.push(10);
        proof {
            assert(conv@ =~= seq![67u8, 79u8, 78u8, 86u8, 13u8, 10u8]);
        }

        let mut msgs: Vec<Vec<u8>> = Vec::new();
        msgs.push(escape);
        msgs.push(msp);
        msgs.push(conv);
        msgs
    }
}

} // verus!
