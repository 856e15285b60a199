//! Extracting the partner callsign from a traffic log line.
//!
//! A log line holds the callsign at a fixed column that depends on the
//! traffic direction; the callsign runs to the first space and is
//! copied out with a terminating zero byte.

use vstd::pervasive::VecAdditionalExecFns;
use vstd::prelude::*;

verus! {

/// Width of the callsign column.
pub const CALLSIGN_SIZE: usize = 14;

/// Column of the callsign in a received-traffic line.
pub const QTC_RECV_OFFSET: usize = 30;

/// Column of the callsign in a sent-traffic line.
pub const QTC_SEND_OFFSET: usize = 35;

/// Which direction of traffic the line logs.
#[derive(Clone, Copy, PartialEq, Eq, Structural, Debug)]
pub enum QtcDirection {
    Recv,
    Send,
}

/// The callsign column of this direction.
pub open spec fn qtc_offset_spec(direction: QtcDirection) -> int {
    match direction {
        QtcDirection::Recv => QTC_RECV_OFFSET as int,
        QtcDirection::Send => QTC_SEND_OFFSET as int,
    }
}

/// Length of the callsign in the column: up to the first space, or the
/// whole column.
pub open spec fn callsign_end_spec(source: Seq<u8>) -> int {
    let k = crate::hamlib::find_byte(source, 32);
    if k < CALLSIGN_SIZE {
        k
    } else {
        CALLSIGN_SIZE as int
    }
}

/// Copies the callsign out of a log line into the zero-terminated
/// buffer.  Positions after the terminator keep their old bytes, as in
/// a C string buffer.
pub fn parse_qtcline(logline: &[u8], callsign: &mut Vec<u8>, direction: QtcDirection)
    requires
        logline@.len() >= qtc_offset_spec(direction) + CALLSIGN_SIZE,
        old(callsign)@.len() == CALLSIGN_SIZE + 1,
    ensures
        final(callsign)@.len() == CALLSIGN_SIZE + 1,
        ({
            let source = logline@.subrange(
                qtc_offset_spec(direction),
                qtc_offset_spec(direction) + CALLSIGN_SIZE,
            );
            let end = callsign_end_spec(source);
            &&& forall|i: int| 0 <= i < end ==> final(callsign)@[i] == source[i]
            &&& final(callsign)@[end] == 0
            &&& forall|i: int|
                end < i < CALLSIGN_SIZE + 1 ==> final(callsign)@[i] == old(callsign)@[i]
        }),
{
    let offset: usize = match direction {
        QtcDirection::Recv => QTC_RECV_OFFSET,
        QtcDirection::Send => QTC_SEND_OFFSET,
    };
    let ghost source = logline@.subrange(
        offset as int,
        offset as int + CALLSIGN_SIZE,
    );
    proof {
        crate::hamlib::lemma_find_byte(source, 32);
    }
    let mut end: usize = 0;
    while end < CALLSIGN_SIZE && logline[offset + end] != 32
        invariant
            0 <= end <= CALLSIGN_SIZE,
            logline@.len() >= offset + CALLSIGN_SIZE,
            offset == qtc_offset_spec(direction),
            source == logline@.subrange(offset as int, offset as int + CALLSIGN_SIZE),
            forall|j: int| 0 <= j < end ==> source[j] != 32,
        decreases CALLSIGN_SIZE - end,
    {
        proof {
            assert(source[end as int] == logline@[offset + end]);
        }
        end = end + 1;
    }
    proof {
        crate::hamlib::lemma_find_byte(source, 32);
        if end < CALLSIGN_SIZE {
            assert(source[end as int] == logline@[offset + end]);
            assert(source[end as int] == 32);
        }
        assert(end == callsign_end_spec(source));
    }
    let mut i: usize = 0;
    while i < end
        invariant
            0 <= i <= end <= CALLSIGN_SIZE,
            logline@.len() >= offset + CALLSIGN_SIZE,
            offset == qtc_offset_spec(direction),
            source == logline@.subrange(offset as int, offset as int + CALLSIGN_SIZE),
            callsign@.len() == CALLSIGN_SIZE + 1,
            forall|j: int| 0 <= j < i ==> callsign@[j] == source[j],
            forall|j: int| i <= j < CALLSIGN_SIZE + 1 ==> callsign@[j] == old(callsign)@[j],
        decreases end - i,
    {
        proof {
            assert(source[i as int] == logline@[offset + i]);
        }
        callsign.set(i, logline[offset + i]);
        i = i + 1;
    }
    callsign.set(end, 0);
}

} // verus!
