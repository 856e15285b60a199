//! The keying byte queue: a fixed-capacity ring buffer of text waiting
//! to be keyed.
//!
//! Appending never blocks: what does not fit is dropped.  A flush
//! request is a flag that makes the next drain discard everything
//! queued at that moment.  The drain empties the queue and hands back
//! the queued bytes as one owned buffer.

use crate::keyer_interface::CwKeyerKind;
use crate::keyer_interface::DigiKeyerKind;
use crate::keyer_interface::TrxMode;
use crate::mfj1278::crlf_map;
use vstd::pervasive::VecAdditionalExecFns;
use vstd::prelude::*;
use vstd::slice::slice_subrange;

verus! {

/// Capacity of the application's keying queue in bytes.
pub const KEYER_QUEUE_SIZE: usize = 400;

/// Position of logical offset `i` inside a ring of `cap` cells whose
/// first queued byte sits at `head`.
pub open spec fn ring_index(head: int, cap: int, i: int) -> int {
    if head + i < cap {
        head + i
    } else {
        head + i - cap
    }
}

/// Two distinct logical offsets inside one ring period land on
/// distinct cells.
pub proof fn lemma_ring_index_distinct(head: int, cap: int, a: int, b: int)
    requires
        0 <= head < cap,
        0 <= a < cap,
        0 <= b < cap,
        a != b,
    ensures
        ring_index(head, cap, a) != ring_index(head, cap, b),
{
}

/// What an append leaves queued: the old contents followed by the
/// longest prefix of the new text that still fits under the capacity.
pub open spec fn append_model(contents: Seq<u8>, cap: int, text: Seq<u8>) -> Seq<u8> {
    if text.len() <= cap - contents.len() {
        contents + text
    } else {
        contents + text.take(cap - contents.len())
    }
}

/// Keying-queue capacity law: appending more bytes than the free space
/// in one call retains exactly `cap` bytes, the old contents followed
/// by an order-preserved prefix of the text.
pub proof fn lemma_append_overflow(contents: Seq<u8>, cap: int, text: Seq<u8>)
    requires
        0 <= contents.len() <= cap,
        text.len() >= cap - contents.len(),
    ensures
        append_model(contents, cap, text).len() == cap,
        append_model(contents, cap, text) == contents + text.take(cap - contents.len()),
{
    if text.len() <= cap - contents.len() {
        assert(text.take(cap - contents.len()) =~= text);
    }
}

/// The fixed-capacity keying ring buffer with its flush flag.
pub struct KeyerQueue {
    buf: Vec<u8>,
    head: usize,
    len: usize,
    flush_request: bool,
}

impl KeyerQueue {
    /// Number of cells in the ring.
    pub closed spec fn capacity_spec(&self) -> int {
        self.buf@.len() as int
    }

    /// The queued bytes, oldest first.
    pub closed spec fn contents(&self) -> Seq<u8> {
        Seq::new(
            self.len as nat,
            |i: int| self.buf@[ring_index(self.head as int, self.buf@.len() as int, i)],
        )
    }

    /// Whether a flush has been requested since the last drain.
    pub closed spec fn flush_requested(&self) -> bool {
        self.flush_request
    }

    /// Well-formedness: the head lies inside the ring and the queue
    /// never holds more than the capacity.
    pub closed spec fn inv(&self) -> bool {
        &&& 0 < self.buf@.len() <= 0x1000_0000
        &&& (self.head as int) < self.buf@.len()
        &&& (self.len as int) <= self.buf@.len()
    }

    /// An empty queue of the given capacity.
    pub fn new(capacity: usize) -> (q: KeyerQueue)
        requires
            0 < capacity <= 0x1000_0000,
        ensures
            q.inv(),
            q.capacity_spec() == capacity,
            q.contents() == Seq::<u8>::empty(),
            !q.flush_requested(),
    {
        let mut buf: Vec<u8> = Vec::new();
        let mut k: usize = 0;
        while k < capacity
            invariant
                buf@.len() == k,
                0 <= k <= capacity,
            decreases capacity - k,
        {
            buf.push(0);
            k = k + 1;
        }
        let q = KeyerQueue { buf, head: 0, len: 0, flush_request: false };
        proof {
            assert(q.contents() =~= Seq::<u8>::empty());
        }
        q
    }

    /// Appends as much of `text` as fits; the rest is silently dropped.
    pub fn keyer_append(&mut self, text: &[u8])
        requires
            old(self).inv(),
        ensures
            final(self).inv(),
            final(self).capacity_spec() == old(self).capacity_spec(),
            final(self).flush_requested() == old(self).flush_requested(),
            final(self).contents() == append_model(
                old(self).contents(),
                old(self).capacity_spec(),
                text@,
            ),
    {
        let cap = self.buf.len();
        let space = cap - self.len;
        let take: usize = if text.len() < space {
            text.len()
        } else {
            space
        };
        let ghost head = self.head as int;
        let ghost old_len = self.len as int;
        let ghost old_buf = self.buf@;
        let mut idx: usize = 0;
        while idx < take
            invariant
                self.head as int == head,
                self.len as int == old_len,
                self.flush_request == old(self).flush_request,
                0 <= head < cap,
                0 <= old_len <= cap,
                cap == self.buf@.len(),
                cap <= 0x1000_0000,
                take <= cap - old_len,
                take <= text@.len(),
                0 <= idx <= take,
                forall|j: int|
                    0 <= j < idx ==> self.buf@[ring_index(head, cap as int, old_len + j)]
                        == text@[j],
                forall|i: int|
                    0 <= i < old_len ==> self.buf@[ring_index(head, cap as int, i)] == old_buf[
                        ring_index(head, cap as int, i)
                    ],
            decreases take - idx,
        {
            let ghost capi = cap as int;
            let ghost prev_buf = self.buf@;
            let p = self.head + self.len + idx;
            let pos = if p < cap {
                p
            } else {
                p - cap
            };
            assert(pos == ring_index(head, capi, old_len + idx));
            self.buf.set(pos, text[idx]);
            proof {
                assert forall|i: int| 0 <= i < old_len implies self.buf@[ring_index(head, capi, i)]
                    == old_buf[ring_index(head, capi, i)] by {
                    lemma_ring_index_distinct(head, capi, i, old_len + idx as int);
                }
                assert forall|j: int| 0 <= j < idx + 1 implies self.buf@[ring_index(
                    head,
                    capi,
                    old_len + j,
                )] == text@[j] by {
                    if j < idx {
                        lemma_ring_index_distinct(head, capi, old_len + j, old_len + idx as int);
                    }
                }
            }
            idx = idx + 1;
        }
        self.len = self.len + take;
        proof {
            let capi = cap as int;
            assert(self.contents() =~= append_model(old(self).contents(), capi, text@));
        }
    }

    /// Appends one byte, dropping it when the queue is full.
    pub fn keyer_append_char(&mut self, c: u8)
        requires
            old(self).inv(),
        ensures
            final(self).inv(),
            final(self).capacity_spec() == old(self).capacity_spec(),
            final(self).flush_requested() == old(self).flush_requested(),
            final(self).contents() == append_model(
                old(self).contents(),
                old(self).capacity_spec(),
                seq![c],
            ),
    {
        let text: [u8; 1] = [c];
        let ghost t = text@;
        assert(t =~= seq![c]);
        self.keyer_append(text.as_slice());
    }

    /// Requests that the next drain discard everything queued; the
    /// queue itself is untouched.
    pub fn keyer_flush(&mut self)
        ensures
            *final(self) == flush_spec(*old(self)),
    {
        self.flush_request = true;
    }

    /// Drains the queue: consumes the flush flag, empties the ring, and
    /// returns the queued bytes unless a flush had been requested or
    /// nothing was queued.
    pub fn drain(&mut self) -> (r: Option<Vec<u8>>)
        requires
            old(self).inv(),
        ensures
            final(self).inv(),
            final(self).capacity_spec() == old(self).capacity_spec(),
            !final(self).flush_requested(),
            final(self).contents() == Seq::<u8>::empty(),
            match r {
                Some(data) => !old(self).flush_requested() && data@ == old(self).contents()
                    && data@.len() > 0,
                None => old(self).flush_requested() || old(self).contents().len() == 0,
            },
    {
        let do_flush = self.flush_request;
        self.flush_request = false;

        if self.len == 0 {
            proof {
                assert(self.contents() =~= Seq::<u8>::empty());
            }
            return None;
        }

        let cap = self.buf.len();
        let n1: usize = if self.len < cap - self.head {
            self.len
        } else {
            cap - self.head
        };
        let n2: usize = self.len - n1;

        let ghost head = self.head as int;
        let ghost qlen = self.len as int;

        let left = slice_subrange(self.buf.as_slice(), self.head, self.head + n1);
        let right = slice_subrange(self.buf.as_slice(), 0, n2);
        let data = combine_segments(left, right);
        proof {
            assert(data@ =~= self.contents());
        }

        let new_head = if self.len < cap - self.head {
            self.head + self.len
        } else {
            self.len - (cap - self.head)
        };
        self.head = new_head;
        self.len = 0;
        proof {
            assert(self.contents() =~= Seq::<u8>::empty());
        }

        if do_flush {
            None
        } else {
            Some(data)
        }
    }
}

/// A queue after a flush request: the same queue with the flag set.
pub closed spec fn flush_spec(q: KeyerQueue) -> KeyerQueue {
    KeyerQueue { flush_request: true, ..q }
}

/// Flush idempotence: requesting a flush twice before the next drain
/// leaves the queue exactly as one request does.
pub proof fn lemma_flush_idempotent(q: KeyerQueue)
    ensures
        flush_spec(flush_spec(q)) == flush_spec(q),
{
}

/// A flushed queue's drain reports nothing dispatched: its flag forces
/// the `None` arm of `drain` whatever is queued.
pub proof fn lemma_flush_forces_discard(q: KeyerQueue)
    ensures
        flush_spec(q).flush_requested(),
        flush_spec(q).contents() == q.contents(),
{
}

/// Joins the two wrapped segments of a ring read into one owned
/// buffer, left segment first.
pub fn combine_segments(left: &[u8], right: &[u8]) -> (out: Vec<u8>)
    ensures
        out@ == left@ + right@,
{
    let mut out: Vec<u8> = Vec::new();
    let n1 = left.len();
    let mut i: usize = 0;
    while i < n1
        invariant
            n1 == left@.len(),
            0 <= i <= n1,
            out@ =~= left@.take(i as int),
        decreases n1 - i,
    {
        out.push(left[i]);
        i = i + 1;
    }
    let n2 = right.len();
    let mut j: usize = 0;
    while j < n2
        invariant
            n2 == right@.len(),
            0 <= j <= n2,
            out@ =~= left@ + right@.take(j as int),
        decreases n2 - j,
    {
        out.push(right[j]);
        j = j + 1;
    }
    proof {
        assert(out@ =~= left@ + right@);
    }
    out
}

/// A fresh keying queue of the application's fixed capacity.
pub fn keyer_queue_init() -> (q: KeyerQueue)
    ensures
        q.inv(),
        q.capacity_spec() == KEYER_QUEUE_SIZE,
        q.contents() == Seq::<u8>::empty(),
        !q.flush_requested(),
{
    KeyerQueue::new(KEYER_QUEUE_SIZE)
}

/// `s` from position `i` on, without the in-band speed directives `+`
/// and `-`.
pub open spec fn strip_from(s: Seq<u8>, i: int) -> Seq<u8>
    decreases s.len() - i,
{
    if i < 0 || i >= s.len() {
        Seq::empty()
    } else {
        (if s[i] == 43 || s[i] == 45 {
            Seq::<u8>::empty()
        } else {
            seq![s[i]]
        }) + strip_from(s, i + 1)
    }
}

/// `s` without the in-band speed directives `+` and `-`, which the
/// hardware keyer cannot interpret.
pub open spec fn strip_speed_directives(s: Seq<u8>) -> Seq<u8> {
    strip_from(s, 0)
}

/// Drops the in-band speed directives from a message.
pub fn strip_speed_directives_exec(data: &[u8]) -> (out: Vec<u8>)
    ensures
        out@ == strip_speed_directives(data@),
{
    let n = data.len();
    let mut out: Vec<u8> = Vec::new();
    let mut i: usize = 0;
    while i < n
        invariant
            n == data@.len(),
            0 <= i <= n,
            out@ + strip_from(data@, i as int) =~= strip_speed_directives(data@),
        decreases n - i,
    {
        let c = data[i];
        if c != 43 && c != 45 {
            out.push(c);
            proof {
                assert(out@ + strip_from(data@, i + 1) =~= strip_speed_directives(data@));
            }
        } else {
            proof {
                assert(out@ + strip_from(data@, i + 1) =~= strip_speed_directives(data@));
            }
        }
        i = i + 1;
    }
    proof {
        assert(out@ =~= strip_speed_directives(data@));
    }
    out
}

/// The framing the file-based software modem wants: a leading line
/// feed, and no trailing one.
pub open spec fn gmfsk_frame(s: Seq<u8>) -> Seq<u8> {
    seq![10u8] + (if s.len() > 0 && s.last() == 10 {
        s.drop_last()
    } else {
        s
    })
}

/// Where a drained message goes and what bytes are handed over.
#[derive(Clone, PartialEq, Eq, Debug)]
pub enum KeyerDispatch {
    /// CW over the rig's own keyer, speed directives stripped.
    CwHamlib(Vec<u8>),
    /// CW over the network keyer daemon.
    CwNet(Vec<u8>),
    /// CW over the terminal-node controller, line endings rewritten.
    CwMfj(Vec<u8>),
    /// CW with no keyer configured: accepted and keyed nowhere.
    CwNull(Vec<u8>),
    /// Digital text for the companion program.
    DigiFldigi(Vec<u8>),
    /// Digital text for the terminal-node controller.
    DigiMfj(Vec<u8>),
    /// Digital text for the file-based software modem, framed.
    DigiGmfsk(Vec<u8>),
}

/// The routing a drained message receives: the operating mode picks
/// the keyer family, the selector the backend, and each backend's
/// preparation is applied to the bytes.
pub open spec fn dispatch_matches(
    r: KeyerDispatch,
    data: Seq<u8>,
    trxmode: TrxMode,
    cwkeyer: CwKeyerKind,
    digikeyer: DigiKeyerKind,
) -> bool {
    match trxmode {
        TrxMode::Cw => match cwkeyer {
            CwKeyerKind::HamlibKeyer => r matches KeyerDispatch::CwHamlib(m) && m@
                == strip_speed_directives(data),
            CwKeyerKind::NetKeyer => r matches KeyerDispatch::CwNet(m) && m@ == data,
            CwKeyerKind::Mfj1278Keyer => r matches KeyerDispatch::CwMfj(m) && m@ == crlf_map(data),
            CwKeyerKind::NoKeyer => r matches KeyerDispatch::CwNull(m) && m@ == data,
        },
        TrxMode::Digi => match digikeyer {
            DigiKeyerKind::Fldigi => r matches KeyerDispatch::DigiFldigi(m) && m@ == data,
            DigiKeyerKind::Mfj1278Digi => r matches KeyerDispatch::DigiMfj(m) && m@ == data,
            DigiKeyerKind::Gmfsk => r matches KeyerDispatch::DigiGmfsk(m) && m@ == gmfsk_frame(
                data,
            ),
            DigiKeyerKind::NoDigiKeyer => false,
        },
        TrxMode::Ssb => false,
    }
}

/// Routes one drained message to the configured keyer backend.
pub fn keyer_dispatch(
    data: Vec<u8>,
    trxmode: TrxMode,
    cwkeyer: CwKeyerKind,
    digikeyer: DigiKeyerKind,
) -> (r: Option<KeyerDispatch>)
    requires
        trxmode == TrxMode::Digi ==> digikeyer != DigiKeyerKind::NoDigiKeyer,
    ensures
        trxmode == TrxMode::Ssb <==> r is None,
        r matches Some(d) ==> dispatch_matches(d, data@, trxmode, cwkeyer, digikeyer),
{
    match trxmode {
        TrxMode::Ssb => None,
        TrxMode::Cw => match cwkeyer {
            CwKeyerKind::HamlibKeyer => {
                let stripped = strip_speed_directives_exec(data.as_slice());
                Some(KeyerDispatch::CwHamlib(stripped))
            },
            CwKeyerKind::NetKeyer => Some(KeyerDispatch::CwNet(data)),
            CwKeyerKind::Mfj1278Keyer => {
                let mut data = data;
                let mfj = crate::mfj1278::Mfj1278Keyer;
                mfj.prepare_message(&mut data);
                Some(KeyerDispatch::CwMfj(data))
            },
            CwKeyerKind::NoKeyer => Some(KeyerDispatch::CwNull(data)),
        },
        TrxMode::Digi => match digikeyer {
            DigiKeyerKind::Fldigi => Some(KeyerDispatch::DigiFldigi(data)),
            DigiKeyerKind::Mfj1278Digi => Some(KeyerDispatch::DigiMfj(data)),
            DigiKeyerKind::Gmfsk => {
                let mut data = data;
                let ghost orig = data@;
                let n = data.len();
                if n > 0 && data[n - 1] == 10 {
                    data.pop();
                }
                data.insert(0, 10);
                proof {
                    assert(data@ =~= gmfsk_frame(orig));
                }
                Some(KeyerDispatch::DigiGmfsk(data))
            },
            DigiKeyerKind::NoDigiKeyer => vstd::pervasive::unreached(),
        },
    }
}

/// One background drain cycle: outside a keying mode nothing is
/// touched; otherwise the queue is drained and the message, when one
/// survives the flush check, is routed to the active backend.
pub fn write_keyer(
    queue: &mut KeyerQueue,
    trxmode: TrxMode,
    cwkeyer: CwKeyerKind,
    digikeyer: DigiKeyerKind,
) -> (r: Option<KeyerDispatch>)
    requires
        old(queue).inv(),
        trxmode == TrxMode::Digi ==> digikeyer != DigiKeyerKind::NoDigiKeyer,
    ensures
        final(queue).inv(),
        final(queue).capacity_spec() == old(queue).capacity_spec(),
        trxmode == TrxMode::Ssb ==> *final(queue) == *old(queue) && r is None,
        trxmode != TrxMode::Ssb ==> final(queue).contents() == Seq::<u8>::empty()
            && !final(queue).flush_requested(),
        trxmode != TrxMode::Ssb && (old(queue).flush_requested() || old(queue).contents().len()
            == 0) ==> r is None,
        trxmode != TrxMode::Ssb && !old(queue).flush_requested() && old(queue).contents().len() > 0
            ==> (r matches Some(d) && dispatch_matches(
            d,
            old(queue).contents(),
            trxmode,
            cwkeyer,
            digikeyer,
        )),
{
    let applicable = match trxmode {
        TrxMode::Cw => true,
        TrxMode::Digi => true,
        TrxMode::Ssb => false,
    };
    if !applicable {
        return None;
    }
    match queue.drain() {
        None => None,
        Some(data) => keyer_dispatch(data, trxmode, cwkeyer, digikeyer),
    }
}

} // verus!
