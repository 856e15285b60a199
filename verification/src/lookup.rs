//! Callsign normalization for country lookups.
//!
//! Portable and special suffixes are stripped or folded so that the
//! remaining string carries the station's country-determining prefix:
//! `K2ND/4` becomes `K4ND`, a reversed `4/K2ND` is put back in order,
//! and suffixes that void the country, such as maritime mobile, empty
//! the call.

use crate::hamlib::find_byte;
use crate::hamlib::find_from;
use crate::hamlib::lemma_find_byte;
use vstd::pervasive::VecAdditionalExecFns;
use vstd::prelude::*;
use vstd::slice::slice_subrange;
use vstd::slice::slice_to_vec;

verus! {

/// An ASCII decimal digit.
pub open spec fn is_digit(b: u8) -> bool {
    48 <= b <= 57
}

/// `s` ends with `suffix`.
pub open spec fn ends_with(s: Seq<u8>, suffix: Seq<u8>) -> bool {
    s.len() >= suffix.len() && s.skip(s.len() - suffix.len()) == suffix
}

/// What stripping leaves of a call: a `/QRP` suffix goes; a call then
/// ending in `/MM` or `/AM` has no assignable country and becomes
/// empty.
pub open spec fn strip_call_spec(s: Seq<u8>) -> Seq<u8> {
    let t = if ends_with(s, seq![47u8, 81, 82, 80]) {
        s.take(s.len() - 4)
    } else {
        s
    };
    if ends_with(t, seq![47u8, 77, 77]) || ends_with(t, seq![47u8, 65, 77]) {
        Seq::empty()
    } else {
        t
    }
}

/// Checks one fixed byte of a suffix.
fn suffix_byte(call: &[u8], back: usize, b: u8) -> (r: bool)
    requires
        back >= 1,
        call@.len() >= back,
    ensures
        r == (call@[call@.len() - back] == b),
{
    call[call.len() - back] == b
}

/// Strips the suffixes that do not determine a country.
pub fn strip_call(call: &[u8]) -> (r: &[u8])
    ensures
        r@ == strip_call_spec(call@),
{
    let n = call.len();
    let t: &[u8] = if n >= 4 && suffix_byte(call, 4, 47) && suffix_byte(call, 3, 81)
        && suffix_byte(call, 2, 82) && suffix_byte(call, 1, 80) {
        proof {
            assert(call@.skip(n - 4) =~= seq![47u8, 81, 82, 80]);
        }
        slice_subrange(call, 0, n - 4)
    } else {
        proof {
            if call@.len() >= 4 && call@.skip(n - 4) == seq![47u8, 81, 82, 80] {
                assert(call@.skip(n - 4)[0] == call@[n - 4]);
                assert(call@.skip(n - 4)[1] == call@[n - 3]);
                assert(call@.skip(n - 4)[2] == call@[n - 2]);
                assert(call@.skip(n - 4)[3] == call@[n - 1]);
            }
        }
        call
    };
    let m = t.len();
    let mm = m >= 3 && suffix_byte(t, 3, 47) && suffix_byte(t, 2, 77) && suffix_byte(t, 1, 77);
    let am = m >= 3 && suffix_byte(t, 3, 47) && suffix_byte(t, 2, 65) && suffix_byte(t, 1, 77);
    proof {
        if t@.len() >= 3 {
            assert(t@.skip(m - 3)[0] == t@[m - 3]);
            assert(t@.skip(m - 3)[1] == t@[m - 2]);
            assert(t@.skip(m - 3)[2] == t@[m - 1]);
            if mm {
                assert(t@.skip(m - 3) =~= seq![47u8, 77, 77]);
            }
            if am {
                assert(t@.skip(m - 3) =~= seq![47u8, 65, 77]);
            }
        }
    }
    if mm || am {
        let r = slice_subrange(t, 0, 0);
        proof {
            assert(r@ =~= Seq::<u8>::empty());
        }
        r
    } else {
        t
    }
}

/// Index of the last decimal digit in `s`, or minus one.
pub open spec fn last_digit_index(s: Seq<u8>) -> int
    decreases s.len(),
{
    if s.len() == 0 {
        -1
    } else if is_digit(s.last()) {
        s.len() - 1
    } else {
        last_digit_index(s.drop_last())
    }
}

/// The defining properties of `last_digit_index`.
pub proof fn lemma_last_digit_index(s: Seq<u8>)
    ensures
        -1 <= last_digit_index(s) < s.len(),
        last_digit_index(s) >= 0 ==> is_digit(s[last_digit_index(s)]),
        forall|j: int| last_digit_index(s) < j < s.len() ==> !is_digit(s[j]),
    decreases s.len(),
{
    if s.len() > 0 && !is_digit(s.last()) {
        lemma_last_digit_index(s.drop_last());
        let rest = s.drop_last();
        assert forall|j: int| last_digit_index(s) < j < s.len() implies !is_digit(s[j]) by {
            if j < s.len() - 1 {
                assert(rest[j] == s[j]);
            }
        }
        if last_digit_index(s) >= 0 {
            assert(rest[last_digit_index(rest)] == s[last_digit_index(s)]);
        }
    }
}

/// A call with its area digit replaced: the last digit becomes the
/// new area; a call without digits stays as it is.
pub open spec fn change_area_spec(s: Seq<u8>, area: u8) -> Seq<u8> {
    let i = last_digit_index(s);
    if i >= 0 {
        s.update(i, area)
    } else {
        s
    }
}

/// Replaces the callsign area: for stations with several digits the
/// last one is replaced.
pub fn change_area(call: &mut Vec<u8>, area: u8)
    ensures
        final(call)@ == change_area_spec(old(call)@, area),
{
    proof {
        lemma_last_digit_index(call@);
    }
    let n = call.len();
    let mut i: usize = n;
    while i > 0
        invariant
            0 <= i <= n,
            n == call@.len(),
            call@ == old(call)@,
            forall|j: int| i <= j < n ==> !is_digit(call@[j]),
        decreases i,
    {
        i = i - 1;
        let c = call[i];
        if c >= 48 && c <= 57 {
            proof {
                lemma_last_digit_index(call@);
                assert(last_digit_index(call@) == i as int);
            }
            call.set(i, area);
            return ;
        }
    }
}

/// The normalized form of a call and whether it was written in the
/// abnormal reversed order.  A call without a slash is already normal.
/// With one: a shorter trailing part is swapped to the front; a
/// portable area digit replaces the call's own area; a long suffix
/// replaces the call; short leading parts and short suffixes are cut
/// at the slash.
pub open spec fn normalize_call_spec(call: Seq<u8>) -> (Seq<u8>, bool) {
    let k = find_byte(call, 47);
    if k >= call.len() {
        (call, false)
    } else {
        let call1 = call.take(k);
        let call2 = call.skip(k + 1);
        let swapped = call2.len() < call1.len() && call2.len() > 1;
        let c0 = if swapped {
            call2 + seq![47u8] + call1
        } else {
            call
        };
        let loc = if swapped {
            find_byte(c0, 47)
        } else {
            k
        };
        let checkbuffer = if loc > 3 {
            c0.skip(loc + 1)
        } else {
            Seq::<u8>::empty()
        };
        let c1 = if loc > 3 && checkbuffer.len() == 1 {
            c0.take(loc)
        } else {
            c0
        };
        let k2 = find_byte(c1, 47);
        let c2 = if k2 < c1.len() && k2 < 5 {
            c1.take(k2)
        } else {
            c1
        };
        let c3 = if checkbuffer.len() == 1 && is_digit(checkbuffer[0]) {
            change_area_spec(c2, checkbuffer[0])
        } else if checkbuffer.len() > 1 {
            checkbuffer
        } else {
            c2
        };
        (c3, swapped)
    }
}

/// Normalizes a call for the country lookup.
#[verifier::rlimit(80)]
pub fn normalize_call(call: &[u8]) -> (r: (Vec<u8>, bool))
    ensures
        (r.0@, r.1) == normalize_call_spec(call@),
{
    let n = call.len();
    let k = find_from(call, 0, 47);
    proof {
        assert(call@.skip(0) =~= call@);
    }
    if k == n {
        return (slice_to_vec(call), false);
    }

    let ghost call1 = call@.take(k as int);
    let ghost call2 = call@.skip(k as int + 1);
    let len2 = n - (k + 1);
    let swapped = len2 < k && len2 > 1;

    let mut c0: Vec<u8>;
    if swapped {
        c0 = slice_to_vec(slice_subrange(call, k + 1, n));
        c0.push(47);
        let mut i: usize = 0;
        while i < k
            invariant
                0 <= i <= k <= call@.len(),
                c0@ =~= call@.skip(k as int + 1) + seq![47u8] + call@.take(k as int).take(i as int),
            decreases k - i,
        {
            c0.push(call[i]);
            i = i + 1;
        }
        proof {
            assert(call1.take(k as int) =~= call1);
            assert(c0@ =~= call2 + seq![47u8] + call1);
        }
    } else {
        c0 = slice_to_vec(call);
    }

    let loc: usize = if swapped {
        let l = find_from(c0.as_slice(), 0, 47);
        proof {
            assert(c0@.skip(0) =~= c0@);
        }
        l
    } else {
        k
    };
    proof {
        if swapped {
            lemma_find_byte(c0@, 47);
            assert(c0@[call2.len() as int] == 47);
            assert(find_byte(c0@, 47) <= call2.len() < c0@.len());
        }
    }

    let checkbuffer: Vec<u8> = if loc > 3 {
        slice_to_vec(slice_subrange(c0.as_slice(), loc + 1, c0.len()))
    } else {
        Vec::new()
    };
    proof {
        if loc > 3 {
            assert(checkbuffer@ =~= c0@.skip(loc as int + 1));
        } else {
            assert(checkbuffer@ =~= Seq::<u8>::empty());
        }
    }

    let c1: Vec<u8> = if loc > 3 && checkbuffer.len() == 1 {
        slice_to_vec(slice_subrange(c0.as_slice(), 0, loc))
    } else {
        c0
    };

    let k2 = find_from(c1.as_slice(), 0, 47);
    proof {
        assert(c1@.skip(0) =~= c1@);
    }
    let c2: Vec<u8> = if k2 < c1.len() && k2 < 5 {
        slice_to_vec(slice_subrange(c1.as_slice(), 0, k2))
    } else {
        c1
    };

    let cb_is_digit = checkbuffer.len() == 1 && {
        let b = checkbuffer[0];
        b >= 48 && b <= 57
    };
    if cb_is_digit {
        let mut c3 = c2;
        change_area(&mut c3, checkbuffer[0]);
        (c3, swapped)
    } else if checkbuffer.len() > 1 {
        (checkbuffer, swapped)
    } else {
        (c2, swapped)
    }
}

} // verus!
