//! Band-corner table and frequency-to-band lookup.
//!
//! A band is a contiguous frequency allocation given by its bottom and
//! top corner frequency in Hz, both inclusive.  The lookup scans a
//! small ordered table and returns the index of the first band that
//! contains the frequency; the table's final `(0, 0)` row serves as the
//! out-of-band sentinel for frequency zero.

use vstd::prelude::*;

verus! {

/// Number of rows in the default band-corner table, the last row being
/// the sentinel.
pub const NBANDS: usize = 11;

/// Frequency `freq` lies within the inclusive corner range of row `i`.
pub open spec fn in_band(corners: Seq<(u32, u32)>, i: int, freq: u32) -> bool {
    corners[i].0 <= freq && freq <= corners[i].1
}

/// Index of the first row of `corners` whose range contains `freq`.
pub open spec fn band_lookup(corners: Seq<(u32, u32)>, freq: u32) -> Option<int>
    decreases corners.len(),
{
    if corners.len() == 0 {
        None
    } else if in_band(corners, 0, freq) {
        Some(0int)
    } else {
        match band_lookup(corners.drop_first(), freq) {
            Some(i) => Some(i + 1),
            None => None,
        }
    }
}

/// A first match at row `i` determines the lookup result.
pub proof fn lemma_band_lookup_first_match(corners: Seq<(u32, u32)>, freq: u32, i: int)
    requires
        0 <= i < corners.len(),
        in_band(corners, i, freq),
        forall|j: int| 0 <= j < i ==> !in_band(corners, j, freq),
    ensures
        band_lookup(corners, freq) == Some(i),
    decreases i,
{
    if i == 0 {
    } else {
        assert(!in_band(corners, 0, freq));
        let rest = corners.drop_first();
        assert forall|j: int| 0 <= j < i - 1 implies !in_band(rest, j, freq) by {
            assert(!in_band(corners, j + 1, freq));
            assert(rest[j] == corners[j + 1]);
        }
        assert(rest[i - 1] == corners[i]);
        lemma_band_lookup_first_match(rest, freq, i - 1);
    }
}

/// A frequency inside no row is looked up as out of band.
pub proof fn lemma_band_lookup_none(corners: Seq<(u32, u32)>, freq: u32)
    requires
        forall|j: int| 0 <= j < corners.len() ==> !in_band(corners, j, freq),
    ensures
        band_lookup(corners, freq) is None,
    decreases corners.len(),
{
    if corners.len() == 0 {
    } else {
        let rest = corners.drop_first();
        assert forall|j: int| 0 <= j < rest.len() implies !in_band(rest, j, freq) by {
            assert(!in_band(corners, j + 1, freq));
            assert(rest[j] == corners[j + 1]);
        }
        lemma_band_lookup_none(rest, freq);
    }
}

/// Band-lookup law: when the table's rows are pairwise disjoint, every
/// frequency inside row `i` is looked up as exactly band `i`.
pub proof fn lemma_freq_in_band(corners: Seq<(u32, u32)>, freq: u32, i: int)
    requires
        forall|j: int, k: int|
            0 <= j < k < corners.len() ==> corners[j].1 < corners[k].0 || corners[k].1
                < corners[j].0,
        0 <= i < corners.len(),
        in_band(corners, i, freq),
    ensures
        band_lookup(corners, freq) == Some(i),
{
    assert forall|j: int| 0 <= j < i implies !in_band(corners, j, freq) by {
        assert(corners[j].1 < corners[i].0 || corners[i].1 < corners[j].0);
    }
    lemma_band_lookup_first_match(corners, freq, i);
}

/// Linear scan of the band table; the first matching row wins.
pub fn freq2bandindex(corners: &Vec<(u32, u32)>, freq: u32) -> (r: Option<usize>)
    ensures
        match r {
            Some(i) => band_lookup(corners@, freq) == Some(i as int),
            None => band_lookup(corners@, freq) is None,
        },
{
    let n = corners.len();
    let mut k: usize = 0;
    while k < n
        invariant
            n == corners@.len(),
            0 <= k <= n,
            forall|j: int| 0 <= j < k ==> !in_band(corners@, j, freq),
        decreases n - k,
    {
        let (bottom, top) = corners[k];
        if bottom <= freq && freq <= top {
            proof {
                lemma_band_lookup_first_match(corners@, freq, k as int);
            }
            return Some(k);
        }
        k = k + 1;
    }
    proof {
        lemma_band_lookup_none(corners@, freq);
    }
    None
}

/// The default band-corner table: the contest bands 160 m through 10 m,
/// plus the out-of-band sentinel row.
pub fn default_bandcorner() -> (corners: Vec<(u32, u32)>)
    ensures
        corners@.len() == NBANDS,
        corners@[0] == (1_800_000u32, 2_000_000u32),
        corners@[1] == (3_500_000u32, 4_000_000u32),
        corners@[2] == (5_250_000u32, 5_450_000u32),
        corners@[3] == (7_000_000u32, 7_300_000u32),
        corners@[4] == (10_100_000u32, 10_150_000u32),
        corners@[5] == (14_000_000u32, 14_350_000u32),
        corners@[6] == (18_068_000u32, 18_168_000u32),
        corners@[7] == (21_000_000u32, 21_450_000u32),
        corners@[8] == (24_890_000u32, 24_990_000u32),
        corners@[9] == (28_000_000u32, 29_700_000u32),
        corners@[10] == (0u32, 0u32),
{
    let mut corners: Vec<(u32, u32)> = Vec::new();
    corners.push((1_800_000, 2_000_000));
    corners.push((3_500_000, 4_000_000));
    corners.push((5_250_000, 5_450_000));
    corners.push((7_000_000, 7_300_000));
    corners.push((10_100_000, 10_150_000));
    corners.push((14_000_000, 14_350_000));
    corners.push((18_068_000, 18_168_000));
    corners.push((21_000_000, 21_450_000));
    corners.push((24_890_000, 24_990_000));
    corners.push((28_000_000, 29_700_000));
    corners.push((0, 0));
    corners
}

} // verus!
