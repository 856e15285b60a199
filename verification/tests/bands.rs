use rustlf::bands::{default_bandcorner, freq2bandindex, NBANDS};

#[test]
fn band_table_shape() {
    let corners = default_bandcorner();
    assert_eq!(corners.len(), NBANDS);
    assert_eq!(corners[0], (1_800_000, 2_000_000));
    assert_eq!(corners[5], (14_000_000, 14_350_000));
    assert_eq!(corners[10], (0, 0));
}

#[test]
fn lookup_inside_each_band() {
    let corners = default_bandcorner();
    for (i, (bottom, top)) in corners.iter().enumerate() {
        assert_eq!(freq2bandindex(&corners, *bottom), Some(i));
        assert_eq!(freq2bandindex(&corners, *top), Some(i));
        let mid = bottom + (top - bottom) / 2;
        assert_eq!(freq2bandindex(&corners, mid), Some(i));
    }
}

#[test]
fn lookup_out_of_band() {
    let corners = default_bandcorner();
    assert_eq!(freq2bandindex(&corners, 1_799_999), None);
    assert_eq!(freq2bandindex(&corners, 2_000_001), None);
    assert_eq!(freq2bandindex(&corners, 13_999_999), None);
    assert_eq!(freq2bandindex(&corners, 30_000_000), None);
    assert_eq!(freq2bandindex(&corners, u32::MAX), None);
}

#[test]
fn lookup_sentinel_row() {
    let corners = default_bandcorner();
    assert_eq!(freq2bandindex(&corners, 0), Some(10));
}

#[test]
fn lookup_first_match_wins() {
    let corners = vec![(10, 20), (15, 30)];
    assert_eq!(freq2bandindex(&corners, 18), Some(0));
    assert_eq!(freq2bandindex(&corners, 25), Some(1));
    assert_eq!(freq2bandindex(&corners, 5), None);
}
