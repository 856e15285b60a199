use rustlf::lookup::{change_area, normalize_call, strip_call};

#[test]
fn strip_call_suffixes() {
    assert_eq!(strip_call(b"K1AB/QRP"), b"K1AB");
    assert_eq!(strip_call(b"K1AB/MM"), b"");
    assert_eq!(strip_call(b"K1AB/AM"), b"");
    assert_eq!(strip_call(b"K1AB/MM/QRP"), b"");
    assert_eq!(strip_call(b"K1AB"), b"K1AB");
    assert_eq!(strip_call(b""), b"");
}

#[test]
fn change_area_replaces_last_digit() {
    let mut call = b"K2ND".to_vec();
    change_area(&mut call, b'4');
    assert_eq!(call, b"K4ND".to_vec());
    let mut call = b"LZ1000".to_vec();
    change_area(&mut call, b'9');
    assert_eq!(call, b"LZ1009".to_vec());
    let mut call = b"XYZ".to_vec();
    change_area(&mut call, b'1');
    assert_eq!(call, b"XYZ".to_vec());
}

#[test]
fn normalize_plain_call() {
    let (call, abnormal) = normalize_call(b"W1AW");
    assert_eq!(call, b"W1AW".to_vec());
    assert!(!abnormal);
}

#[test]
fn normalize_portable_area() {
    // K2ND/4 -> K4ND
    let (call, abnormal) = normalize_call(b"K2ND/4");
    assert_eq!(call, b"K4ND".to_vec());
    assert!(!abnormal);
}

#[test]
fn normalize_reversed_portable() {
    // the shorter trailing part is the real prefix: it moves in front
    // and the call is cut at the slash
    let (call, abnormal) = normalize_call(b"I2ADW/IG9");
    assert_eq!(call, b"IG9".to_vec());
    assert!(abnormal);
}

#[test]
fn normalize_short_prefix_part() {
    let (call, abnormal) = normalize_call(b"W4/K2ND");
    assert_eq!(call, b"W4".to_vec());
    assert!(!abnormal);
}

#[test]
fn normalize_long_suffix_replaces_call() {
    // the shorter trailing part moves in front and the call is cut at
    // the slash; the reversed order is flagged
    let (call, abnormal) = normalize_call(b"K2ND/VP5");
    assert_eq!(call, b"VP5".to_vec());
    assert!(abnormal);
}
