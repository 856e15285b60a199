use rustlf::qtcutil::{parse_qtcline, QtcDirection, CALLSIGN_SIZE, QTC_RECV_OFFSET};

const QTC_LENGTH: usize = 120;

fn make_line(callsign_length: usize, logline: &mut Vec<u8>) {
    logline.clear();
    logline.extend(std::iter::repeat(b' ').take(QTC_RECV_OFFSET));
    logline.extend(std::iter::repeat(b'A').take(callsign_length));
    logline.extend(std::iter::repeat(b' ').take(QTC_LENGTH - logline.len()));
    logline[QTC_LENGTH - 1] = b'\n';
}

#[test]
fn test_parse_qtcline() {
    const TEST_SIZE: usize = 20;
    let mut logline = Vec::with_capacity(QTC_LENGTH);
    let mut callsign = vec![255u8; CALLSIGN_SIZE + 1];

    for i in 0..TEST_SIZE {
        make_line(i, &mut logline);
        callsign.iter_mut().for_each(|b| *b = 255);

        parse_qtcline(logline.as_slice(), &mut callsign, QtcDirection::Recv);

        let len = callsign.iter().position(|b| *b == 0).expect("terminator");
        assert_eq!(len, std::cmp::min(i, CALLSIGN_SIZE));
    }
}

#[test]
fn parse_qtcline_send_offset() {
    let mut logline = vec![b' '; QTC_LENGTH];
    logline[35..35 + 5].copy_from_slice(b"W1AW ");
    let mut callsign = vec![255u8; CALLSIGN_SIZE + 1];
    parse_qtcline(logline.as_slice(), &mut callsign, QtcDirection::Send);
    assert_eq!(&callsign[..4], b"W1AW");
    assert_eq!(callsign[4], 0);
    // bytes after the terminator keep their old values
    assert_eq!(callsign[6], 255);
}
