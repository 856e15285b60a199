use rustlf::err_utils::CResult;
use rustlf::netkeyer::{bind_addr_kind, BindAddrKind};
use rustlf::netkeyer::{
    netkeyer_abort, netkeyer_enable_word_mode, netkeyer_set_band_switch, netkeyer_set_pin14,
    netkeyer_set_ptt, netkeyer_set_sidetone_volume, netkeyer_tune, parse_tone, Error,
    NetKeyerFrontend, Netkeyer, ToneState, DEFAULT_TONE, ESC,
};

#[test]
fn speed_validation() {
    let k = Netkeyer::new();
    assert_eq!(k.set_speed(4), Err(Error::InvalidParameter));
    assert_eq!(k.set_speed(61), Err(Error::InvalidParameter));
    assert_eq!(k.set_speed(5).unwrap(), vec![ESC, b'2', b'5']);
    assert_eq!(k.set_speed(60).unwrap(), vec![ESC, b'2', b'6', b'0']);
}

#[test]
fn tone_validation() {
    let k = Netkeyer::new();
    assert_eq!(k.set_tone(0).unwrap(), vec![ESC, b'3', b'0']);
    assert_eq!(k.set_tone(299), Err(Error::InvalidParameter));
    assert_eq!(k.set_tone(300).unwrap(), vec![ESC, b'3', b'3', b'0', b'0']);
    assert_eq!(k.set_tone(1000).unwrap(), vec![ESC, b'3', b'1', b'0', b'0', b'0']);
    assert_eq!(k.set_tone(1001), Err(Error::InvalidParameter));
}

#[test]
fn weight_validation_and_sign() {
    let k = Netkeyer::new();
    assert_eq!(k.set_weight(-51), Err(Error::InvalidParameter));
    assert_eq!(k.set_weight(51), Err(Error::InvalidParameter));
    assert_eq!(k.set_weight(-50).unwrap(), vec![ESC, b'7', b'-', b'5', b'0']);
    assert_eq!(k.set_weight(0).unwrap(), vec![ESC, b'7', b'0']);
    assert_eq!(k.set_weight(50).unwrap(), vec![ESC, b'7', b'5', b'0']);
}

#[test]
fn simple_commands() {
    let k = Netkeyer::new();
    assert_eq!(k.reset(), vec![ESC, b'0']);
    assert_eq!(k.abort(), vec![ESC, b'4']);
    assert_eq!(k.exit(), vec![ESC, b'5']);
    assert_eq!(k.enable_word_mode(), vec![ESC, b'6']);
}

#[test]
fn toggles_and_ranges() {
    let k = Netkeyer::new();
    assert_eq!(k.set_ptt(true), vec![ESC, b'a', b'1']);
    assert_eq!(k.set_ptt(false), vec![ESC, b'a', b'0']);
    assert_eq!(k.set_pin14(true), vec![ESC, b'b', b'1']);
    assert_eq!(k.tune(10).unwrap(), vec![ESC, b'c', b'1', b'0']);
    assert_eq!(k.tune(11), Err(Error::InvalidParameter));
    assert_eq!(k.set_tx_delay(50).unwrap(), vec![ESC, b'd', b'5', b'0']);
    assert_eq!(k.set_tx_delay(51), Err(Error::InvalidParameter));
    assert_eq!(k.set_band_switch(0), Err(Error::InvalidParameter));
    assert_eq!(k.set_band_switch(9).unwrap(), vec![ESC, b'e', b'9']);
    assert_eq!(k.set_band_switch(10), Err(Error::InvalidParameter));
    assert_eq!(k.set_device(b"ttyS0"), vec![ESC, b'8', b't', b't', b'y', b'S', b'0']);
    assert_eq!(k.set_sidetone_device(b's').unwrap(), vec![ESC, b'f', b's']);
    assert_eq!(k.set_sidetone_device(b'x'), Err(Error::InvalidParameter));
}

#[test]
fn volume_cached_and_validated() {
    let mut k = Netkeyer::new();
    assert_eq!(k.set_sidetone_volume(101), Err(Error::InvalidParameter));
    assert_eq!(k.set_sidetone_volume(70).unwrap(), vec![ESC, b'g', b'7', b'0']);
}

#[test]
fn write_tone_restores_volume() {
    let mut k = Netkeyer::new();
    // no cached volume: an audible tone restores the 70 percent default
    let ds = k.write_tone(600).unwrap();
    assert_eq!(ds.len(), 2);
    assert_eq!(ds[0], vec![ESC, b'3', b'6', b'0', b'0']);
    assert_eq!(ds[1], vec![ESC, b'g', b'7', b'0']);
    // a cached volume is restored instead
    k.set_sidetone_volume(30).unwrap();
    let ds = k.write_tone(700).unwrap();
    assert_eq!(ds[1], vec![ESC, b'g', b'3', b'0']);
    // muting sends only the tone command
    let ds = k.write_tone(0).unwrap();
    assert_eq!(ds.len(), 1);
}

#[test]
fn send_text_rejects_escape() {
    let k = Netkeyer::new();
    assert_eq!(k.send_text(b"CQ TEST").unwrap(), b"CQ TEST".to_vec());
    assert_eq!(k.send_text(b"CQ\x1bTEST"), Err(Error::InvalidParameter));
}

#[test]
fn frontend_converts_and_validates() {
    let f = NetKeyerFrontend::new(Netkeyer::new());
    assert_eq!(f.set_speed(300), Err(Error::InvalidParameter));
    assert_eq!(f.set_speed(30).unwrap(), vec![ESC, b'2', b'3', b'0']);
    assert_eq!(f.set_weight(-200), Err(Error::InvalidParameter));
    assert_eq!(f.set_weight(10).unwrap(), vec![ESC, b'7', b'1', b'0']);
    assert_eq!(f.stop_keying(), vec![ESC, b'4']);
    assert_eq!(f.reset(), vec![ESC, b'0']);
}

#[test]
fn parse_tone_values() {
    assert_eq!(parse_tone(b"600"), 600);
    assert_eq!(parse_tone(b"  650 \n"), 650);
    assert_eq!(parse_tone(b"+700"), 700);
    assert_eq!(parse_tone(b""), DEFAULT_TONE);
    assert_eq!(parse_tone(b"abc"), DEFAULT_TONE);
    assert_eq!(parse_tone(b"12x"), DEFAULT_TONE);
    assert_eq!(parse_tone(b"70000"), DEFAULT_TONE);
    assert_eq!(parse_tone(b"999999999999"), DEFAULT_TONE);
    assert_eq!(parse_tone(b"0000600"), 600);
}

#[test]
fn tone_state_read_modify_write() {
    let mut t = ToneState::new();
    assert_eq!(t.get_tone(), DEFAULT_TONE);
    let prev = t.write_tone(800);
    assert_eq!(prev, DEFAULT_TONE);
    assert_eq!(t.get_tone(), 800);
    t.init_tone(650);
    assert_eq!(t.get_tone(), 650);
}

#[test]
fn init_sequence_order() {
    let mut k = Netkeyer::new();
    let ds = k
        .init_sequence(2, 600, 24, b"ttyS0", 10, true, Some(85))
        .unwrap();
    let expect: Vec<Vec<u8>> = vec![
        vec![ESC, b'0'],
        vec![ESC, b'7', b'2'],
        vec![ESC, b'3', b'6', b'0', b'0'],
        vec![ESC, b'g', b'7', b'0'],
        vec![ESC, b'2', b'2', b'4'],
        vec![ESC, b'7', b'2'],
        vec![ESC, b'8', b't', b't', b'y', b'S', b'0'],
        vec![ESC, b'd', b'1', b'0'],
        vec![ESC, b'f', b's'],
        vec![ESC, b'g', b'8', b'5'],
    ];
    assert_eq!(ds, expect);
}

#[test]
fn init_sequence_rejects_bad_speed() {
    let mut k = Netkeyer::new();
    assert_eq!(
        k.init_sequence(0, 600, 4, b"", 10, false, None),
        Err(Error::InvalidParameter)
    );
}

#[test]
fn c_boundary_entries() {
    let k = Netkeyer::new();
    assert_eq!(netkeyer_set_ptt(Some(&k), true), (CResult::Success, Some(vec![ESC, b'a', b'1'])));
    assert_eq!(netkeyer_set_ptt(None, true), (CResult::Failure, None));
    assert_eq!(netkeyer_abort(Some(&k)), (CResult::Success, Some(vec![ESC, b'4'])));
    assert_eq!(netkeyer_set_pin14(Some(&k), false), (CResult::Success, Some(vec![ESC, b'b', b'0'])));
    assert_eq!(netkeyer_enable_word_mode(Some(&k)), (CResult::Success, Some(vec![ESC, b'6'])));
    assert_eq!(netkeyer_tune(Some(&k), 3), (CResult::Success, Some(vec![ESC, b'c', b'3'])));
    assert_eq!(netkeyer_tune(Some(&k), 11), (CResult::Failure, None));
    assert_eq!(netkeyer_tune(Some(&k), 4_000_000), (CResult::Failure, None));
    assert_eq!(netkeyer_set_band_switch(Some(&k), 7), (CResult::Success, Some(vec![ESC, b'e', b'7'])));
    assert_eq!(netkeyer_set_band_switch(Some(&k), 0), (CResult::Failure, None));
    let mut km = Netkeyer::new();
    assert_eq!(
        netkeyer_set_sidetone_volume(Some(&mut km), 55),
        (CResult::Success, Some(vec![ESC, b'g', b'5', b'5']))
    );
    let mut km2 = Netkeyer::new();
    assert_eq!(netkeyer_set_sidetone_volume(Some(&mut km2), 101), (CResult::Failure, None));
}

#[test]
fn extract_buf_takes_written_prefix() {
    let buf = [27u8, b'2', b'5', 0, 0, 0];
    assert_eq!(rustlf::netkeyer::extract_buf(&buf, 3), &[27, b'2', b'5']);
    assert_eq!(rustlf::netkeyer::extract_buf(&buf, 0), &[] as &[u8]);
}

#[test]
fn bind_address_matches_destination() {
    assert_eq!(bind_addr_kind(false, true), BindAddrKind::V4Loopback);
    assert_eq!(bind_addr_kind(false, false), BindAddrKind::V4Unspecified);
    assert_eq!(bind_addr_kind(true, true), BindAddrKind::V6Loopback);
    assert_eq!(bind_addr_kind(true, false), BindAddrKind::V6Unspecified);
}
