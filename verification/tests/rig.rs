use rustlf::bands::default_bandcorner;
use rustlf::cw_utils::CwSpeedState;
use rustlf::fldigi::ShiftState;
use rustlf::hamlib::{
    close_plan, get_ssb_mode, parse_rigconf, result_to_retval, retval_to_result, run_rig_command,
    set_band_mode_decision, set_outfreq, Error, OpenReadings, PollReadings, Rig, RigAction,
    RigCaps, RigCommand, RigConfig, GenericError, RESETRIT, RIG_MODE_CW, RIG_MODE_LSB,
    RIG_MODE_RTTY, RIG_MODE_USB, RIG_OK, RIG_PASSBAND_NOCHANGE, SETCWMODE, SETDIGIMODE, SETSSBMODE,
};
use rustlf::keyer_interface::{DigiKeyerKind, TrxMode};

const CORNER_20M: u32 = 14_000_000;

fn fresh_rig() -> Rig {
    Rig {
        opened: true,
        can_send_morse: true,
        can_stop_morse: true,
        cw_bandwidth: None,
        use_ptt: false,
        ptt_state: false,
        use_keyer: false,
        state: None,
    }
}

fn readings(freq: i64) -> PollReadings {
    PollReadings {
        vfo: Ok(1),
        freq: Ok(freq),
        mode: Ok((RIG_MODE_CW, 500)),
        fldigi_carrier: 0,
        keyer_speed: Ok(30),
    }
}

#[test]
fn retval_round_trip() {
    assert!(retval_to_result(RIG_OK).is_ok());
    assert_eq!(retval_to_result(-9), Err(GenericError(-9)));
    assert_eq!(result_to_retval(Ok(())), RIG_OK);
    assert_eq!(result_to_retval(Err(GenericError(-9))), -9);
}

#[test]
fn ssb_mode_picks_sideband_at_20m_edge() {
    assert_eq!(get_ssb_mode(13_999_999, CORNER_20M), RIG_MODE_LSB);
    assert_eq!(get_ssb_mode(14_000_000, CORNER_20M), RIG_MODE_USB);
    assert_eq!(get_ssb_mode(21_000_000, CORNER_20M), RIG_MODE_USB);
    assert_eq!(get_ssb_mode(-5, CORNER_20M), RIG_MODE_LSB);
}

#[test]
fn band_mode_decision_cases() {
    // SSB re-applies the sideband
    assert_eq!(
        set_band_mode_decision(TrxMode::Ssb, None, 7_000_000, CORNER_20M, None),
        Some((RIG_MODE_LSB, RIG_PASSBAND_NOCHANGE))
    );
    // digital leaves an acceptable mode alone
    assert_eq!(
        set_band_mode_decision(TrxMode::Digi, Some(RIG_MODE_RTTY), 7_000_000, CORNER_20M, None),
        None
    );
    // digital forces lower sideband otherwise
    assert_eq!(
        set_band_mode_decision(TrxMode::Digi, Some(RIG_MODE_CW), 7_000_000, CORNER_20M, None),
        Some((RIG_MODE_LSB, RIG_PASSBAND_NOCHANGE))
    );
    // CW forces CW with the configured passband
    assert_eq!(
        set_band_mode_decision(TrxMode::Cw, None, 7_000_000, CORNER_20M, Some(500)),
        Some((RIG_MODE_CW, 500))
    );
}

#[test]
fn poll_rate_limited_returns_previous_snapshot() {
    let corners = default_bandcorner();
    let mut rig = fresh_rig();
    let mut speed = CwSpeedState::new();
    let mut shift = ShiftState::new();

    let (r1, acts1) = rig.poll(
        &mut speed,
        &mut shift,
        1_000,
        TrxMode::Cw,
        DigiKeyerKind::NoDigiKeyer,
        &corners,
        CORNER_20M,
        &readings(14_020_000),
    );
    assert!(r1.is_ok());
    assert!(!acts1.is_empty());
    let snapshot = rig.state.clone().expect("first poll stores a snapshot");

    // a second poll inside the rate-limit window does nothing
    let (r2, acts2) = rig.poll(
        &mut speed,
        &mut shift,
        1_100,
        TrxMode::Cw,
        DigiKeyerKind::NoDigiKeyer,
        &corners,
        CORNER_20M,
        &readings(21_020_000),
    );
    assert!(r2.is_ok());
    assert!(acts2.is_empty());
    let again = rig.state.clone().expect("snapshot kept");
    assert_eq!(again, snapshot);

    // after the window a fresh read happens
    let (r3, acts3) = rig.poll(
        &mut speed,
        &mut shift,
        1_200,
        TrxMode::Cw,
        DigiKeyerKind::NoDigiKeyer,
        &corners,
        CORNER_20M,
        &readings(21_020_000),
    );
    assert!(r3.is_ok());
    assert!(!acts3.is_empty());
    assert_eq!(rig.state.as_ref().unwrap().freq, Some(21_020_000));
}

#[test]
fn band_change_applies_mode_once() {
    let corners = default_bandcorner();
    let mut rig = fresh_rig();
    let mut speed = CwSpeedState::new();
    let mut shift = ShiftState::new();

    // first poll inside the 20 m band
    let (_, _) = rig.poll(
        &mut speed,
        &mut shift,
        1_000,
        TrxMode::Ssb,
        DigiKeyerKind::NoDigiKeyer,
        &corners,
        CORNER_20M,
        &readings(14_020_000),
    );
    assert_eq!(rig.state.as_ref().unwrap().bandidx, Some(5));

    // the frequency crosses into the 15 m band: exactly one mode write
    let (r, acts) = rig.poll(
        &mut speed,
        &mut shift,
        2_000,
        TrxMode::Ssb,
        DigiKeyerKind::NoDigiKeyer,
        &corners,
        CORNER_20M,
        &readings(21_020_000),
    );
    assert!(r.is_ok());
    let mode_writes: Vec<&RigAction> = acts
        .iter()
        .filter(|a| matches!(a, RigAction::SetMode(_, _)))
        .collect();
    assert_eq!(mode_writes.len(), 1);
    assert_eq!(
        *mode_writes[0],
        RigAction::SetMode(RIG_MODE_USB, RIG_PASSBAND_NOCHANGE)
    );
    assert!(acts.contains(&RigAction::SendBandswitch(21_020_000)));

    // staying inside the band applies no mode
    let (_, acts2) = rig.poll(
        &mut speed,
        &mut shift,
        3_000,
        TrxMode::Ssb,
        DigiKeyerKind::NoDigiKeyer,
        &corners,
        CORNER_20M,
        &readings(21_040_000),
    );
    assert!(acts2
        .iter()
        .all(|a| !matches!(a, RigAction::SetMode(_, _))));
}

#[test]
fn poll_failure_clears_snapshot() {
    let corners = default_bandcorner();
    let mut rig = fresh_rig();
    let mut speed = CwSpeedState::new();
    let mut shift = ShiftState::new();
    let bad = PollReadings {
        vfo: Ok(1),
        freq: Err(-5),
        mode: Err(-5),
        fldigi_carrier: 0,
        keyer_speed: Ok(30),
    };
    let (r, acts) = rig.poll(
        &mut speed,
        &mut shift,
        1_000,
        TrxMode::Cw,
        DigiKeyerKind::NoDigiKeyer,
        &corners,
        CORNER_20M,
        &bad,
    );
    assert_eq!(r, Err(Error::Poll));
    assert_eq!(acts, vec![RigAction::ClearFreq]);
    assert!(rig.state.is_none());
}

#[test]
fn keyer_speed_reconciled_on_poll() {
    let corners = default_bandcorner();
    let mut rig = fresh_rig();
    rig.use_keyer = true;
    let mut speed = CwSpeedState::new();
    let mut shift = ShiftState::new();
    // the rig reports 25 words per minute; the table rounds to 26
    let mut r = readings(14_020_000);
    r.keyer_speed = Ok(25);
    let (res, acts) = rig.poll(
        &mut speed,
        &mut shift,
        1_000,
        TrxMode::Cw,
        DigiKeyerKind::NoDigiKeyer,
        &corners,
        CORNER_20M,
        &r,
    );
    assert!(res.is_ok());
    assert_eq!(speed.GetCWSpeed(), 26);
    assert!(acts.contains(&RigAction::DisplayCwSpeed(26)));
}

#[test]
fn parse_rigconf_cases() {
    assert_eq!(parse_rigconf(b"").unwrap(), vec![]);
    let pairs = parse_rigconf(b"rts_state=OFF,timeout=200").unwrap();
    assert_eq!(pairs.len(), 2);
    assert_eq!(pairs[0], (b"rts_state".to_vec(), b"OFF".to_vec()));
    assert_eq!(pairs[1], (b"timeout".to_vec(), b"200".to_vec()));
    // a value may be empty, the parameter may not
    assert_eq!(parse_rigconf(b"a=").unwrap(), vec![(b"a".to_vec(), b"".to_vec())]);
    assert_eq!(parse_rigconf(b"=b"), Err(Error::InvalidRigconf));
    assert_eq!(parse_rigconf(b"novalue"), Err(Error::InvalidRigconf));
    assert_eq!(parse_rigconf(b"a=b,"), Err(Error::InvalidRigconf));
    assert_eq!(parse_rigconf(b"a=b,,c=d"), Err(Error::InvalidRigconf));
}

#[test]
fn open_plan_combines_capabilities() {
    let config = RigConfig {
        model: 1,
        portname: None,
        serial_rate: 9600,
        rigconf: vec![],
        use_keyer: true,
        cw_bandwidth: Some(500),
        want_ptt: true,
        trxmode: TrxMode::Cw,
    };
    let caps = RigCaps { has_ptt: false, can_send_morse: true, can_stop_morse: false };
    let (rig, warn) = config.open_plan(caps);
    assert!(warn);
    assert!(!rig.use_ptt);
    assert!(rig.use_keyer);
    assert_eq!(rig.cw_bandwidth, Some(500));
    let caps2 = RigCaps { has_ptt: true, can_send_morse: true, can_stop_morse: true };
    let (rig2, warn2) = config.open_plan(caps2);
    assert!(!warn2);
    assert!(rig2.use_ptt);
}

#[test]
fn outfreq_requests() {
    assert_eq!(set_outfreq(14_000_000, false, None, false), None);
    assert_eq!(
        set_outfreq(14_000_000, true, None, false),
        Some(RigCommand::SetFreq(14_000_000))
    );
    assert_eq!(set_outfreq(0, true, None, false), None);
    assert_eq!(set_outfreq(SETCWMODE, true, None, false), Some(RigCommand::SetCwMode));
    assert_eq!(
        set_outfreq(SETSSBMODE, true, None, false),
        Some(RigCommand::SetSsbMode(SETSSBMODE))
    );
    assert_eq!(
        set_outfreq(SETDIGIMODE, true, None, true),
        Some(RigCommand::SetDigiMode(RIG_MODE_USB))
    );
    assert_eq!(
        set_outfreq(SETDIGIMODE, true, None, false),
        Some(RigCommand::SetDigiMode(RIG_MODE_LSB))
    );
    assert_eq!(
        set_outfreq(SETDIGIMODE, true, Some(RIG_MODE_RTTY), false),
        Some(RigCommand::SetDigiMode(RIG_MODE_RTTY))
    );
    assert_eq!(set_outfreq(RESETRIT, true, None, false), Some(RigCommand::ResetRit));
}

#[test]
fn run_command_debounces_ptt() {
    let mut rig = fresh_rig();
    rig.use_ptt = true;
    let acts = run_rig_command(&mut rig, &RigCommand::SetPtt(true), CORNER_20M);
    assert_eq!(acts, vec![RigAction::SetPtt(true)]);
    // the cached state moves only once the write is known to succeed
    assert!(!rig.ptt_state);
    rig.note_ptt_result(true, RIG_OK);
    assert!(rig.ptt_state);
    // the same value again writes nothing
    let acts2 = run_rig_command(&mut rig, &RigCommand::SetPtt(true), CORNER_20M);
    assert!(acts2.is_empty());
    // a failed write leaves the cached state alone, so the toggle is
    // retried next time
    let acts3 = run_rig_command(&mut rig, &RigCommand::SetPtt(false), CORNER_20M);
    assert_eq!(acts3, vec![RigAction::SetPtt(false)]);
    rig.note_ptt_result(false, -9);
    assert!(rig.ptt_state);
    let acts4 = run_rig_command(&mut rig, &RigCommand::SetPtt(false), CORNER_20M);
    assert_eq!(acts4, vec![RigAction::SetPtt(false)]);
    // without PTT in use nothing is ever written
    let mut rig2 = fresh_rig();
    let acts5 = run_rig_command(&mut rig2, &RigCommand::SetPtt(true), CORNER_20M);
    assert!(acts5.is_empty());
}

#[test]
fn run_command_keyer_and_modes() {
    let mut rig = fresh_rig();
    rig.cw_bandwidth = Some(400);
    assert_eq!(
        run_rig_command(&mut rig, &RigCommand::SetCwMode, CORNER_20M),
        vec![RigAction::SetMode(RIG_MODE_CW, 400)]
    );
    assert_eq!(
        run_rig_command(&mut rig, &RigCommand::SetKeyerSpeed(28), CORNER_20M),
        vec![RigAction::SetKeyerSpeed(28)]
    );
    assert_eq!(
        run_rig_command(&mut rig, &RigCommand::StopKeyer, CORNER_20M),
        vec![RigAction::StopMorse]
    );
    rig.can_stop_morse = false;
    assert!(run_rig_command(&mut rig, &RigCommand::StopKeyer, CORNER_20M).is_empty());
    assert_eq!(
        run_rig_command(&mut rig, &RigCommand::SetFreq(14_020_000), CORNER_20M),
        vec![RigAction::SetFreq(14_020_000)]
    );
}

#[test]
fn portname_length_check() {
    let mut config = RigConfig {
        model: 1,
        portname: Some(b"/dev/ttyS0".to_vec()),
        serial_rate: 9600,
        rigconf: vec![],
        use_keyer: false,
        cw_bandwidth: None,
        want_ptt: false,
        trxmode: TrxMode::Cw,
    };
    assert!(config.portname_ok());
    config.portname = Some(vec![b'x'; 99]);
    assert!(!config.portname_ok());
    config.portname = None;
    assert!(config.portname_ok());
}

fn good_open_readings() -> OpenReadings {
    OpenReadings {
        init_ok: true,
        conf_results: vec![],
        conf_token_end: None,
        open_retval: RIG_OK,
        vfo: Ok(1),
        freq: Ok(14_020_000),
        keyer_speed: Ok(30),
        digi_mode: None,
        is_fldigi: false,
    }
}

fn open_config() -> RigConfig {
    RigConfig {
        model: 1,
        portname: None,
        serial_rate: 9600,
        rigconf: vec![],
        use_keyer: false,
        cw_bandwidth: Some(500),
        want_ptt: false,
        trxmode: TrxMode::Cw,
    }
}

#[test]
fn open_sequence_success() {
    let config = open_config();
    let caps = RigCaps { has_ptt: true, can_send_morse: true, can_stop_morse: true };
    let mut speed = CwSpeedState::new();
    let (rig, acts) = config
        .open_rig_plan(caps, &good_open_readings(), &mut speed, CORNER_20M)
        .unwrap();
    assert!(rig.opened);
    assert!(rig.can_send_morse);
    assert_eq!(rig.cw_bandwidth, Some(500));
    assert!(rig.state.is_none());
    // the initial CW mode is applied with the configured passband
    assert_eq!(acts, vec![RigAction::SetMode(RIG_MODE_CW, 500)]);
}

#[test]
fn open_sequence_errors_in_order() {
    let config = open_config();
    let caps = RigCaps { has_ptt: false, can_send_morse: true, can_stop_morse: true };
    let mut speed = CwSpeedState::new();

    let mut r = good_open_readings();
    r.init_ok = false;
    assert_eq!(
        config.open_rig_plan(caps, &r, &mut speed, CORNER_20M),
        Err(Error::InvalidModel)
    );

    let mut config2 = open_config();
    config2.rigconf = vec![(b"a".to_vec(), b"1".to_vec()), (b"b".to_vec(), b"2".to_vec())];
    let mut r = good_open_readings();
    r.conf_results = vec![Ok(()), Ok(())];
    r.conf_token_end = Some(1);
    assert_eq!(
        config2.open_rig_plan(caps, &r, &mut speed, CORNER_20M),
        Err(Error::InvalidRigconf)
    );

    // an earlier failed directive write wins over a later token failure
    let mut r = good_open_readings();
    r.conf_results = vec![Err(-7), Ok(())];
    r.conf_token_end = Some(1);
    assert_eq!(
        config2.open_rig_plan(caps, &r, &mut speed, CORNER_20M),
        Err(Error::Generic(-7))
    );

    let mut r = good_open_readings();
    r.open_retval = -2;
    assert_eq!(
        config.open_rig_plan(caps, &r, &mut speed, CORNER_20M),
        Err(Error::Open(-2))
    );

    // the warm-up tolerates only the two cannot-answer codes
    let mut r = good_open_readings();
    r.vfo = Err(-4);
    assert!(config.open_rig_plan(caps, &r, &mut speed, CORNER_20M).is_ok());
    r.vfo = Err(-11);
    assert!(config.open_rig_plan(caps, &r, &mut speed, CORNER_20M).is_ok());
    r.vfo = Err(-3);
    assert_eq!(
        config.open_rig_plan(caps, &r, &mut speed, CORNER_20M),
        Err(Error::Generic(-3))
    );

    let mut r = good_open_readings();
    r.freq = Err(-6);
    assert_eq!(
        config.open_rig_plan(caps, &r, &mut speed, CORNER_20M),
        Err(Error::Generic(-6))
    );
}

#[test]
fn open_sequence_keyer_sync() {
    let mut config = open_config();
    config.use_keyer = true;
    let caps = RigCaps { has_ptt: false, can_send_morse: true, can_stop_morse: true };
    let mut speed = CwSpeedState::new();
    // the rig reports 25 words per minute: the table rounds to 26,
    // which is written back before the initial mode
    let mut r = good_open_readings();
    r.keyer_speed = Ok(25);
    let (_, acts) = config
        .open_rig_plan(caps, &r, &mut speed, CORNER_20M)
        .unwrap();
    assert_eq!(speed.GetCWSpeed(), 26);
    assert_eq!(
        acts,
        vec![RigAction::SetKeyerSpeed(26), RigAction::SetMode(RIG_MODE_CW, 500)]
    );
    // a speed already in the table needs no write-back
    let mut speed2 = CwSpeedState::new();
    let (_, acts2) = config
        .open_rig_plan(caps, &good_open_readings(), &mut speed2, CORNER_20M)
        .unwrap();
    assert_eq!(acts2, vec![RigAction::SetMode(RIG_MODE_CW, 500)]);
    // a failed speed read fails the open
    let mut r = good_open_readings();
    r.keyer_speed = Err(-8);
    assert_eq!(
        config.open_rig_plan(caps, &r, &mut speed, CORNER_20M),
        Err(Error::Generic(-8))
    );
}

#[test]
fn close_runs_cleanup_unconditionally() {
    let mut rig = fresh_rig();
    assert!(rig.opened);
    assert_eq!(close_plan(&mut rig), vec![RigAction::Close, RigAction::Cleanup]);
    assert!(!rig.opened);
    // closing an already-closed session still cleans up
    assert_eq!(close_plan(&mut rig), vec![RigAction::Cleanup]);
}
