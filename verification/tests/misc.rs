use rustlf::countryfile::{Continent, CqZone, ItuZone};
use rustlf::cw_utils::CwSpeedState;
use rustlf::keyer_interface::{speeddown, speedup, TrxMode};
use rustlf::err_utils::{log_level_policy, CResult, LogLevel};
use rustlf::keyer_interface::{
    keyer_init_plan, CwKeyerKind, DigiKeyerKind, KeyerChoice, KeyerInitOutcome, NullKeyer,
};
use rustlf::mfj1278::Mfj1278Keyer;

#[test]
fn log_level_display_policy() {
    assert_eq!(log_level_policy(LogLevel::DEBUG), (0, false));
    assert_eq!(log_level_policy(LogLevel::INFO), (1, false));
    assert_eq!(log_level_policy(LogLevel::WARN), (3, false));
    assert_eq!(log_level_policy(LogLevel::ERR), (3, true));
}

#[test]
fn cresult_collapse() {
    let ok: Result<u32, u32> = Ok(1);
    let err: Result<u32, u32> = Err(1);
    assert_eq!(CResult::from_result(&ok), CResult::Success);
    assert_eq!(CResult::from_result(&err), CResult::Failure);
    assert_eq!(CResult::from_option(&Some(1u32)), CResult::Success);
    assert_eq!(CResult::from_option(&None::<u32>), CResult::Failure);
}

#[test]
fn zones_unwrap() {
    assert_eq!(u8::from(CqZone(14)), 14);
    assert_eq!(u8::from(ItuZone(28)), 28);
}

#[test]
fn continent_codes() {
    assert_eq!(Continent::NorthAmerica.as_code(), "NA");
    assert_eq!(Continent::Europe.as_code(), "EU");
    assert_eq!(Continent::Oceania.as_code(), "OC");
}

#[test]
fn null_keyer_accepts_everything() {
    let mut k = NullKeyer;
    assert!(k.set_speed(999).is_ok());
    assert!(k.set_weight(-100).is_ok());
    assert!(k.set_tone(0).is_ok());
    assert!(k.stop_keying().is_ok());
    assert!(k.reset().is_ok());
    assert!(k.send_message(b"CQ".to_vec()).is_ok());
}

#[test]
fn mfj_speed_dialog() {
    let k = Mfj1278Keyer;
    let msgs = k.set_speed(8);
    assert_eq!(msgs.len(), 3);
    assert_eq!(msgs[0], b"\\\r".to_vec());
    assert_eq!(msgs[1], b"MSP  8 \r".to_vec());
    assert_eq!(msgs[2], b"CONV\r\n".to_vec());
    let msgs = k.set_speed(24);
    assert_eq!(msgs[1], b"MSP 24 \r".to_vec());
}

#[test]
fn mfj_prepare_message() {
    let k = Mfj1278Keyer;
    let mut msg = b"CQ\nTEST\n".to_vec();
    k.prepare_message(&mut msg);
    assert_eq!(msg, b"CQ\rTEST\r".to_vec());
}

#[test]
fn keyer_startup_choices() {
    // the network keyer needs no rig
    assert_eq!(
        keyer_init_plan(CwKeyerKind::NetKeyer, DigiKeyerKind::NoDigiKeyer, false, false, false, false),
        KeyerInitOutcome::Chosen { choice: KeyerChoice::Net, init_controller: false, with_netkeyer: true }
    );
    // the rig keyer needs a rig that can send Morse
    assert_eq!(
        keyer_init_plan(CwKeyerKind::HamlibKeyer, DigiKeyerKind::NoDigiKeyer, false, true, true, false),
        KeyerInitOutcome::Fatal
    );
    assert_eq!(
        keyer_init_plan(CwKeyerKind::HamlibKeyer, DigiKeyerKind::NoDigiKeyer, true, false, true, false),
        KeyerInitOutcome::Fatal
    );
    assert_eq!(
        keyer_init_plan(CwKeyerKind::HamlibKeyer, DigiKeyerKind::NoDigiKeyer, true, true, true, false),
        KeyerInitOutcome::Chosen { choice: KeyerChoice::Hamlib, init_controller: false, with_netkeyer: false }
    );
    // without Morse-stop the operator decides between the null keyer
    // and giving up
    assert_eq!(
        keyer_init_plan(CwKeyerKind::HamlibKeyer, DigiKeyerKind::NoDigiKeyer, true, true, false, true),
        KeyerInitOutcome::Chosen { choice: KeyerChoice::Null, init_controller: false, with_netkeyer: false }
    );
    assert_eq!(
        keyer_init_plan(CwKeyerKind::HamlibKeyer, DigiKeyerKind::NoDigiKeyer, true, true, false, false),
        KeyerInitOutcome::Fatal
    );
    // a digital controller keyer initializes the controller
    assert_eq!(
        keyer_init_plan(CwKeyerKind::NoKeyer, DigiKeyerKind::Gmfsk, false, false, false, false),
        KeyerInitOutcome::Chosen { choice: KeyerChoice::Null, init_controller: true, with_netkeyer: false }
    );
    assert_eq!(
        keyer_init_plan(CwKeyerKind::NoKeyer, DigiKeyerKind::NoDigiKeyer, false, false, false, false),
        KeyerInitOutcome::Chosen { choice: KeyerChoice::Null, init_controller: false, with_netkeyer: false }
    );
}

#[test]
fn speedup_only_in_cw_mode() {
    let mut s = CwSpeedState::new();
    assert_eq!(speedup(&mut s, TrxMode::Ssb), None);
    assert_eq!(s.GetCWSpeed(), 30);
    assert_eq!(speedup(&mut s, TrxMode::Cw), Some(32));
    assert_eq!(speeddown(&mut s, TrxMode::Cw), Some(30));
    assert_eq!(speeddown(&mut s, TrxMode::Digi), None);
}
