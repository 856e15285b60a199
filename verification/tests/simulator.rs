use rustlf::cqww_simulator::{cw_tones, CqwwSimulator, SimAction};
use rustlf::keyer_interface::TrxMode;
use rustlf::netkeyer::ToneState;

fn call_list() -> Vec<Vec<u8>> {
    vec![b"W1AW".to_vec(), b"DL1AAA".to_vec(), b"JA1XYZ".to_vec()]
}

#[test]
fn tone_table() {
    let tones = cw_tones();
    assert_eq!(tones.len(), 10);
    assert_eq!(tones[0], 625);
    assert_eq!(tones[9], 640);
}

#[test]
fn send_call_structure() {
    let mut sim = CqwwSimulator::new();
    let mut tone = ToneState::new();
    let calls = call_list();
    sim.enable(&calls);
    let before = tone.get_tone();
    let out = sim.send_call(&mut tone, &calls);
    assert_eq!(out.len(), 4);
    let tones = cw_tones();
    match &out[0] {
        SimAction::Tone(t) => assert!(tones.contains(t)),
        other => panic!("unexpected: {:?}", other),
    }
    assert_eq!(out[1], SimAction::Message(b"  ".to_vec()));
    match &out[2] {
        SimAction::Message(m) => assert!(calls.contains(m)),
        other => panic!("unexpected: {:?}", other),
    }
    // the operator's tone is restored
    assert_eq!(out[3], SimAction::Tone(before));
    assert_eq!(tone.get_tone(), before);
}

#[test]
fn send_final_zone_two_digits() {
    let mut sim = CqwwSimulator::new();
    let mut tone = ToneState::new();
    let calls = call_list();
    sim.enable(&calls);
    let out = sim.send_final(&mut tone, 14);
    match &out[2] {
        SimAction::Message(m) => assert_eq!(m, &b"TU 5NN 14".to_vec()),
        other => panic!("unexpected: {:?}", other),
    }
}

#[test]
fn send_final_zone_leading_zero() {
    let mut sim = CqwwSimulator::new();
    let mut tone = ToneState::new();
    let calls = call_list();
    sim.enable(&calls);
    let out = sim.send_final(&mut tone, 5);
    match &out[2] {
        SimAction::Message(m) => {
            assert!(m == &b"TU 5NN 05".to_vec() || m == &b"TU 5NN T5".to_vec());
        },
        other => panic!("unexpected: {:?}", other),
    }
}

#[test]
fn send_repeat_slows_down() {
    let mut sim = CqwwSimulator::new();
    let mut tone = ToneState::new();
    let calls = vec![b"W1AW".to_vec()];
    sim.enable(&calls);
    // first repeat: no slowing yet
    let out = sim.send_repeat(&mut tone);
    match &out[2] {
        SimAction::Message(m) => assert_eq!(m, &b"W1AW".to_vec()),
        other => panic!("unexpected: {:?}", other),
    }
    // repeats six and later are slowed by the cap of three
    for _ in 0..5 {
        sim.send_repeat(&mut tone);
    }
    let out = sim.send_repeat(&mut tone);
    match &out[2] {
        SimAction::Message(m) => assert_eq!(m, &b"---W1AW+++".to_vec()),
        other => panic!("unexpected: {:?}", other),
    }
}

#[test]
fn precondition_gates() {
    let mut sim = CqwwSimulator::new();
    assert!(!sim.precondition(false, TrxMode::Cw));
    let calls = call_list();
    sim.enable(&calls);
    assert!(sim.precondition(false, TrxMode::Cw));
    assert!(!sim.precondition(true, TrxMode::Cw));
    assert!(!sim.precondition(false, TrxMode::Ssb));
    sim.disable();
    assert!(!sim.precondition(false, TrxMode::Cw));
}
