#![allow(non_snake_case)]

use rustlf::cw_utils::{cw_message_length, cw_speeds, getCWdots, CwSpeedState};

#[test]
fn initial_speed() {
    let s = CwSpeedState::new();
    assert_eq!(s.GetCWSpeedIndex(), 10);
    assert_eq!(s.GetCWSpeed(), 30);
}

#[test]
fn speed_table() {
    let speeds = cw_speeds();
    assert_eq!(speeds.len(), 21);
    assert_eq!(speeds[0], 6);
    assert_eq!(speeds[20], 50);
}

#[test]
fn set_speed_rounds_up() {
    let mut s = CwSpeedState::new();
    s.SetCWSpeed(13);
    assert_eq!(s.GetCWSpeedIndex(), 2);
    assert_eq!(s.GetCWSpeed(), 14);
    s.SetCWSpeed(6);
    assert_eq!(s.GetCWSpeedIndex(), 0);
    s.SetCWSpeed(5);
    assert_eq!(s.GetCWSpeed(), 6);
    s.SetCWSpeed(99);
    assert_eq!(s.GetCWSpeedIndex(), 20);
    assert_eq!(s.GetCWSpeed(), 50);
}

#[test]
fn increase_decrease_saturate() {
    let mut s = CwSpeedState::new();
    s.SetCWSpeed(6);
    s.DecreaseCWSpeed();
    assert_eq!(s.GetCWSpeedIndex(), 0);
    s.IncreaseCWSpeed();
    assert_eq!(s.GetCWSpeedIndex(), 1);
    s.SetCWSpeed(50);
    assert_eq!(s.GetCWSpeedIndex(), 20);
    s.IncreaseCWSpeed();
    assert_eq!(s.GetCWSpeedIndex(), 20);
}

#[test]
fn dots_table() {
    assert_eq!(getCWdots(b'A'), 9);
    assert_eq!(getCWdots(b'E'), 5);
    assert_eq!(getCWdots(b'0'), 23);
    assert_eq!(getCWdots(b' '), 3);
    assert_eq!(getCWdots(b'?'), 19);
    assert_eq!(getCWdots(b'a'), 0);
}

#[test]
fn message_length_exact() {
    // C=15 Q=17 space=3 T=7 E=5 S=9 T=7
    assert_eq!(cw_message_length(b"CQ TEST", b"AB"), 63);
    // % expands to the own call: A=9 B=13
    assert_eq!(cw_message_length(b"%", b"AB"), 22);
    assert_eq!(cw_message_length(b"", b"AB"), 0);
    assert_eq!(cw_message_length(b"E%E", b"T"), 5 + 7 + 5);
}
