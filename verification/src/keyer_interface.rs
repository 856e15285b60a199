//! Operating modes, keyer selectors, and the trivial keyer.
//!
//! One CW keyer and one digital keyer are selected at startup and stay
//! fixed for the session; the drain dispatches on the operating mode
//! and these selectors.

use crate::cw_utils::speeds_spec;
use crate::cw_utils::CwSpeedState;
use crate::cw_utils::N_SPEEDS;
use crate::netkeyer::Error;
use vstd::prelude::*;

verus! {

/// The transceiver operating mode the application is set to.
#[derive(Clone, Copy, PartialEq, Eq, Structural, Debug)]
pub enum TrxMode {
    Ssb,
    Cw,
    Digi,
}

/// Which CW keyer the session was configured with.
#[derive(Clone, Copy, PartialEq, Eq, Structural, Debug)]
pub enum CwKeyerKind {
    NoKeyer,
    HamlibKeyer,
    NetKeyer,
    Mfj1278Keyer,
}

/// Which digital-mode keyer the session was configured with.
#[derive(Clone, Copy, PartialEq, Eq, Structural, Debug)]
pub enum DigiKeyerKind {
    NoDigiKeyer,
    Mfj1278Digi,
    Gmfsk,
    Fldigi,
}

/// The fallback keyer: accepts every frontend action as trivially
/// successful and keys nothing.
pub struct NullKeyer;

impl NullKeyer {
    /// Accepts any speed.
    pub fn set_speed(&mut self, _speed: u32) -> (r: Result<(), Error>)
        ensures
            r is Ok,
    {
        Ok(())
    }

    /// Accepts any weight.
    pub fn set_weight(&mut self, _weight: i32) -> (r: Result<(), Error>)
        ensures
            r is Ok,
    {
        Ok(())
    }

    /// Accepts any tone.
    pub fn set_tone(&mut self, _tone: u16) -> (r: Result<(), Error>)
        ensures
            r is Ok,
    {
        Ok(())
    }

    /// Nothing is keying, so stopping trivially succeeds.
    pub fn stop_keying(&mut self) -> (r: Result<(), Error>)
        ensures
            r is Ok,
    {
        Ok(())
    }

    /// Nothing to reset.
    pub fn reset(&mut self) -> (r: Result<(), Error>)
        ensures
            r is Ok,
    {
        Ok(())
    }

    /// Accepts any message and keys nothing.
    pub fn send_message(&mut self, _msg: Vec<u8>) -> (r: Result<(), Error>)
        ensures
            r is Ok,
    {
        Ok(())
    }
}

/// The keyer frontend a session ends up with.
#[derive(Clone, Copy, PartialEq, Eq, Structural, Debug)]
pub enum KeyerChoice {
    /// The network keyer daemon.
    Net,
    /// The rig's own keyer.
    Hamlib,
    /// The terminal-node controller.
    Mfj1278,
    /// No working keyer: every action trivially succeeds.
    Null,
}

/// What keyer startup decides: a frontend with its side conditions, or
/// that the session cannot start.
#[derive(Clone, Copy, PartialEq, Eq, Structural, Debug)]
pub enum KeyerInitOutcome {
    /// Use this frontend; the flags say whether the serial controller
    /// must be initialized and whether a network-keyer session is
    /// created.
    Chosen { choice: KeyerChoice, init_controller: bool, with_netkeyer: bool },
    /// Startup cannot continue: a needed capability is missing and the
    /// operator did not accept the degraded fallback.
    Fatal,
}

/// The keyer chosen at startup from the configuration, the rig's
/// capabilities, and — when the rig cannot stop Morse — the operator's
/// consent to continue without that.
pub open spec fn keyer_init_plan_spec(
    cwkeyer: CwKeyerKind,
    digikeyer: DigiKeyerKind,
    have_rig: bool,
    can_send_morse: bool,
    can_stop_morse: bool,
    continue_without_stop: bool,
) -> KeyerInitOutcome {
    if cwkeyer == CwKeyerKind::NetKeyer {
        KeyerInitOutcome::Chosen {
            choice: KeyerChoice::Net,
            init_controller: false,
            with_netkeyer: true,
        }
    } else if cwkeyer == CwKeyerKind::HamlibKeyer {
        if !have_rig {
            KeyerInitOutcome::Fatal
        } else if !can_send_morse {
            KeyerInitOutcome::Fatal
        } else if can_stop_morse {
            KeyerInitOutcome::Chosen {
                choice: KeyerChoice::Hamlib,
                init_controller: false,
                with_netkeyer: false,
            }
        } else if continue_without_stop {
            KeyerInitOutcome::Chosen {
                choice: KeyerChoice::Null,
                init_controller: false,
                with_netkeyer: false,
            }
        } else {
            KeyerInitOutcome::Fatal
        }
    } else if cwkeyer == CwKeyerKind::Mfj1278Keyer {
        KeyerInitOutcome::Chosen {
            choice: KeyerChoice::Mfj1278,
            init_controller: true,
            with_netkeyer: false,
        }
    } else if digikeyer == DigiKeyerKind::Mfj1278Digi || digikeyer == DigiKeyerKind::Gmfsk {
        KeyerInitOutcome::Chosen {
            choice: KeyerChoice::Null,
            init_controller: true,
            with_netkeyer: false,
        }
    } else {
        KeyerInitOutcome::Chosen {
            choice: KeyerChoice::Null,
            init_controller: false,
            with_netkeyer: false,
        }
    }
}

/// Chooses the session's keyer frontend at startup.
pub fn keyer_init_plan(
    cwkeyer: CwKeyerKind,
    digikeyer: DigiKeyerKind,
    have_rig: bool,
    can_send_morse: bool,
    can_stop_morse: bool,
    continue_without_stop: bool,
) -> (r: KeyerInitOutcome)
    ensures
        r == keyer_init_plan_spec(
            cwkeyer,
            digikeyer,
            have_rig,
            can_send_morse,
            can_stop_morse,
            continue_without_stop,
        ),
{
    match cwkeyer {
        CwKeyerKind::NetKeyer => KeyerInitOutcome::Chosen {
            choice: KeyerChoice::Net,
            init_controller: false,
            with_netkeyer: true,
        },
        CwKeyerKind::HamlibKeyer => {
            if !have_rig || !can_send_morse {
                KeyerInitOutcome::Fatal
            } else if can_stop_morse {
                KeyerInitOutcome::Chosen {
                    choice: KeyerChoice::Hamlib,
                    init_controller: false,
                    with_netkeyer: false,
                }
            } else if continue_without_stop {
                KeyerInitOutcome::Chosen {
                    choice: KeyerChoice::Null,
                    init_controller: false,
                    with_netkeyer: false,
                }
            } else {
                KeyerInitOutcome::Fatal
            }
        },
        CwKeyerKind::Mfj1278Keyer => KeyerInitOutcome::Chosen {
            choice: KeyerChoice::Mfj1278,
            init_controller: true,
            with_netkeyer: false,
        },
        CwKeyerKind::NoKeyer => {
            let controller = match digikeyer {
                DigiKeyerKind::Mfj1278Digi => true,
                DigiKeyerKind::Gmfsk => true,
                _ => false,
            };
            KeyerInitOutcome::Chosen {
                choice: KeyerChoice::Null,
                init_controller: controller,
                with_netkeyer: false,
            }
        },
    }
}

/// Speed increase from the user interface: acts only in CW mode,
/// steps one table entry up, and reports the new speed for the keyer.
pub fn speedup(speed: &mut CwSpeedState, trxmode: TrxMode) -> (r: Option<u32>)
    requires
        old(speed).inv(),
    ensures
        final(speed).inv(),
        trxmode != TrxMode::Cw ==> *final(speed) == *old(speed) && r is None,
        trxmode == TrxMode::Cw ==> final(speed).index_spec() == (
        if old(speed).index_spec() < N_SPEEDS - 1 {
            old(speed).index_spec() + 1
        } else {
            old(speed).index_spec()
        }) && r == Some(speeds_spec()[final(speed).index_spec()]),
{
    let is_cw = match trxmode {
        TrxMode::Cw => true,
        _ => false,
    };
    if !is_cw {
        return None;
    }
    speed.IncreaseCWSpeed();
    Some(speed.GetCWSpeed())
}

/// Speed decrease from the user interface: acts only in CW mode,
/// steps one table entry down, and reports the new speed for the
/// keyer.
pub fn speeddown(speed: &mut CwSpeedState, trxmode: TrxMode) -> (r: Option<u32>)
    requires
        old(speed).inv(),
    ensures
        final(speed).inv(),
        trxmode != TrxMode::Cw ==> *final(speed) == *old(speed) && r is None,
        trxmode == TrxMode::Cw ==> final(speed).index_spec() == (
        if old(speed).index_spec() > 0 {
            old(speed).index_spec() - 1
        } else {
            0
        }) && r == Some(speeds_spec()[final(speed).index_spec()]),
{
    let is_cw = match trxmode {
        TrxMode::Cw => true,
        _ => false,
    };
    if !is_cw {
        return None;
    }
    speed.DecreaseCWSpeed();
    Some(speed.GetCWSpeed())
}

} // verus!
