//! Radio-control and Morse-keying core of a contest logging application.
//!
//! The crate models the band/frequency state machine, the keying byte
//! queue, the network-keyer datagram protocol, the CW speed table, and
//! the background work-queue plumbing, with contracts proved by Verus.

pub mod background_process;
pub mod bands;
pub mod countryfile;
pub mod cqww_simulator;
pub mod cw_utils;
pub mod err_utils;
pub mod fldigi;
pub mod foreground;
pub mod hamlib;
pub mod keyer_interface;
pub mod lookup;
pub mod mfj1278;
pub mod netkeyer;
pub mod qtcutil;
pub mod workqueue;
pub mod write_keyer;
