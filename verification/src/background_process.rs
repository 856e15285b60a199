//! The background thread's start/stop switch and per-cycle
//! bookkeeping.
//!
//! Two condition variables around a small flag record let the
//! foreground pause and resume the background loop; the flag
//! transitions live here, the blocking itself with the caller that
//! owns the condition variables.

use crate::cqww_simulator::CqwwSimulator;
use crate::hamlib::Rig;
use crate::keyer_interface::DigiKeyerKind;
use vstd::prelude::*;

verus! {

/// The start/stop flag record: whether the background thread is
/// waiting, whether a stop was requested, and whether it should exit.
pub struct StopFlags {
    /// The background thread has observed the request and parked.
    pub stopped: bool,
    /// The foreground asked the background thread to pause.
    pub stop_request: bool,
    /// The background thread should terminate.
    pub exit_request: bool,
}

impl StopFlags {
    /// The initial flags: a stop is requested, so the background
    /// thread waits until it is started.
    pub fn new() -> (f: StopFlags)
        ensures
            !f.stopped,
            f.stop_request,
            !f.exit_request,
    {
        StopFlags { stopped: false, stop_request: true, exit_request: false }
    }
}

/// Requests a pause.  The caller then blocks on its condition variable
/// until `stopped` holds, so that the background thread is known to be
/// quiescent.
pub fn stop_background_process(f: &mut StopFlags)
    ensures
        *final(f) == (StopFlags { stop_request: true, ..*old(f) }),
{
    f.stop_request = true;
}

/// Clears the pause request.  The caller then wakes every waiter.
pub fn start_background_process(f: &mut StopFlags)
    ensures
        *final(f) == (StopFlags { stop_request: false, ..*old(f) }),
{
    f.stop_request = false;
}

/// Asks the background thread to terminate: the pause is lifted so the
/// thread can observe the exit request.  The caller then wakes every
/// waiter.
pub fn exit_background_process(f: &mut StopFlags)
    ensures
        *final(f) == (StopFlags { stop_request: false, exit_request: true, ..*old(f) }),
{
    f.stop_request = false;
    f.exit_request = true;
}

/// Whether a pause is currently requested; cycle-level work such as
/// the keying drain and the simulator checks this.
pub fn is_background_process_stopped(f: &StopFlags) -> (r: bool)
    ensures
        r == f.stop_request,
{
    f.stop_request
}

/// The flag transition at the top of each background cycle.  With a
/// pause requested, the thread notes that it is waiting and the caller
/// blocks on its condition variable until the request clears, then
/// calls again; with none, the thread notes that it is running and
/// learns whether it should exit.
pub fn background_process_wait(f: &mut StopFlags) -> (r: Option<bool>)
    ensures
        old(f).stop_request ==> *final(f) == (StopFlags { stopped: true, ..*old(f) }) && r is None,
        !old(f).stop_request ==> *final(f) == (StopFlags { stopped: false, ..*old(f) }) && r
            == Some(old(f).exit_request),
{
    if f.stop_request {
        f.stopped = true;
        None
    } else {
        f.stopped = false;
        Some(f.exit_request)
    }
}

/// The state the background thread owns exclusively: the rig session
/// and the contest simulator.
pub struct BackgroundContext {
    /// The rig, when rig control is active.
    pub rig: Option<Rig>,
    /// The contest simulator.
    pub simulator: CqwwSimulator,
}

/// Whether this cycle queries the digital-mode companion over its
/// remote-procedure channel: only with the companion keyer active, the
/// companion enabled and a rig present, and then only every other
/// cycle.
pub fn fldigi_rpc_due(
    digikeyer: DigiKeyerKind,
    fldigi_enabled: bool,
    have_rig: bool,
    cnt: &mut bool,
) -> (r: bool)
    ensures
        ({
            let applicable = digikeyer == DigiKeyerKind::Fldigi && fldigi_enabled && have_rig;
            &&& r == (applicable && *old(cnt))
            &&& *final(cnt) == (if applicable {
                !*old(cnt)
            } else {
                *old(cnt)
            })
        }),
{
    let is_fldigi = match digikeyer {
        DigiKeyerKind::Fldigi => true,
        _ => false,
    };
    let applicable = is_fldigi && fldigi_enabled && have_rig;
    if applicable {
        let due = *cnt;
        *cnt = !*cnt;
        due
    } else {
        false
    }
}

} // verus!
