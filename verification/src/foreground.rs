//! The foreground thread's queue handles and the requests other
//! threads may delegate to it.
//!
//! The foreground owns the keyboard and the screen; background code
//! delegates interface work to it as plain commands.  The thread that
//! holds a worker is the foreground thread.

use crate::workqueue::Error;
use crate::workqueue::WorkItem;
use crate::workqueue::WorkSender;
use crate::workqueue::Worker;
use vstd::pervasive::unreached;
use vstd::prelude::*;

verus! {

/// Interface work another thread delegates to the foreground.
#[derive(Clone, Copy, PartialEq, Eq, Structural, Debug)]
pub enum FgCommand {
    /// Apply this sidetone to the keyer.
    SetTone(u16),
    /// The keyer is unusable: fall back to voice operation and tell
    /// the operator.
    SwitchToSsb,
    /// Redraw the displayed CW speed.
    DisplayCwSpeed(u32),
}

/// A thread's view of the foreground: a producer handle for
/// delegation, and the worker on the foreground thread itself.
pub struct Foreground {
    /// The handle for delegating work to the foreground thread.
    pub handle: Option<WorkSender<FgCommand, ()>>,
    /// The queue the foreground thread drains; held only there.
    pub worker: Option<Worker<FgCommand, ()>>,
}

/// Whether this thread is the foreground thread.
pub fn in_foreground(fg: &Foreground) -> (r: bool)
    ensures
        r == (fg.worker is Some),
{
    match &fg.worker {
        Some(_) => true,
        None => false,
    }
}

/// The delegation handle; calling this without one installed is a
/// wiring bug, so the contract rules it out.
pub fn with_foreground<'a>(fg: &'a Foreground) -> (r: &'a WorkSender<FgCommand, ()>)
    requires
        fg.handle is Some,
{
    match &fg.handle {
        Some(s) => s,
        None => unreached(),
    }
}

/// How a delegated command was disposed of.
#[derive(Clone, Copy, PartialEq, Eq, Structural, Debug)]
pub enum FgExec {
    /// The caller is the foreground thread: apply the command now.
    RunNow,
    /// The command was queued for the foreground thread.
    Scheduled,
}

/// Runs interface work on the foreground thread: immediately when
/// called from it, else by queueing the command.
pub fn exec_foreground(fg: &Foreground, cmd: FgCommand) -> (r: Result<FgExec, Error>)
    requires
        fg.worker is Some || fg.handle is Some,
    ensures
        fg.worker is Some ==> r == Ok::<FgExec, Error>(FgExec::RunNow),
        r matches Err(e) ==> e == Error::SendError,
{
    if in_foreground(fg) {
        Ok(FgExec::RunNow)
    } else {
        let sender = with_foreground(fg);
        match sender.schedule_nowait(cmd) {
            Ok(()) => Ok(FgExec::Scheduled),
            Err(e) => Err(e),
        }
    }
}

/// Sleeps on the foreground worker: services delegated commands until
/// the delay passes, and hands them back for the caller to apply.
/// Sleeping without a worker installed is a wiring bug, so the
/// contract rules it out.
pub fn fg_sleep_inner(fg: &Foreground, delay_ms: u64, max_items: usize) -> (r: (
    Vec<FgCommand>,
    bool,
))
    requires
        fg.worker is Some,
    ensures
        r.0@.len() <= max_items,
{
    let worker = match &fg.worker {
        Some(w) => w,
        None => unreached(),
    };
    let (items, disconnected) = worker.process_sleep(delay_ms, max_items);
    let mut cmds: Vec<FgCommand> = Vec::new();
    let mut i: usize = 0;
    let n = items.len();
    let mut items = items;
    let ghost total = items@.len();
    proof {
        assert(total <= max_items);
    }
    while i < n
        invariant
            cmds@.len() + items@.len() == total,
            i + items@.len() == n <= max_items,
            total <= max_items,
        decreases n - i,
    {
        let item: WorkItem<FgCommand, ()> = items.remove(0);
        let (cmd, _) = item.reply(());
        cmds.push(cmd);
        i = i + 1;
    }
    (cmds, disconnected)
}

} // verus!
