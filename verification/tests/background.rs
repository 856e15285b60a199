use rustlf::background_process::{
    background_process_wait, exit_background_process, fldigi_rpc_due, is_background_process_stopped,
    start_background_process, stop_background_process, StopFlags,
};
use rustlf::foreground::{exec_foreground, fg_sleep_inner, in_foreground, FgCommand, FgExec, Foreground};
use rustlf::keyer_interface::DigiKeyerKind;
use rustlf::workqueue::workqueue;

#[test]
fn gate_starts_stopped() {
    let f = StopFlags::new();
    assert!(is_background_process_stopped(&f));
    assert!(!f.stopped);
    assert!(!f.exit_request);
}

#[test]
fn gate_park_and_resume() {
    let mut f = StopFlags::new();
    // the background thread observes the initial stop request and parks
    assert_eq!(background_process_wait(&mut f), None);
    assert!(f.stopped);
    // the foreground starts it; the next wait resumes without exit
    start_background_process(&mut f);
    assert!(!is_background_process_stopped(&f));
    assert_eq!(background_process_wait(&mut f), Some(false));
    assert!(!f.stopped);
    // a stop request parks it again
    stop_background_process(&mut f);
    assert_eq!(background_process_wait(&mut f), None);
    assert!(f.stopped);
    // an exit request lifts the pause and reports the exit
    exit_background_process(&mut f);
    assert_eq!(background_process_wait(&mut f), Some(true));
}

#[test]
fn fldigi_rpc_every_other_cycle() {
    let mut cnt = false;
    // not applicable: never due, the counter does not move
    assert!(!fldigi_rpc_due(DigiKeyerKind::Gmfsk, true, true, &mut cnt));
    assert!(!cnt);
    assert!(!fldigi_rpc_due(DigiKeyerKind::Fldigi, false, true, &mut cnt));
    assert!(!fldigi_rpc_due(DigiKeyerKind::Fldigi, true, false, &mut cnt));
    // applicable: due every other cycle
    assert!(!fldigi_rpc_due(DigiKeyerKind::Fldigi, true, true, &mut cnt));
    assert!(fldigi_rpc_due(DigiKeyerKind::Fldigi, true, true, &mut cnt));
    assert!(!fldigi_rpc_due(DigiKeyerKind::Fldigi, true, true, &mut cnt));
    assert!(fldigi_rpc_due(DigiKeyerKind::Fldigi, true, true, &mut cnt));
}

#[test]
fn foreground_run_now_when_owning_worker() {
    let (_sender, worker) = workqueue::<FgCommand, ()>(8);
    let fg = Foreground { handle: None, worker: Some(worker) };
    assert!(in_foreground(&fg));
    assert_eq!(exec_foreground(&fg, FgCommand::SwitchToSsb), Ok(FgExec::RunNow));
}

#[test]
fn foreground_schedules_from_other_thread() {
    let (sender, worker) = workqueue::<FgCommand, ()>(8);
    let producer_side = Foreground { handle: Some(sender), worker: None };
    assert!(!in_foreground(&producer_side));
    assert_eq!(
        exec_foreground(&producer_side, FgCommand::SetTone(700)),
        Ok(FgExec::Scheduled)
    );
    assert_eq!(
        exec_foreground(&producer_side, FgCommand::DisplayCwSpeed(26)),
        Ok(FgExec::Scheduled)
    );

    let consumer_side = Foreground { handle: None, worker: Some(worker) };
    let (cmds, disconnected) = fg_sleep_inner(&consumer_side, 10, 16);
    assert!(!disconnected);
    assert_eq!(cmds, vec![FgCommand::SetTone(700), FgCommand::DisplayCwSpeed(26)]);
}
