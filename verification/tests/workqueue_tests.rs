use rustlf::workqueue::{workqueue, wait_reply, Error};

#[test]
fn schedule_wait_round_trip() {
    // Submit work whose reply is the context value plus one, on a
    // queue whose worker is draining: the submitter gets 42 back
    // within one drain cycle.
    let context_value: i64 = 41;
    let (sender, worker) = workqueue::<i64, i64>(16);
    let rx = sender.schedule_raw(1).expect("queue alive");

    let (items, disconnected) = worker.drain_queued(16);
    assert!(!disconnected);
    assert_eq!(items.len(), 1);
    let mut replied = 0;
    for item in items {
        let increment = item.cmd;
        let (_, delivered) = item.reply(context_value + increment);
        assert!(delivered);
        replied += 1;
    }
    assert_eq!(replied, 1);

    assert_eq!(wait_reply(rx), Ok(42));
}

#[test]
fn schedule_nowait_carries_command() {
    let (sender, worker) = workqueue::<u32, ()>(4);
    sender.schedule_nowait(7).unwrap();
    sender.schedule_nowait(9).unwrap();
    let (items, _) = worker.drain_queued(16);
    let cmds: Vec<u32> = items.into_iter().map(|i| i.cmd).collect();
    assert_eq!(cmds, vec![7, 9]);
}

#[test]
fn drain_respects_limit() {
    let (sender, worker) = workqueue::<u32, ()>(8);
    for i in 0..5 {
        sender.schedule_nowait(i).unwrap();
    }
    let (items, _) = worker.drain_queued(3);
    assert_eq!(items.len(), 3);
    let (rest, _) = worker.drain_queued(16);
    assert_eq!(rest.len(), 2);
}

#[test]
fn send_to_dropped_worker_fails() {
    let (sender, worker) = workqueue::<u32, ()>(4);
    drop(worker);
    assert_eq!(sender.schedule_nowait(1), Err(Error::SendError));
    assert!(matches!(sender.schedule_wait(2), Err(Error::SendError)));
}

#[test]
fn dropped_item_reports_work_dropped() {
    let (sender, worker) = workqueue::<u32, u32>(4);
    let rx = sender.schedule_raw(5).expect("queue alive");
    let (items, _) = worker.drain_queued(4);
    drop(items);  // the worker discards the item without replying
    assert_eq!(wait_reply(rx), Err(Error::WorkDropped));
}

#[test]
fn process_sleep_times_out_empty() {
    let (_sender, worker) = workqueue::<u32, ()>(4);
    let (items, disconnected) = worker.process_sleep(10, 16);
    assert!(items.is_empty());
    assert!(!disconnected);
}

#[test]
fn cloned_sender_reaches_same_worker() {
    let (sender, worker) = workqueue::<u32, ()>(4);
    let sender2 = sender.clone();
    sender2.schedule_nowait(3).unwrap();
    let (items, _) = worker.drain_queued(4);
    assert_eq!(items.len(), 1);
    assert_eq!(items[0].cmd, 3);
}
