//! The task queue between the foreground and the thread that owns the
//! rig.
//!
//! A sender submits commands, fire-and-forget or with a single-use
//! reply channel; the worker drains them and answers.  The channels
//! come from outside crates and are shared across threads, so their
//! contracts promise nothing about what arrives: every function that
//! handles a received command is verified for every value of it.

use vstd::prelude::*;

verus! {

/// Failures of the task queue: the consumer is gone, or it dropped a
/// submitted item before replying.
#[derive(Clone, Copy, PartialEq, Eq, Structural, Debug)]
pub enum Error {
    SendError,
    WorkDropped,
}

/// Why a timed receive returned without an item.
#[derive(Clone, Copy, PartialEq, Eq, Structural, Debug)]
pub enum RecvTimeout {
    Timeout,
    Disconnected,
}

/// Why a non-blocking receive returned without an item.
#[derive(Clone, Copy, PartialEq, Eq, Structural, Debug)]
pub enum TryRecv {
    Empty,
    Disconnected,
}

#[verifier::external_type_specification]
#[verifier::external_body]
#[verifier::reject_recursive_types(T)]
pub struct ExFlumeSender<T>(flume::Sender<T>);

#[verifier::external_type_specification]
#[verifier::external_body]
#[verifier::reject_recursive_types(T)]
pub struct ExFlumeReceiver<T>(flume::Receiver<T>);

#[verifier::external_type_specification]
#[verifier::external_body]
#[verifier::reject_recursive_types(T)]
pub struct ExOneshotSender<T>(oneshot::Sender<T>);

#[verifier::external_type_specification]
#[verifier::external_body]
#[verifier::reject_recursive_types(T)]
pub struct ExOneshotReceiver<T>(oneshot::Receiver<T>);

#[verifier::external_type_specification]
#[verifier::external_body]
pub struct ExInstant(std::time::Instant);

/// Relies on std::time::Instant::now: an opaque monotonic timestamp.
#[verifier::external_body]
fn instant_now() -> std::time::Instant {
    std::time::Instant::now()
}

/// Relies on Instant::checked_add and Duration::from_millis: the
/// deadline `ms` milliseconds from `t`, or `t` itself on overflow.
#[verifier::external_body]
fn instant_plus_ms(t: &std::time::Instant, ms: u64) -> std::time::Instant {
    match t.checked_add(std::time::Duration::from_millis(ms)) {
        Some(d) => d,
        None => *t,
    }
}

/// Relies on flume::bounded: a fresh channel of the given capacity.
#[verifier::external_body]
fn flume_bounded<T>(cap: usize) -> (flume::Sender<T>, flume::Receiver<T>) {
    flume::bounded(cap)
}

/// Relies on flume::Sender::clone: another handle to the same
/// channel.
#[verifier::external_body]
fn flume_sender_clone<T>(s: &flume::Sender<T>) -> flume::Sender<T> {
    s.clone()
}

/// Relies on flume::Sender::send: the item is queued, or handed back
/// unchanged when every receiver is gone.
#[verifier::external_body]
fn flume_send<T>(s: &flume::Sender<T>, t: T) -> (r: Result<(), T>)
    ensures
        r matches Err(back) ==> back == t,
{
    match s.send(t) {
        Ok(()) => Ok(()),
        Err(flume::SendError(t)) => Err(t),
    }
}

/// Relies on flume::Receiver::recv_deadline: an item, or the reason
/// none arrived by the deadline.
#[verifier::external_body]
fn flume_recv_deadline<T>(r: &flume::Receiver<T>, deadline: std::time::Instant) -> Result<
    T,
    RecvTimeout,
> {
    match r.recv_deadline(deadline) {
        Ok(t) => Ok(t),
        Err(flume::RecvTimeoutError::Timeout) => Err(RecvTimeout::Timeout),
        Err(flume::RecvTimeoutError::Disconnected) => Err(RecvTimeout::Disconnected),
    }
}

/// Relies on flume::Receiver::try_recv: an item already queued, or the
/// reason none was.
#[verifier::external_body]
fn flume_try_recv<T>(r: &flume::Receiver<T>) -> Result<T, TryRecv> {
    match r.try_recv() {
        Ok(t) => Ok(t),
        Err(flume::TryRecvError::Empty) => Err(TryRecv::Empty),
        Err(flume::TryRecvError::Disconnected) => Err(TryRecv::Disconnected),
    }
}

/// Relies on oneshot::channel: a fresh single-use reply channel.
#[verifier::external_body]
fn oneshot_channel<T>() -> (oneshot::Sender<T>, oneshot::Receiver<T>) {
    oneshot::channel()
}

/// Relies on oneshot::Sender::send: the reply is delivered, or handed
/// back unchanged when the receiver is gone.
#[verifier::external_body]
fn oneshot_send<T>(s: oneshot::Sender<T>, t: T) -> (r: Result<(), T>)
    ensures
        r matches Err(back) ==> back == t,
{
    match s.send(t) {
        Ok(()) => Ok(()),
        Err(e) => Err(e.into_inner()),
    }
}

/// Relies on oneshot::Receiver::recv: blocks until the reply, or
/// reports that the sender was dropped without replying.
#[verifier::external_body]
fn oneshot_recv<T>(r: oneshot::Receiver<T>) -> Result<T, ()> {
    match r.recv() {
        Ok(t) => Ok(t),
        Err(_) => Err(()),
    }
}

/// One submitted unit of work: a command, and the reply channel when
/// the submitter waits for an answer.
#[verifier::reject_recursive_types(R)]
pub struct WorkItem<T, R> {
    /// The submitted command.
    pub cmd: T,
    /// The single-use reply channel, when the submitter waits.
    pub reply: Option<oneshot::Sender<R>>,
}

impl<T, R> WorkItem<T, R> {
    /// Whether the submitter is waiting for a reply.
    pub open spec fn wants_reply(&self) -> bool {
        self.reply is Some
    }

    /// Answers the submitter, if one is waiting, and hands the command
    /// back.  The reply channel is single-use and consumed here; the
    /// flag reports whether the submitter was still listening.
    pub fn reply(self, r: R) -> (res: (T, bool))
        ensures
            res.0 == self.cmd,
    {
        let WorkItem { cmd, reply } = self;
        match reply {
            None => (cmd, true),
            Some(tx) => match oneshot_send(tx, r) {
                Ok(()) => (cmd, true),
                Err(_) => (cmd, false),
            },
        }
    }
}

/// The producer half of the task queue.  Cloneable: many producers,
/// one consumer.
#[verifier::reject_recursive_types(T)]
#[verifier::reject_recursive_types(R)]
pub struct WorkSender<T, R> {
    handle: flume::Sender<WorkItem<T, R>>,
}

/// The consumer half of the task queue, owned by the one thread that
/// processes it.
#[verifier::reject_recursive_types(T)]
#[verifier::reject_recursive_types(R)]
pub struct Worker<T, R> {
    handle: flume::Receiver<WorkItem<T, R>>,
}

/// A fresh task queue of the given capacity.
pub fn workqueue<T, R>(size: usize) -> (WorkSender<T, R>, Worker<T, R>) {
    let (tx, rx) = flume_bounded(size);
    (WorkSender { handle: tx }, Worker { handle: rx })
}

impl<T, R> WorkSender<T, R> {
    /// Another producer handle on the same queue.
    pub fn clone(&self) -> WorkSender<T, R> {
        WorkSender { handle: flume_sender_clone(&self.handle) }
    }

    /// Fire-and-forget submission; fails only when the consumer is
    /// gone.
    pub fn schedule_nowait(&self, cmd: T) -> (r: Result<(), Error>)
        ensures
            r matches Err(e) ==> e == Error::SendError,
    {
        match flume_send(&self.handle, WorkItem { cmd, reply: None }) {
            Ok(()) => Ok(()),
            Err(_) => Err(Error::SendError),
        }
    }

    /// Submission with a reply channel; the caller may wait on the
    /// returned receiver.
    pub fn schedule_raw(&self, cmd: T) -> (r: Result<oneshot::Receiver<R>, Error>)
        ensures
            r matches Err(e) ==> e == Error::SendError,
    {
        let (tx, rx) = oneshot_channel();
        match flume_send(&self.handle, WorkItem { cmd, reply: Some(tx) }) {
            Ok(()) => Ok(rx),
            Err(_) => Err(Error::SendError),
        }
    }

    /// Submits and blocks until the consumer has executed the command
    /// and sent its result back.
    pub fn schedule_wait(&self, cmd: T) -> (r: Result<R, Error>)
        ensures
            r matches Err(e) ==> e == Error::SendError || e == Error::WorkDropped,
    {
        let rx = match self.schedule_raw(cmd) {
            Ok(rx) => rx,
            Err(e) => {
                return Err(e);
            },
        };
        match oneshot_recv(rx) {
            Ok(v) => Ok(v),
            Err(_) => Err(Error::WorkDropped),
        }
    }
}

/// Waits on a reply receiver handed out by `schedule_raw`.
pub fn wait_reply<R>(rx: oneshot::Receiver<R>) -> (r: Result<R, Error>)
    ensures
        r matches Err(e) ==> e == Error::WorkDropped,
{
    match oneshot_recv(rx) {
        Ok(v) => Ok(v),
        Err(_) => Err(Error::WorkDropped),
    }
}

impl<T, R> Worker<T, R> {
    /// Takes every item already queued, up to `max_items`, without
    /// blocking.  Reports a disconnect when every producer is gone.
    pub fn drain_queued(&self, max_items: usize) -> (r: (Vec<WorkItem<T, R>>, bool))
        ensures
            r.0@.len() <= max_items,
    {
        let mut out: Vec<WorkItem<T, R>> = Vec::new();
        let mut disconnected = false;
        let mut k: usize = 0;
        while k < max_items
            invariant
                out@.len() <= k <= max_items,
            decreases max_items - k,
        {
            match flume_try_recv(&self.handle) {
                Ok(item) => {
                    out.push(item);
                },
                Err(TryRecv::Empty) => {
                    return (out, false);
                },
                Err(TryRecv::Disconnected) => {
                    return (out, true);
                },
            }
            k = k + 1;
        }
        (out, disconnected)
    }

    /// Collects items as they arrive until the deadline passes, up to
    /// `max_items`.  Reports a disconnect when every producer is gone.
    pub fn process_until(&self, deadline: std::time::Instant, max_items: usize) -> (r: (
        Vec<WorkItem<T, R>>,
        bool,
    ))
        ensures
            r.0@.len() <= max_items,
    {
        let mut out: Vec<WorkItem<T, R>> = Vec::new();
        let mut k: usize = 0;
        while k < max_items
            invariant
                out@.len() <= k <= max_items,
            decreases max_items - k,
        {
            match flume_recv_deadline(&self.handle, deadline) {
                Ok(item) => {
                    out.push(item);
                },
                Err(RecvTimeout::Timeout) => {
                    return (out, false);
                },
                Err(RecvTimeout::Disconnected) => {
                    return (out, true);
                },
            }
            k = k + 1;
        }
        (out, false)
    }

    /// Collects items for the given time from now, up to `max_items`.
    pub fn process_sleep(&self, sleep_ms: u64, max_items: usize) -> (r: (
        Vec<WorkItem<T, R>>,
        bool,
    ))
        ensures
            r.0@.len() <= max_items,
    {
        let now = instant_now();
        let deadline = instant_plus_ms(&now, sleep_ms);
        self.process_until(deadline, max_items)
    }
}

} // verus!
