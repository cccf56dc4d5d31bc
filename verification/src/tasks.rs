//! Cooperative shutdown of long-running tasks: the per-task shutdown listener and the
//! service that holds the tasks and the shutdown channels.
use vstd::prelude::*;

use tokio::sync::{broadcast, mpsc};

verus! {

#[verifier::external_type_specification]
#[verifier::external_body]
#[verifier::reject_recursive_types(T)]
pub struct ExBroadcastSender<T>(broadcast::Sender<T>);

#[verifier::external_type_specification]
#[verifier::external_body]
#[verifier::reject_recursive_types(T)]
pub struct ExBroadcastReceiver<T>(broadcast::Receiver<T>);

#[verifier::external_type_specification]
#[verifier::external_body]
#[verifier::reject_recursive_types(T)]
pub struct ExMpscSender<T>(mpsc::Sender<T>);

#[verifier::external_type_specification]
#[verifier::external_body]
#[verifier::reject_recursive_types(T)]
pub struct ExMpscReceiver<T>(mpsc::Receiver<T>);

/// `tokio::sync::broadcast::channel(1)`: a shutdown broadcast holding one message.
#[verifier::external_body]
fn shutdown_broadcast() -> (res: (broadcast::Sender<()>, broadcast::Receiver<()>)) {
    broadcast::channel(1)
}

/// `tokio::sync::mpsc::channel(1)`: the completion channel.
#[verifier::external_body]
fn completion_channel() -> (res: (mpsc::Sender<()>, mpsc::Receiver<()>)) {
    mpsc::channel(1)
}

/// `broadcast::Sender::subscribe`: a new listener of the shutdown broadcast.
#[verifier::external_body]
fn subscribe(sender: &broadcast::Sender<()>) -> (res: broadcast::Receiver<()>) {
    sender.subscribe()
}

/// `mpsc::Sender::clone`: another handle on the completion channel. The clone holds
/// the same shared channel as `sender` (the source copies its channel pointer and
/// counts one more sender), so as a value it is `sender` itself.
#[verifier::external_body]
fn clone_sender(sender: &mpsc::Sender<()>) -> (res: mpsc::Sender<()>)
    ensures
        res == *sender,
{
    sender.clone()
}

/// A task's view of the shutdown signal: once the signal has been received the task
/// stays shut down.
#[derive(Debug)]
pub struct Shutdown {
    shutdown: bool,
    /// Where the signal arrives.
    pub notify: broadcast::Receiver<()>,
}

impl Shutdown {
    /// Whether the signal has been received.
    pub closed spec fn received(&self) -> bool {
        self.shutdown
    }

    /// Where the signal arrives.
    pub closed spec fn listener(&self) -> broadcast::Receiver<()> {
        self.notify
    }

    pub fn new(notify: broadcast::Receiver<()>) -> (res: Shutdown)
        ensures
            !res.received(),
            res.listener() == notify,
    {
        Shutdown { shutdown: false, notify }
    }

    pub fn is_shutdown(&self) -> (res: bool)
        ensures
            res == self.received(),
    {
        self.shutdown
    }

    /// Whether waiting on `notify` is needed: not once the signal has been received.
    pub fn needs_wait(&self) -> (res: bool)
        ensures
            res == !self.received(),
    {
        !self.shutdown
    }

    /// Records that the signal arrived (or that the sender side is gone).
    pub fn mark_received(&mut self)
        ensures
            final(self).received(),
            final(self).listener() == old(self).listener(),
    {
        self.shutdown = true;
    }
}

/// What `calls` successive waits for the signal leave behind, from whether it had been
/// received: each wait first asks `needs_wait` and waits on the listener only when the
/// signal has not been received, then records it with `mark_received`. The result is
/// whether the signal is received afterwards and how many times the listener was waited on.
pub open spec fn after_recv_calls(received: bool, calls: nat) -> (bool, nat)
    decreases calls,
{
    if calls == 0 {
        (received, 0)
    } else {
        let (after, waits) = after_recv_calls(true, (calls - 1) as nat);
        (after, waits + if received { 0nat } else { 1nat })
    }
}

/// Waiting for the shutdown signal is idempotent: however often it is waited for, the
/// listener is waited on at most once, and not at all when the signal was already
/// received; after any wait the signal stays received.
pub proof fn law_recv_idempotent(received: bool, calls: nat)
    ensures
        after_recv_calls(received, calls).1 <= 1,
        received ==> after_recv_calls(received, calls).1 == 0,
        calls > 0 || received ==> after_recv_calls(received, calls).0,
    decreases calls,
{
    if calls > 0 {
        law_recv_idempotent(true, (calls - 1) as nat);
    }
}

/// The handle a task drops when it has finished shutting down.
pub type ShutdownComplete = mpsc::Sender<()>;

/// Long-running tasks together with the broadcast that tells them to stop and the
/// channel whose closing tells that all of them have stopped.
pub struct TaskService<F> {
    tokio_tasks: Vec<F>,
    notify_shutdown: broadcast::Sender<()>,
    shutdown_complete_tx: mpsc::Sender<()>,
    shutdown_complete_rx: Option<mpsc::Receiver<()>>,
}

impl<F> TaskService<F> {
    /// The tasks added so far, in order.
    pub closed spec fn tasks(&self) -> Seq<F> {
        self.tokio_tasks@
    }

    /// The sender whose clones the tasks drop when they have finished.
    pub closed spec fn completion_sender(&self) -> mpsc::Sender<()> {
        self.shutdown_complete_tx
    }

    /// Whether the completion receiver is still held.
    pub closed spec fn holds_completion(&self) -> bool {
        self.shutdown_complete_rx is Some
    }

    pub fn new() -> (res: Self)
        ensures
            res.tasks() == Seq::<F>::empty(),
            res.holds_completion(),
    {
        let (notify_shutdown, _) = shutdown_broadcast();
        let (shutdown_complete_tx, shutdown_complete_rx) = completion_channel();
        TaskService {
            tokio_tasks: Vec::new(),
            notify_shutdown,
            shutdown_complete_tx,
            shutdown_complete_rx: Some(shutdown_complete_rx),
        }
    }

    /// Adds a task to be spawned when the service runs. The task is to listen on its
    /// `Shutdown` and drop its `ShutdownComplete` when done.
    pub fn add_task(&mut self, func: F)
        ensures
            final(self).tasks() == old(self).tasks().push(func),
            final(self).holds_completion() == old(self).holds_completion(),
            final(self).completion_sender() == old(self).completion_sender(),
    {
        self.tokio_tasks.push(func);
    }

    /// A fresh shutdown listener and completion handle for one more task.
    pub fn signals(&self) -> (res: (Shutdown, ShutdownComplete))
        ensures
            !res.0.received(),
            res.1 == self.completion_sender(),
    {
        (Shutdown::new(subscribe(&self.notify_shutdown)), clone_sender(&self.shutdown_complete_tx))
    }

    /// Hands out the completion receiver; it can be taken once.
    pub fn take_completion_receiver(&mut self) -> (res: mpsc::Receiver<()>)
        requires
            old(self).holds_completion(),
        ensures
            !final(self).holds_completion(),
            final(self).tasks() == old(self).tasks(),
            final(self).completion_sender() == old(self).completion_sender(),
    {
        let mut rx = None;
        std::mem::swap(&mut rx, &mut self.shutdown_complete_rx);
        match rx {
            Some(r) => r,
            None => vstd::pervasive::unreached(),
        }
    }

    /// Whether the completion receiver can still be taken.
    pub fn has_completion_receiver(&self) -> (res: bool)
        ensures
            res == self.holds_completion(),
    {
        self.shutdown_complete_rx.is_some()
    }

    /// The parts the service runs from: the tasks, the shutdown broadcast, the
    /// completion sender and the completion receiver if it was not taken.
    pub fn into_parts(self) -> (res: (
        Vec<F>,
        broadcast::Sender<()>,
        mpsc::Sender<()>,
        Option<mpsc::Receiver<()>>,
    ))
        ensures
            res.0@ == self.tasks(),
            res.3 is Some == self.holds_completion(),
            res.2 == self.completion_sender(),
    {
        (self.tokio_tasks, self.notify_shutdown, self.shutdown_complete_tx, self.shutdown_complete_rx)
    }
}

/// The task list after `added` tasks are added one by one to a service holding
/// `start`, as `add_task` says of each.
pub open spec fn tasks_after_adding<F>(start: Seq<F>, added: Seq<F>) -> Seq<F>
    decreases added.len(),
{
    if added.len() == 0 {
        start
    } else {
        tasks_after_adding(start.push(added[0]), added.drop_first())
    }
}

/// Every added task is kept exactly once, in the order it was added: the tasks a new
/// service hands to its runner (`into_parts`) are exactly those added to it.
pub proof fn law_added_tasks_kept_once<F>(start: Seq<F>, added: Seq<F>)
    ensures
        tasks_after_adding(start, added) == start + added,
        tasks_after_adding(Seq::<F>::empty(), added) == added,
    decreases added.len(),
{
    if added.len() > 0 {
        law_added_tasks_kept_once(start.push(added[0]), added.drop_first());
        assert(start.push(added[0]) + added.drop_first() =~= start + added);
        law_added_tasks_kept_once(Seq::<F>::empty().push(added[0]), added.drop_first());
        assert(Seq::<F>::empty().push(added[0]) + added.drop_first() =~= added);
    } else {
        assert(start + added =~= start);
        assert(Seq::<F>::empty() + added =~= added);
    }
}

impl<F> Default for TaskService<F> {
    fn default() -> (res: Self)
        ensures
            res.tasks() == Seq::<F>::empty(),
            res.holds_completion(),
    {
        TaskService::new()
    }
}

} // verus!
