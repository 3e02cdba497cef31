//! Sessions: the caller-facing handle to one connection, the lifecycle
//! events, and the per-iteration decision rules of a connection worker.

use vstd::prelude::*;

use crate::channel;
use crate::channel::{QueueReceiver, QueueSender, SendOutcome};
use crate::dispatcher::{ParserDispatcher, ReadOutcome};

verus! {

/// Capacity of one session's payload and control queues.
pub const WORKER_QUEUE_CAPACITY: usize = 32;

/// A control command for one session's worker.
#[derive(Clone, Copy, PartialEq, Eq, Structural, Debug)]
pub enum SessionCommand {
    /// Shut the connection down in an orderly way and stop the worker.
    Close,
}

/// The caller-facing handle to one active connection. Dropping it does not
/// stop the worker: the caller must still observe a `SessionEnd` event to
/// know the worker is gone.
pub struct Session<T: ParserDispatcher> {
    /// Session id.
    pub id: usize,
    /// Display name.
    pub name: String,
    /// For sending session commands to the worker.
    pub tx: QueueSender<SessionCommand>,
    /// For sending raw payloads to the server.
    pub sender: QueueSender<Vec<u8>>,
    /// For receiving decoded messages from the server.
    pub data_rx: QueueReceiver<T::Message>,
}

/// A lifecycle event published by the manager or by a worker. For one id,
/// `SessionStart` precedes any `SessionEnd`, and `ConnectionFailed` excludes
/// both.
pub enum SessionEvent<T: ParserDispatcher> {
    /// The worker of this session stopped.
    SessionEnd(usize),
    /// The connect for this id failed; no session was started.
    ConnectionFailed(usize),
    /// A connection succeeded and this is its fresh handle.
    SessionStart(Session<T>),
}

impl<T: ParserDispatcher> Session<T> {
    /// Asks the worker to close the connection. Never blocks and never
    /// panics: when the worker already stopped, its queue is closed and the
    /// returned outcome reports that gracefully.
    pub fn close(&self) -> SendOutcome {
        channel::try_send_to(&self.tx, SessionCommand::Close)
    }
}

/// Builds the queue plumbing for one freshly connected session: the
/// caller-facing handle, plus the worker-side receiving ends of the payload
/// queue and the control queue, each paired with the handle's matching
/// sender and bounded at the fixed worker capacity.
pub fn open_session<T: ParserDispatcher>(
    id: usize,
    name: String,
    data_rx: QueueReceiver<T::Message>,
) -> (r: (Session<T>, QueueReceiver<Vec<u8>>, QueueReceiver<SessionCommand>))
    ensures
        r.0.id == id,
        r.0.name == name,
        r.0.data_rx == data_rx,
        r.0.sender.pair() == r.1.pair(),
        r.0.tx.pair() == r.2.pair(),
        r.0.sender.capacity() == WORKER_QUEUE_CAPACITY as nat,
        r.0.tx.capacity() == WORKER_QUEUE_CAPACITY as nat,
        r.1.capacity() == WORKER_QUEUE_CAPACITY as nat,
        r.2.capacity() == WORKER_QUEUE_CAPACITY as nat,
{
    let (tx, cmd_rx) = channel::new_queue(WORKER_QUEUE_CAPACITY);
    let (sender, sender_rx) = channel::new_queue(WORKER_QUEUE_CAPACITY);
    (Session { id, name, tx, sender, data_rx }, sender_rx, cmd_rx)
}

/// What a connection worker saw on one loop iteration: the first-ready of
/// its three input sources. A `None` payload or command means that queue is
/// closed.
pub enum WorkerEvent {
    /// The outbound payload queue yielded a payload, or is closed.
    Outbound(Option<Vec<u8>>),
    /// The control queue yielded a command, or is closed.
    Control(Option<SessionCommand>),
    /// The socket read finished with this outcome.
    Socket(ReadOutcome),
}

/// What the worker must do with the one event it picked.
pub enum WorkerAction {
    /// Write this payload to the socket, then decide on the write's outcome
    /// with `after_forward`.
    Forward(Vec<u8>),
    /// Shut both socket halves down in an orderly way, publish `SessionEnd`
    /// for this id so the caller learns the worker is gone, and stop.
    Shutdown(usize),
    /// Publish `SessionEnd` for this id and stop.
    EndSession(usize),
    /// Hand the first `n` read bytes to the decoder and keep going.
    Decode(usize),
    /// Hand the failed read to the decoder, then publish `SessionEnd` for
    /// this id and stop: an unexpected read error ends only this session.
    DecodeAbort(usize),
    /// Nothing to do; keep going.
    Idle,
}

/// The decision rule a connection worker applies to the one ready source of
/// each loop iteration: a payload is written out, `Close` stops the worker
/// after an orderly shutdown, a zero-byte read means the peer closed and
/// ends the session, and any other read is handed to the decoder.
pub fn worker_step(id: usize, ev: WorkerEvent) -> (r: WorkerAction)
    ensures
        (ev matches WorkerEvent::Outbound(Some(p)) ==> r == WorkerAction::Forward(p)),
        (ev matches WorkerEvent::Outbound(None) ==> r == WorkerAction::Idle),
        (ev matches WorkerEvent::Control(Some(c)) ==> r == WorkerAction::Shutdown(id)),
        (ev matches WorkerEvent::Control(None) ==> r == WorkerAction::Idle),
        (ev matches WorkerEvent::Socket(ReadOutcome::Read(n)) ==>
            (n == 0 ==> r == WorkerAction::EndSession(id))
            && (n > 0 ==> r == WorkerAction::Decode(n))),
        (ev == WorkerEvent::Socket(ReadOutcome::Failed) ==> r == WorkerAction::DecodeAbort(id)),
{
    match ev {
        WorkerEvent::Outbound(Some(payload)) => WorkerAction::Forward(payload),
        WorkerEvent::Outbound(None) => WorkerAction::Idle,
        WorkerEvent::Control(Some(SessionCommand::Close)) => WorkerAction::Shutdown(id),
        WorkerEvent::Control(None) => WorkerAction::Idle,
        WorkerEvent::Socket(ReadOutcome::Read(n)) => {
            if n == 0 {
                WorkerAction::EndSession(id)
            } else {
                WorkerAction::Decode(n)
            }
        }
        WorkerEvent::Socket(ReadOutcome::Failed) => WorkerAction::DecodeAbort(id),
    }
}

/// The decision after one payload write: a failed write is downgraded to
/// session-scoped termination rather than a process-wide failure, a
/// successful one changes nothing.
pub fn after_forward(id: usize, delivered: bool) -> (r: WorkerAction)
    ensures
        delivered ==> r == WorkerAction::Idle,
        !delivered ==> r == WorkerAction::EndSession(id),
{
    if delivered {
        WorkerAction::Idle
    } else {
        WorkerAction::EndSession(id)
    }
}

} // verus!
