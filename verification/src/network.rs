//! The session manager's control plane: a caller-driven command queue and a
//! non-blocking event queue. The manager never blocks and never connects by
//! itself; the caller drains commands, starts each connection, and polls for
//! lifecycle events, all from one thread.

use vstd::prelude::*;

use crate::channel;
use crate::channel::{QueueReceiver, QueueSender};
use crate::dispatcher::ParserDispatcher;
use crate::session::SessionEvent;

verus! {

/// Capacity of the manager's command queue and of its event queue.
pub const CONTROL_QUEUE_CAPACITY: usize = 32;

/// A command for the session manager.
#[derive(Debug)]
pub enum NetworkCommand {
    /// Ask for one outbound connection.
    Connect {
        /// Unique id among concurrently active sessions (the caller's duty).
        id: usize,
        /// Session display name.
        name: String,
        /// The "host:port" to connect to.
        target_addr: String,
        /// Optional socks5 proxy; accepted and currently unused.
        proxy: Option<String>,
        /// Encoding to be used when sending data; accepted and currently
        /// unused.
        encoding: String,
    },
}

/// The session manager. It owns the receiving end of the command queue and
/// both ends of the event queue; workers publish on clones of the event
/// queue's sending end.
#[verifier::reject_recursive_types(T)]
pub struct Network<T: ParserDispatcher> {
    net_cmd_rx: QueueReceiver<NetworkCommand>,
    events_rx: QueueReceiver<SessionEvent<T>>,
    events_tx: QueueSender<SessionEvent<T>>,
}

impl<T: ParserDispatcher> Network<T> {
    /// The receiving end of the command queue.
    pub closed spec fn command_queue(&self) -> QueueReceiver<NetworkCommand> {
        self.net_cmd_rx
    }

    /// The receiving end of the event queue.
    pub closed spec fn event_queue(&self) -> QueueReceiver<SessionEvent<T>> {
        self.events_rx
    }

    /// The manager's own sending end of the event queue.
    pub closed spec fn event_publisher(&self) -> QueueSender<SessionEvent<T>> {
        self.events_tx
    }

    /// A fresh manager and the sending end of its command queue: the returned
    /// sender feeds the very queue `process_commands` drains, the manager's
    /// publisher feeds the queue `poll_event` drains, and both queues are
    /// bounded at the fixed control capacity.
    pub fn new() -> (r: (QueueSender<NetworkCommand>, Network<T>))
        ensures
            r.0.pair() == r.1.command_queue().pair(),
            r.1.event_publisher().pair() == r.1.event_queue().pair(),
            r.0.capacity() == CONTROL_QUEUE_CAPACITY as nat,
            r.1.command_queue().capacity() == CONTROL_QUEUE_CAPACITY as nat,
            r.1.event_queue().capacity() == CONTROL_QUEUE_CAPACITY as nat,
            r.1.event_publisher().capacity() == CONTROL_QUEUE_CAPACITY as nat,
    {
        let (tx, rx) = channel::new_queue(CONTROL_QUEUE_CAPACITY);
        let (events_tx, events_rx) = channel::new_queue(CONTROL_QUEUE_CAPACITY);
        (tx, Network { net_cmd_rx: rx, events_rx, events_tx })
    }

    /// The next pending lifecycle event, if one is queued; never blocks and
    /// leaves the command side of the manager untouched.
    pub fn poll_event(&mut self) -> (r: Option<SessionEvent<T>>)
        ensures
            final(self).command_queue() == old(self).command_queue(),
            final(self).event_publisher() == old(self).event_publisher(),
            final(self).event_queue().pair() == old(self).event_queue().pair(),
            final(self).event_queue().capacity() == old(self).event_queue().capacity(),
    {
        channel::try_recv_from(&mut self.events_rx)
    }

    /// Drains at most one pending connect request and returns it for the
    /// caller to act on; never blocks, never connects synchronously, and
    /// leaves the event side of the manager untouched.
    pub fn process_commands(&mut self) -> (r: Option<NetworkCommand>)
        ensures
            final(self).event_queue() == old(self).event_queue(),
            final(self).event_publisher() == old(self).event_publisher(),
            final(self).command_queue().pair() == old(self).command_queue().pair(),
            final(self).command_queue().capacity() == old(self).command_queue().capacity(),
    {
        channel::try_recv_from(&mut self.net_cmd_rx)
    }

    /// Another sending handle to the manager's own event queue, for the task
    /// that starts a connection and for its worker to publish lifecycle
    /// events on.
    pub fn event_sender(&self) -> (r: QueueSender<SessionEvent<T>>)
        ensures
            r.pair() == self.event_publisher().pair(),
            r.capacity() == self.event_publisher().capacity(),
    {
        channel::clone_sender(&self.events_tx)
    }
}

/// What follows one finished connect attempt.
#[derive(Clone, Copy, PartialEq, Eq, Structural, Debug)]
pub enum ConnectStep {
    /// The connection stands: open the session and publish its start event.
    StartSession(usize),
    /// The connect failed: publish exactly one `ConnectionFailed` event for
    /// this id; no session is started.
    ReportFailure(usize),
}

/// The rule for one finished connect attempt: a failure is reported as a
/// `ConnectionFailed` event for that id and never as a start; a success goes
/// on to open the session.
pub fn connect_decision(id: usize, connected: bool) -> (r: ConnectStep)
    ensures
        connected ==> r == ConnectStep::StartSession(id),
        !connected ==> r == ConnectStep::ReportFailure(id),
{
    if connected {
        ConnectStep::StartSession(id)
    } else {
        ConnectStep::ReportFailure(id)
    }
}

} // verus!
