//! The client side of the protocol: session identifiers and the dispatcher
//! that routes renderer responses back to the session that asked.
//!
//! The dispatcher owns a growable table of per-session queues. Registering a
//! session appends a queue and hands out its index as the session's
//! identifier, so identifiers are dense, sequential and never reused. A
//! routing step takes one event from the renderer channel: a response envelope
//! is appended to the queue its identifier names (or discarded if that session
//! stopped reading), and the peer-disconnected signal is broadcast to every
//! open queue, after which the dispatcher is done and every later step leaves
//! it untouched.
//!
//! The channel reads, the locking and the task that loops over `dispatch` are
//! plumbing around this state machine and live outside the verified core.

use vstd::prelude::*;
use crate::ipc_protocol::{ResponseEnvelope, ServerResponse};

verus! {

/// A unique ID used to dispatch responses on the client side.
///
/// Treated as an opaque value on the server that is returned back to the
/// client with the response to a request.
#[derive(Clone, Copy, Debug, PartialEq, Eq, Hash, Structural)]
pub struct ClientId(pub usize);

/// One item in a session's private inbound queue: a routed response, or the
/// terminal indicator that the renderer channel disconnected.
#[derive(Clone, Copy, Debug, PartialEq, Eq, Structural)]
pub enum DispatchMessage {
    Response(ServerResponse),
    Disconnected,
}

/// One event read from the renderer channel by the routing task. Any channel
/// error other than a clean disconnection is protocol corruption, fatal to the
/// whole process; it never becomes an event.
#[derive(Clone, Copy, Debug, PartialEq, Eq, Structural)]
pub enum IpcEvent {
    Response(ResponseEnvelope),
    Disconnected,
}

/// The mathematical content of one session's queue.
#[verifier::ext_equal]
pub ghost struct QueueModel {
    /// Messages routed to this session and not yet received, oldest first.
    pub pending: Seq<DispatchMessage>,
    /// Whether the session still reads its queue. A push to a closed queue is
    /// discarded, never an error.
    pub open: bool,
}

impl QueueModel {
    /// No disconnection indicator has been delivered to this queue.
    pub open spec fn clean(self) -> bool {
        forall|k: int| 0 <= k < self.pending.len() ==> !(self.pending[k] is Disconnected)
    }

    /// What one queue becomes when disconnection is broadcast.
    pub open spec fn after_disconnect(self) -> QueueModel {
        if self.open {
            QueueModel { pending: self.pending.push(DispatchMessage::Disconnected), open: true }
        } else {
            self
        }
    }
}

/// The mathematical content of the dispatcher: the queue table and whether
/// the routing task has terminated.
#[verifier::ext_equal]
pub ghost struct DispatcherModel {
    pub queues: Seq<QueueModel>,
    pub done: bool,
}

impl DispatcherModel {
    /// While the routing task is live, no queue holds a disconnection
    /// indicator: the indicator is delivered only by the terminal broadcast.
    pub open spec fn wf(self) -> bool {
        !self.done ==> forall|i: int| 0 <= i < self.queues.len() ==> self.queues[i].clean()
    }

    /// Registering a session appends a fresh open queue; its index is the new
    /// session's identifier.
    pub open spec fn add_session(self) -> DispatcherModel {
        DispatcherModel {
            queues: self.queues.push(QueueModel { pending: Seq::empty(), open: true }),
            done: self.done,
        }
    }

    /// The identifier the next `add_client` call will assign.
    pub open spec fn next_id(self) -> int {
        self.queues.len() as int
    }

    /// Routing one response envelope: appended to the queue its identifier
    /// names if that session still reads it, discarded otherwise.
    pub open spec fn route_response(self, env: ResponseEnvelope) -> DispatcherModel {
        let i = env.id.0 as int;
        if 0 <= i < self.queues.len() && self.queues[i].open {
            DispatcherModel {
                queues: self.queues.update(
                    i,
                    QueueModel {
                        pending: self.queues[i].pending.push(
                            DispatchMessage::Response(env.response),
                        ),
                        open: true,
                    },
                ),
                done: self.done,
            }
        } else {
            self
        }
    }

    /// The terminal broadcast: every open queue receives the disconnection
    /// indicator, and the routing task is done.
    pub open spec fn broadcast_disconnect(self) -> DispatcherModel {
        DispatcherModel {
            queues: self.queues.map_values(|q: QueueModel| q.after_disconnect()),
            done: true,
        }
    }

    /// One step of the routing task. Once done, every step is the identity:
    /// no further lookups, no further deliveries.
    pub open spec fn step(self, event: IpcEvent) -> DispatcherModel {
        if self.done {
            self
        } else {
            match event {
                IpcEvent::Response(env) => self.route_response(env),
                IpcEvent::Disconnected => self.broadcast_disconnect(),
            }
        }
    }

    /// Whether the routing task keeps running after handling `event`.
    pub open spec fn step_continues(self, event: IpcEvent) -> bool {
        !self.done && !(event is Disconnected)
    }

    /// A response envelope's identifier names a registered session. The
    /// renderer only echoes identifiers the dispatcher handed out, so every
    /// event reaching a live dispatcher satisfies this.
    pub open spec fn event_in_table(self, event: IpcEvent) -> bool {
        match event {
            IpcEvent::Response(env) => (env.id.0 as int) < self.queues.len(),
            IpcEvent::Disconnected => true,
        }
    }
}

/// One session's private inbound queue, as the dispatcher holds it.
pub struct SessionQueue {
    pending: Vec<DispatchMessage>,
    open: bool,
}

impl View for SessionQueue {
    type V = QueueModel;

    closed spec fn view(&self) -> QueueModel {
        QueueModel { pending: self.pending@, open: self.open }
    }
}

/// Dispatches the messages received from the renderer process.
///
/// Responses are dispatched back to the correct client based on the received
/// client ID.
pub struct ClientDispatcher {
    clients: Vec<SessionQueue>,
    done: bool,
}

impl View for ClientDispatcher {
    type V = DispatcherModel;

    closed spec fn view(&self) -> DispatcherModel {
        DispatcherModel {
            queues: self.clients@.map_values(|q: SessionQueue| q@),
            done: self.done,
        }
    }
}

impl ClientDispatcher {
    /// A fresh dispatcher: no sessions registered, routing live.
    pub fn new() -> (d: ClientDispatcher)
        ensures
            d@ == (DispatcherModel { queues: Seq::<QueueModel>::empty(), done: false }),
    {
        let d = ClientDispatcher { clients: Vec::new(), done: false };
        proof {
            assert(d@.queues =~= Seq::<QueueModel>::empty());
            assert(d@ =~= DispatcherModel { queues: Seq::<QueueModel>::empty(), done: false });
        }
        d
    }

    /// Registers a new session: appends a fresh queue under exclusive access
    /// to the table and returns its index as the session's identifier.
    pub fn add_client(&mut self) -> (id: ClientId)
        ensures
            id.0 as int == old(self)@.next_id(),
            final(self)@ == old(self)@.add_session(),
    {
        let id = ClientId(self.clients.len());
        self.clients.push(SessionQueue { pending: Vec::new(), open: true });
        proof {
            assert(self@.queues =~= old(self)@.add_session().queues);
            assert(self@ =~= old(self)@.add_session());
        }
        id
    }

    /// One step of the background routing task: handle one channel event and
    /// say whether the task keeps running. A response is delivered to the
    /// queue its identifier names (discarded if that session stopped
    /// reading); the disconnection signal is broadcast to every open queue
    /// and ends the task; and once the task has ended, nothing changes.
    pub fn dispatch(&mut self, event: IpcEvent) -> (keep_going: bool)
        requires
            old(self)@.wf(),
            old(self)@.done || old(self)@.event_in_table(event),
        ensures
            final(self)@ == old(self)@.step(event),
            keep_going == old(self)@.step_continues(event),
            final(self)@.wf(),
    {
        if self.done {
            return false;
        }
        match event {
            IpcEvent::Response(env) => {
                let idx = env.id.0;
                let q = &mut self.clients[idx];
                if q.open {
                    q.pending.push(DispatchMessage::Response(env.response));
                }
                proof {
                    assert(self@.queues =~= old(self)@.step(event).queues);
                    assert(self@ =~= old(self)@.step(event));
                    assert forall|i: int| 0 <= i < self@.queues.len() implies self@.queues[i].clean() by {
                        assert(old(self)@.queues[i].clean());
                    }
                }
                true
            }
            IpcEvent::Disconnected => {
                let n = self.clients.len();
                let mut i: usize = 0;
                while i < n
                    invariant
                        i <= n,
                        self.clients.len() == n,
                        self.done == old(self).done,
                        n == old(self)@.queues.len(),
                        forall|j: int| 0 <= j < i ==> self@.queues[j]
                            == old(self)@.queues[j].after_disconnect(),
                        forall|j: int| i <= j < n ==> self@.queues[j] == old(self)@.queues[j],
                    decreases n - i,
                {
                    let ghost prev = self@;
                    let q = &mut self.clients[i];
                    if q.open {
                        q.pending.push(DispatchMessage::Disconnected);
                    }
                    proof {
                        assert(self@.queues =~= prev.queues.update(
                            i as int,
                            prev.queues[i as int].after_disconnect(),
                        ));
                    }
                    i += 1;
                }
                self.done = true;
                proof {
                    assert(self@.queues =~= old(self)@.broadcast_disconnect().queues);
                    assert(self@ =~= old(self)@.step(event));
                }
                false
            }
        }
    }

    /// Takes the next message off one session's private queue, oldest first.
    /// `None` means the queue is currently empty (a real receive would wait).
    pub fn recv_message(&mut self, id: ClientId) -> (m: Option<DispatchMessage>)
        requires
            (id.0 as int) < old(self)@.queues.len(),
        ensures
            final(self)@.done == old(self)@.done,
            final(self)@.queues.len() == old(self)@.queues.len(),
            forall|j: int| 0 <= j < old(self)@.queues.len() && j != id.0 as int
                ==> final(self)@.queues[j] == old(self)@.queues[j],
            match m {
                None => old(self)@.queues[id.0 as int].pending.len() == 0
                    && final(self)@ == old(self)@,
                Some(msg) => old(self)@.queues[id.0 as int].pending.len() > 0
                    && msg == old(self)@.queues[id.0 as int].pending[0]
                    && final(self)@.queues[id.0 as int].pending
                        == old(self)@.queues[id.0 as int].pending.drop_first()
                    && final(self)@.queues[id.0 as int].open
                        == old(self)@.queues[id.0 as int].open,
            },
    {
        let q = &mut self.clients[id.0];
        if q.pending.len() == 0 {
            proof {
                assert(self@.queues =~= old(self)@.queues);
                assert(self@ =~= old(self)@);
            }
            None
        } else {
            let msg = q.pending.remove(0);
            proof {
                assert(self@.queues[id.0 as int].pending
                    =~= old(self)@.queues[id.0 as int].pending.drop_first());
            }
            Some(msg)
        }
    }

    /// How many sessions have been registered; also the identifier the next
    /// registration will be assigned.
    pub fn session_count(&self) -> (n: usize)
        ensures
            n as int == self@.queues.len(),
    {
        self.clients.len()
    }

    /// Whether the routing task has terminated (the channel disconnected).
    pub fn is_done(&self) -> (b: bool)
        ensures
            b == self@.done,
    {
        self.done
    }

    /// How many messages wait unreceived in one session's queue.
    pub fn pending_count(&self, id: ClientId) -> (n: usize)
        requires
            (id.0 as int) < self@.queues.len(),
        ensures
            n as int == self@.queues[id.0 as int].pending.len(),
    {
        self.clients[id.0].pending.len()
    }

    /// Marks one session's queue as no longer read: its handle was dropped.
    /// Responses routed to it from now on are discarded, never an error.
    pub fn close_session(&mut self, id: ClientId)
        requires
            (id.0 as int) < old(self)@.queues.len(),
        ensures
            final(self)@.done == old(self)@.done,
            final(self)@.queues.len() == old(self)@.queues.len(),
            forall|j: int| 0 <= j < old(self)@.queues.len() && j != id.0 as int
                ==> final(self)@.queues[j] == old(self)@.queues[j],
            final(self)@.queues[id.0 as int].pending == old(self)@.queues[id.0 as int].pending,
            !final(self)@.queues[id.0 as int].open,
    {
        let q = &mut self.clients[id.0];
        q.open = false;
    }
}

/// The dispatcher after `n` further sessions have been registered.
pub open spec fn after_sessions(m: DispatcherModel, n: nat) -> DispatcherModel
    decreases n,
{
    if n == 0 {
        m
    } else {
        after_sessions(m, (n - 1) as nat).add_session()
    }
}

/// Session identifiers are dense and sequential: the k-th registration after
/// state `m` is assigned identifier `|m.queues| + k`, a valid index into the
/// table from that point on. Starting from a fresh dispatcher the assigned
/// identifiers are therefore exactly 0, 1, 2, … in call order.
pub proof fn lemma_session_ids_sequential(m: DispatcherModel, n: nat)
    ensures
        after_sessions(m, n).queues.len() == m.queues.len() + n,
        forall|k: nat| k < n ==> #[trigger] after_sessions(m, k).next_id()
            == m.queues.len() + k,
        m.queues.len() == 0 ==> forall|k: nat| k < n
            ==> #[trigger] after_sessions(m, k).next_id() == k,
    decreases n,
{
    if n > 0 {
        lemma_session_ids_sequential(m, (n - 1) as nat);
        assert(after_sessions(m, n).queues.len() == m.queues.len() + n);
        assert forall|k: nat| k < n implies #[trigger] after_sessions(m, k).next_id()
            == m.queues.len() + k by {
            if k == n - 1 {
                assert(after_sessions(m, k).queues.len() == m.queues.len() + k);
            }
        }
    }
}

/// The dispatcher after routing each response of `rs`, in order, addressed to
/// session `id`.
pub open spec fn route_all(m: DispatcherModel, id: ClientId, rs: Seq<ServerResponse>)
    -> DispatcherModel
    decreases rs.len(),
{
    if rs.len() == 0 {
        m
    } else {
        route_all(m, id, rs.drop_last()).step(
            IpcEvent::Response(ResponseEnvelope { id, response: rs.last() }),
        )
    }
}

/// FIFO per session: routing a sequence of responses to one open session
/// appends them to that session's queue in exactly the order they arrived,
/// leaves every other queue untouched and keeps the routing task live. Since
/// a session receives from the front of its queue, it receives its responses
/// in exactly the order the renderer produced them.
pub proof fn lemma_fifo_per_session(m: DispatcherModel, id: ClientId, rs: Seq<ServerResponse>)
    requires
        !m.done,
        (id.0 as int) < m.queues.len(),
        m.queues[id.0 as int].open,
    ensures
        !route_all(m, id, rs).done,
        route_all(m, id, rs).queues.len() == m.queues.len(),
        route_all(m, id, rs).queues[id.0 as int].open,
        route_all(m, id, rs).queues[id.0 as int].pending
            == m.queues[id.0 as int].pending
                + rs.map_values(|r: ServerResponse| DispatchMessage::Response(r)),
        forall|j: int| 0 <= j < m.queues.len() && j != id.0 as int
            ==> route_all(m, id, rs).queues[j] == m.queues[j],
    decreases rs.len(),
{
    if rs.len() > 0 {
        lemma_fifo_per_session(m, id, rs.drop_last());
        let prev = route_all(m, id, rs.drop_last());
        let full = route_all(m, id, rs);
        assert(full == prev.step(
            IpcEvent::Response(ResponseEnvelope { id, response: rs.last() }),
        ));
        assert(full.queues[id.0 as int].pending =~= m.queues[id.0 as int].pending
            + rs.map_values(|r: ServerResponse| DispatchMessage::Response(r)));
    }
}

/// Disconnection is delivered exactly once: after the disconnect step from a
/// live, well-formed dispatcher, every open queue ends with one disconnection
/// indicator and holds no other, closed queues are untouched, and the routing
/// task is done.
pub proof fn lemma_disconnect_exactly_once(m: DispatcherModel)
    requires
        m.wf(),
        !m.done,
    ensures
        m.step(IpcEvent::Disconnected).done,
        m.step(IpcEvent::Disconnected).queues.len() == m.queues.len(),
        forall|i: int| 0 <= i < m.queues.len() && m.queues[i].open ==> {
            let p = #[trigger] m.step(IpcEvent::Disconnected).queues[i].pending;
            &&& p.len() == m.queues[i].pending.len() + 1
            &&& p.last() is Disconnected
            &&& forall|k: int| 0 <= k < p.len() - 1 ==> !(#[trigger] p[k] is Disconnected)
        },
        forall|i: int| 0 <= i < m.queues.len() && !m.queues[i].open
            ==> #[trigger] m.step(IpcEvent::Disconnected).queues[i] == m.queues[i],
{
    let post = m.step(IpcEvent::Disconnected);
    assert forall|i: int| 0 <= i < m.queues.len() && m.queues[i].open implies {
        let p = #[trigger] post.queues[i].pending;
        &&& p.len() == m.queues[i].pending.len() + 1
        &&& p.last() is Disconnected
        &&& forall|k: int| 0 <= k < p.len() - 1 ==> !(#[trigger] p[k] is Disconnected)
    } by {
        assert(m.queues[i].clean());
        assert(post.queues[i] == m.queues[i].after_disconnect());
    }
}

/// Idempotent shutdown: once the routing task is done, any further event
/// changes no queue and performs no delivery, and the task stays stopped.
pub proof fn lemma_no_routing_after_disconnect(m: DispatcherModel, event: IpcEvent)
    requires
        m.done,
    ensures
        m.step(event) == m,
        !m.step_continues(event),
{
}

/// Routing to a session whose handle is gone discards the response: the
/// dispatcher, and every queue in it, is left exactly as it was.
pub proof fn lemma_route_to_closed_session_discards(m: DispatcherModel, env: ResponseEnvelope)
    requires
        !m.done,
        (env.id.0 as int) < m.queues.len(),
        !m.queues[env.id.0 as int].open,
    ensures
        m.step(IpcEvent::Response(env)) == m,
{
}

} // verus!
