//! One duplex session: an inbound reader flow, the relay/transform stage, a
//! bounded queue, an outbound writer flow, and the termination protocol that
//! coordinates their shutdown.
//!
//! The state machine is `Active -> Closing -> Terminated`, with no cycles
//! and no re-entry. `Closing` is entered when the inbound side stops for any
//! reason; the queue is then closed for new writes but its buffered messages
//! stay deliverable. `Terminated` is entered once the writer has drained the
//! queue, or at once on a transport send failure.

use vstd::prelude::*;

use crate::message::{models_of, relayed_all, relayed_model, Message, MessageModel};
use crate::queue::{BoundedQueue, Enqueued};

verus! {

/// The lifecycle phase of a session.
#[derive(Clone, Copy, Debug, PartialEq, Eq, Structural)]
pub enum SessionState {
    /// Both the reader and the writer flow run normally.
    Active,
    /// The inbound side has stopped; buffered messages are still deliverable.
    Closing,
    /// Both flows have exited; the session holds no further work.
    Terminated,
}

/// A numeric rank for the lifecycle phases: transitions only ever move to an
/// equal or higher rank, which is how "no cycles, no re-entry" is stated.
pub open spec fn state_rank(s: SessionState) -> int {
    match s {
        SessionState::Active => 0,
        SessionState::Closing => 1,
        SessionState::Terminated => 2,
    }
}

/// Why the inbound side stopped. The resulting transition is identical for
/// every reason; the reason is diagnostic detail only.
#[derive(Clone, Copy, Debug, PartialEq, Eq, Structural)]
pub enum CloseReason {
    /// The transport's incoming stream ended normally.
    StreamEnded,
    /// The transport reported a receive failure.
    TransportError,
    /// The application-level exit sentinel was observed.
    Sentinel,
}

/// One step of the outbound writer flow.
#[derive(Debug, PartialEq, Eq)]
pub enum WriterStep {
    /// Emit this message on the outgoing stream, oldest first.
    Emit(Message),
    /// Nothing buffered yet, but the inbound side may still produce: wait.
    Idle,
    /// The queue is closed and drained (or the session was torn down): stop.
    Finished,
}

/// One duplex session: its identity, the relaying party's label, the bounded
/// queue between its two flows, and its lifecycle state.
pub struct Session {
    id: u64,
    label: String,
    queue: BoundedQueue,
    state: SessionState,
}

impl Session {
    /// The session's identity, fixed at creation.
    pub closed spec fn session_id(&self) -> u64 {
        self.id
    }

    /// The relaying party's identity label, fixed at creation.
    pub closed spec fn label_model(&self) -> Seq<char> {
        self.label@
    }

    /// The abstract values of the queued messages, oldest first.
    pub closed spec fn buffered(&self) -> Seq<MessageModel> {
        self.queue.contents()
    }

    /// The queue capacity, fixed at creation.
    pub closed spec fn cap(&self) -> nat {
        self.queue.cap()
    }

    /// The lifecycle phase.
    pub closed spec fn state(&self) -> SessionState {
        self.state
    }

    /// Well-formedness: the queue is well formed, and the queue is open for
    /// writes exactly while the session is `Active`.
    pub closed spec fn wf(&self) -> bool {
        &&& self.queue.wf()
        &&& self.state == SessionState::Active <==> !self.queue.is_closed()
    }

    /// The identity, label and capacity are unchanged between two session
    /// values: every step of either flow preserves them.
    pub open spec fn same_setup(&self, other: &Session) -> bool {
        &&& self.session_id() == other.session_id()
        &&& self.label_model() == other.label_model()
        &&& self.cap() == other.cap()
    }

    /// A fresh session: `Active`, with an empty open queue of the given
    /// capacity and the given relayer label.
    pub fn new(id: u64, label: String, capacity: usize) -> (s: Session)
        requires
            capacity >= 1,
        ensures
            s.wf(),
            s.session_id() == id,
            s.label_model() == label@,
            s.cap() == capacity,
            s.state() == SessionState::Active,
            s.buffered() == Seq::<MessageModel>::empty(),
    {
        Session { id, label, queue: BoundedQueue::new(capacity), state: SessionState::Active }
    }

    /// The relaying party's label.
    pub fn relayer_label(&self) -> (r: &str)
        ensures
            r@ == self.label_model(),
    {
        self.label.as_str()
    }

    /// One step of the inbound reader flow on a received message: apply the
    /// relay/transform stage and attempt to enqueue the result. While the
    /// session is `Active` and the queue has room the relayed message becomes
    /// the newest buffered item; a full queue refuses it (backpressure) and a
    /// session no longer `Active` refuses it as a closed queue. Either
    /// refusal hands the relayed message back; nothing is ever dropped.
    pub fn handle_inbound(&mut self, m: &Message) -> (r: Enqueued)
        requires
            old(self).wf(),
        ensures
            final(self).wf(),
            final(self).same_setup(old(self)),
            final(self).state() == old(self).state(),
            old(self).state() == SessionState::Active && old(self).buffered().len() < old(
                self,
            ).cap() ==> {
                &&& r == Enqueued::Accepted
                &&& final(self).buffered() == old(self).buffered().push(
                    relayed_model(m@, old(self).label_model()),
                )
            },
            old(self).state() == SessionState::Active && old(self).buffered().len() == old(
                self,
            ).cap() ==> {
                &&& (r matches Enqueued::Full(b) && b@ == relayed_model(
                    m@,
                    old(self).label_model(),
                ))
                &&& final(self).buffered() == old(self).buffered()
            },
            old(self).state() != SessionState::Active ==> {
                &&& (r matches Enqueued::Closed(b) && b@ == relayed_model(
                    m@,
                    old(self).label_model(),
                ))
                &&& final(self).buffered() == old(self).buffered()
            },
    {
        let relayed = crate::message::relay_transform(m, self.label.as_str());
        self.queue.try_enqueue(relayed)
    }

    /// The inbound side has stopped (stream end, transport error, or the
    /// exit sentinel): move an `Active` session to `Closing` and close the
    /// queue for new writes. Buffered messages stay deliverable. The
    /// transition is the same whatever the reason; on a session already past
    /// `Active` nothing changes.
    pub fn inbound_stopped(&mut self, _reason: CloseReason)
        requires
            old(self).wf(),
        ensures
            final(self).wf(),
            final(self).same_setup(old(self)),
            final(self).buffered() == old(self).buffered(),
            old(self).state() == SessionState::Active ==> final(self).state()
                == SessionState::Closing,
            old(self).state() != SessionState::Active ==> final(self).state() == old(self).state(),
            state_rank(final(self).state()) >= state_rank(old(self).state()),
    {
        if self.state == SessionState::Active {
            self.queue.close();
            self.state = SessionState::Closing;
        }
    }

    /// One step of the outbound writer flow: emit the oldest buffered
    /// message if there is one; wait if the session is still `Active` with
    /// nothing buffered; finish once a `Closing` session is drained, which
    /// is the moment the session reaches `Terminated`. A session already
    /// `Terminated` only ever answers `Finished`.
    pub fn writer_step(&mut self) -> (r: WriterStep)
        requires
            old(self).wf(),
        ensures
            final(self).wf(),
            final(self).same_setup(old(self)),
            state_rank(final(self).state()) >= state_rank(old(self).state()),
            old(self).state() == SessionState::Terminated ==> {
                &&& r == WriterStep::Finished
                &&& final(self).state() == SessionState::Terminated
                &&& final(self).buffered() == old(self).buffered()
            },
            old(self).state() != SessionState::Terminated && old(self).buffered().len() > 0 ==> {
                &&& (r matches WriterStep::Emit(m) && m@ == old(self).buffered()[0])
                &&& final(self).buffered() == old(self).buffered().drop_first()
                &&& final(self).state() == old(self).state()
            },
            old(self).state() == SessionState::Active && old(self).buffered().len() == 0 ==> {
                &&& r == WriterStep::Idle
                &&& final(self).buffered() == old(self).buffered()
                &&& final(self).state() == SessionState::Active
            },
            old(self).state() == SessionState::Closing && old(self).buffered().len() == 0 ==> {
                &&& r == WriterStep::Finished
                &&& final(self).state() == SessionState::Terminated
                &&& final(self).buffered() == old(self).buffered()
            },
    {
        if self.state == SessionState::Terminated {
            WriterStep::Finished
        } else {
            match self.queue.dequeue() {
                Some(m) => WriterStep::Emit(m),
                None => {
                    if self.state == SessionState::Closing {
                        self.state = SessionState::Terminated;
                        WriterStep::Finished
                    } else {
                        WriterStep::Idle
                    }
                },
            }
        }
    }

    /// The transport refused a send: the writer aborts its loop and the
    /// session is forced straight to `Terminated`, whatever its phase was.
    pub fn send_failed(&mut self)
        requires
            old(self).wf(),
        ensures
            final(self).wf(),
            final(self).same_setup(old(self)),
            final(self).state() == SessionState::Terminated,
            state_rank(final(self).state()) >= state_rank(old(self).state()),
    {
        self.queue.close();
        self.state = SessionState::Terminated;
    }

    /// Drain a `Closing` session: run the writer flow until it finishes,
    /// collecting every emitted message. Exactly the buffered messages come
    /// out, oldest first, none dropped, and the session ends `Terminated`
    /// with an empty queue.
    pub fn drain(&mut self) -> (out: Vec<Message>)
        requires
            old(self).wf(),
            old(self).state() == SessionState::Closing,
        ensures
            final(self).wf(),
            final(self).same_setup(old(self)),
            final(self).state() == SessionState::Terminated,
            final(self).buffered().len() == 0,
            models_of(out@) == old(self).buffered(),
    {
        let ghost orig = self.buffered();
        let mut out: Vec<Message> = Vec::new();
        proof {
            assert(models_of(out@) + self.buffered() =~= orig);
        }
        loop
            invariant_except_break
                self.wf(),
                self.state() == SessionState::Closing,
                self.same_setup(&*old(self)),
                models_of(out@) + self.buffered() == orig,
            ensures
                self.wf(),
                self.state() == SessionState::Terminated,
                self.same_setup(&*old(self)),
                self.buffered().len() == 0,
                models_of(out@) == orig,
            decreases self.buffered().len(),
        {
            let ghost pre_out = out@;
            let ghost pre_buf = self.buffered();
            match self.writer_step() {
                WriterStep::Emit(m) => {
                    out.push(m);
                    proof {
                        assert(models_of(out@) =~= models_of(pre_out).push(m@));
                        assert(models_of(pre_out).push(pre_buf[0]) + pre_buf.drop_first() =~= models_of(
                            pre_out,
                        ) + pre_buf);
                    }
                },
                WriterStep::Finished => {
                    proof {
                        assert(models_of(out@) + self.buffered() =~= models_of(out@));
                    }
                    break ;
                },
                WriterStep::Idle => {
                    proof {
                        assert(false);
                    }
                },
            }
        }
        out
    }

    /// Run a whole session to completion on a known inbound sequence: feed
    /// every message through the reader flow, letting the writer flow drain
    /// one message whenever backpressure refuses an enqueue, then close the
    /// inbound side and drain the rest. The outbound sequence is exactly the
    /// relay of the inbound sequence, in arrival order, whatever the queue
    /// capacity.
    pub fn run_to_completion(&mut self, inbound: &Vec<Message>) -> (out: Vec<Message>)
        requires
            old(self).wf(),
            old(self).state() == SessionState::Active,
            old(self).buffered().len() == 0,
        ensures
            final(self).wf(),
            final(self).same_setup(old(self)),
            final(self).state() == SessionState::Terminated,
            models_of(out@) == relayed_all(models_of(inbound@), old(self).label_model()),
    {
        let ghost label = self.label_model();
        let mut out: Vec<Message> = Vec::new();
        let mut i: usize = 0;
        proof {
            assert(models_of(out@) + self.buffered() =~= relayed_all(
                models_of(inbound@).take(0),
                label,
            ));
        }
        while i < inbound.len()
            invariant
                self.wf(),
                self.state() == SessionState::Active,
                self.same_setup(&*old(self)),
                self.label_model() == label,
                i <= inbound.len(),
                models_of(out@) + self.buffered() == relayed_all(
                    models_of(inbound@).take(i as int),
                    label,
                ),
            decreases inbound.len() - i,
        {
            let ghost pre_out = out@;
            let ghost pre_buf = self.buffered();
            let m = &inbound[i];
            match self.handle_inbound(m) {
                Enqueued::Accepted => {},
                Enqueued::Full(_refused) => {
                    // Backpressure: let the writer drain one message, then
                    // the retry is sure to be accepted.
                    let ghost mid_out = out@;
                    match self.writer_step() {
                        WriterStep::Emit(first) => {
                            out.push(first);
                            proof {
                                assert(models_of(out@) =~= models_of(mid_out).push(pre_buf[0]));
                                assert(models_of(mid_out).push(pre_buf[0])
                                    + pre_buf.drop_first() =~= models_of(mid_out) + pre_buf);
                            }
                        },
                        _ => {
                            proof {
                                assert(false);
                            }
                        },
                    }
                    match self.handle_inbound(m) {
                        Enqueued::Accepted => {},
                        _ => {
                            proof {
                                assert(false);
                            }
                        },
                    }
                },
                Enqueued::Closed(_refused) => {
                    proof {
                        assert(false);
                    }
                },
            }
            proof {
                assert(models_of(inbound@).take(i + 1) =~= models_of(inbound@).take(i as int).push(
                    inbound@[i as int]@,
                ));
                assert(relayed_all(models_of(inbound@).take(i + 1), label) =~= relayed_all(
                    models_of(inbound@).take(i as int),
                    label,
                ).push(relayed_model(inbound@[i as int]@, label)));
                assert(models_of(out@) + self.buffered() =~= relayed_all(
                    models_of(inbound@).take(i + 1),
                    label,
                ));
            }
            i += 1;
        }
        self.inbound_stopped(CloseReason::StreamEnded);
        let mut rest = self.drain();
        let ghost fed = out@;
        let ghost drained = rest@;
        out.append(&mut rest);
        proof {
            assert(models_of(inbound@).take(inbound@.len() as int) =~= models_of(inbound@));
            assert(models_of(out@) =~= models_of(fed) + models_of(drained));
        }
        out
    }

    /// The session's identity.
    pub fn id(&self) -> (r: u64)
        ensures
            r == self.session_id(),
    {
        self.id
    }

    /// The current lifecycle phase.
    pub fn current_state(&self) -> (r: SessionState)
        ensures
            r == self.state(),
    {
        self.state
    }

    /// The number of messages buffered between the two flows.
    pub fn buffered_len(&self) -> (n: usize)
        ensures
            n == self.buffered().len(),
    {
        self.queue.len()
    }

    /// The queue capacity the session was created with.
    pub fn capacity(&self) -> (n: usize)
        ensures
            n == self.cap(),
    {
        self.queue.capacity()
    }
}

/// The relaying party of the reference deployment: a server that stamps
/// every inbound message with its fixed identity label before sending it
/// back on the outbound direction.
#[derive(Debug)]
pub struct ChatServer {}

impl ChatServer {
    pub fn new() -> ChatServer {
        ChatServer {}
    }

    /// The server's fixed identity label.
    pub fn label(&self) -> (r: &'static str)
        ensures
            r@ == "Server"@,
    {
        "Server"
    }

    /// The relay/transform step with the server's label: the per-message
    /// decision inside the server's streaming handler.
    pub fn relay(&self, m: &Message) -> (r: Message)
        ensures
            r@ == relayed_model(m@, "Server"@),
    {
        crate::message::relay_transform(m, self.label())
    }

    /// A fresh session relayed by this server.
    pub fn new_session(&self, id: u64, capacity: usize) -> (s: Session)
        requires
            capacity >= 1,
        ensures
            s.wf(),
            s.session_id() == id,
            s.label_model() == "Server"@,
            s.cap() == capacity,
            s.state() == SessionState::Active,
            s.buffered() == Seq::<MessageModel>::empty(),
    {
        Session::new(id, self.label().to_owned(), capacity)
    }
}

} // verus!
