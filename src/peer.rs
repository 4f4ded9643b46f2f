use vstd::prelude::*;
use crate::config::{Config, Mode};
use crate::connection::{frame_len, Connection};
use crate::event::Event;
use crate::error::ConvertBytesErr;
use crate::packet::message::{message_failure, parse_message, Message, MessageView};
use crate::packet::open::open_new;
use crate::queue::Queue;
use crate::state::State;

verus! {

/// What the peer asks of its driver after consuming one event.
#[derive(Debug, Clone, PartialEq, Eq)]
pub enum Action {
    /// No event was pending.
    NoEvent,
    /// The event was applied; there is nothing to do outside.
    Done,
    /// The event does not apply in the current state and was dropped.
    Unhandled,
    /// Establish the transport in this role, then report the outcome with
    /// `Peer::connect_result`.
    Connect(Mode),
    /// Write this message on the transport.
    Send(Message),
}

/// What polling the transport found.
#[derive(Debug, Clone, PartialEq, Eq)]
pub enum Inbound {
    /// No transport, or no complete message yet.
    Nothing,
    /// A message arrived and its event was queued.
    Queued,
    /// A complete message arrived that does not decode; it was dropped.
    Malformed(ConvertBytesErr),
}

/// A peer's state as plain values: the session state, the pending events,
/// the configuration, and the bytes buffered by the transport, if one is
/// established.
pub struct PeerView {
    pub state: State,
    pub queue: Seq<Event>,
    pub config: Config,
    pub connection: Option<Seq<u8>>,
}

/// The state that event `e` leads to from state `s`; an event the table has
/// no row for leaves the state unchanged.
pub open spec fn next_state(s: State, e: Event) -> State {
    if s == State::Idle && e == Event::Start {
        State::Connect
    } else if s == State::Connect && e == Event::TcpConnect {
        State::OpenSent
    } else if s == State::OpenSent && e is BgpOpen {
        State::OpenConfirm
    } else {
        s
    }
}

/// The work that event `e` in state `s` asks of the driver, for a peer
/// configured by `c`.
pub open spec fn action_is(r: Action, s: State, e: Event, c: Config) -> bool {
    if s == State::Idle && e == Event::Start {
        r == Action::Connect(c.mode)
    } else if s == State::Connect && e == Event::TcpConnect {
        r matches Action::Send(m) && m@ == MessageView::Open(open_new(c.local_as@, c.local_ip))
    } else if s == State::OpenSent && e is BgpOpen {
        r == Action::Done
    } else {
        r == Action::Unhandled
    }
}

/// One BGP session's runtime state.
#[derive(Debug)]
pub struct Peer {
    state: State,
    queue: Queue,
    config: Config,
    connection: Option<Connection>,
}

impl View for Peer {
    type V = PeerView;

    closed spec fn view(&self) -> PeerView {
        PeerView {
            state: self.state,
            queue: self.queue@,
            config: self.config,
            connection: match self.connection {
                Some(c) => Some(c@),
                None => None,
            },
        }
    }
}

impl Peer {
    /// An idle peer with no pending event and no transport.
    pub fn new(config: Config) -> (r: Peer)
        ensures
            r@ == (PeerView {
                state: State::Idle,
                queue: Seq::empty(),
                config,
                connection: None,
            }),
    {
        Peer { state: State::Idle, queue: Queue::new(), config, connection: None }
    }

    /// Queues a `Start` event; each call queues one more.
    pub fn start(&mut self)
        ensures
            final(self)@ == (PeerView { queue: old(self)@.queue.push(Event::Start), ..old(self)@ }),
    {
        self.queue.enqueue(Event::Start);
    }

    /// Consumes the oldest pending event, moves to the state that the
    /// transition table gives, and returns the work this asks for.
    pub fn step(&mut self) -> (r: Action)
        ensures
            final(self)@.config == old(self)@.config,
            final(self)@.connection == old(self)@.connection,
            old(self)@.queue.len() == 0 ==> r == Action::NoEvent && final(self)@ == old(self)@,
            old(self)@.queue.len() > 0 ==> {
                let e = old(self)@.queue[0];
                &&& final(self)@.queue == old(self)@.queue.drop_first()
                &&& final(self)@.state == next_state(old(self)@.state, e)
                &&& action_is(r, old(self)@.state, e, old(self)@.config)
            },
    {
        let event = match self.queue.dequeue() {
            Some(e) => e,
            None => return Action::NoEvent,
        };
        match (self.state, event) {
            (State::Idle, Event::Start) => {
                self.state = State::Connect;
                Action::Connect(self.config.mode)
            },
            (State::Connect, Event::TcpConnect) => {
                self.state = State::OpenSent;
                Action::Send(Message::new_open(self.config.local_as, self.config.local_ip))
            },
            (State::OpenSent, Event::BgpOpen(_)) => {
                self.state = State::OpenConfirm;
                Action::Done
            },
            _ => Action::Unhandled,
        }
    }

    /// Reports the outcome of establishing the transport. On success the
    /// peer owns a fresh transport and queues `TcpConnect`; on failure it
    /// falls back to `Idle` without a transport and queues `Start` to try
    /// again.
    pub fn connect_result(&mut self, established: bool)
        ensures
            final(self)@.config == old(self)@.config,
            established ==> final(self)@.state == old(self)@.state && final(self)@.connection
                == Some(Seq::<u8>::empty()) && final(self)@.queue == old(self)@.queue.push(
                Event::TcpConnect,
            ),
            !established ==> final(self)@.state == State::Idle && final(self)@.connection is None
                && final(self)@.queue == old(self)@.queue.push(Event::Start),
    {
        if established {
            self.connection = Some(Connection::new());
            self.queue.enqueue(Event::TcpConnect);
        } else {
            self.state = State::Idle;
            self.connection = None;
            self.queue.enqueue(Event::Start);
        }
    }

    /// Hands bytes read from the transport to its receive buffer. Returns
    /// whether they were kept: not without a transport, nor when the buffer
    /// would outgrow `isize::MAX` bytes.
    pub fn receive(&mut self, data: &[u8]) -> (r: bool)
        ensures
            final(self)@.state == old(self)@.state,
            final(self)@.queue == old(self)@.queue,
            final(self)@.config == old(self)@.config,
            r <==> (old(self)@.connection matches Some(b) && b.len() + data@.len() <= isize::MAX),
            r ==> final(self)@.connection == Some(old(self)@.connection.unwrap() + data@),
            !r ==> final(self)@.connection == old(self)@.connection,
    {
        match &mut self.connection {
            Some(c) => c.extend_from_slice(data),
            None => false,
        }
    }

    /// Takes the complete message at the front of the receive buffer, if
    /// there is one, and queues the event it stands for, to be consumed by a
    /// later `step`. A complete message that does not decode is dropped and
    /// reported; an incomplete one stays buffered.
    pub fn poll_inbound(&mut self) -> (r: Inbound)
        ensures
            final(self)@.state == old(self)@.state,
            final(self)@.config == old(self)@.config,
            match old(self)@.connection {
                None => r == Inbound::Nothing && final(self)@ == old(self)@,
                Some(b) => match frame_len(b) {
                    None => r == Inbound::Nothing && final(self)@ == old(self)@,
                    Some(n) => {
                        let frame = b.subrange(0, n as int);
                        &&& final(self)@.connection == Some(b.subrange(n as int, b.len() as int))
                        &&& match parse_message(frame) {
                            Some(MessageView::Open(v)) => {
                                &&& r == Inbound::Queued
                                &&& final(self)@.queue.len() == old(self)@.queue.len() + 1
                                &&& final(self)@.queue.drop_last() == old(self)@.queue
                                &&& final(self)@.queue.last() matches Event::BgpOpen(o) && o@ == v
                            },
                            None => {
                                &&& r == Inbound::Malformed(
                                    ConvertBytesErr { reason: message_failure(frame) },
                                )
                                &&& final(self)@.queue == old(self)@.queue
                            },
                        }
                    },
                },
            },
    {
        let msg = match &mut self.connection {
            Some(c) => c.take_message(),
            None => None,
        };
        match msg {
            Some(Ok(Message::Open(open))) => {
                self.queue.enqueue(Event::BgpOpen(open));
                Inbound::Queued
            },
            Some(Err(e)) => Inbound::Malformed(e),
            None => Inbound::Nothing,
        }
    }

    /// The session state.
    pub fn state(&self) -> (r: State)
        ensures
            r == self@.state,
    {
        self.state
    }

    /// The session parameters.
    pub fn config(&self) -> (r: &Config)
        ensures
            *r == self@.config,
    {
        &self.config
    }

    /// Whether a transport is established.
    pub fn has_connection(&self) -> (r: bool)
        ensures
            r == self@.connection is Some,
    {
        self.connection.is_some()
    }
}

} // verus!
