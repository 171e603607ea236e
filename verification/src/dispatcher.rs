//! The dispatcher of a listener: it routes datagrams to the sessions of their peers
//! and offers new sessions to whoever accepts them.

use crate::addr::PeerAddr;
use crate::channel::{verdict_fits, OfferQueue, Verdict};
use crate::header::{get_conv, get_sn, set_conv};
use crate::manager::{KcpSessionManager, Resolution};
use vstd::pervasive::unreached;
use vstd::prelude::*;

verus! {

/// How many reports of closed sessions can wait for the dispatcher.
pub const CLOSE_BACKLOG: usize = 64;

/// The longest packet that the listener reads, in bytes.
pub const PACKET_BUFFER_SIZE: usize = 2048;

/// How long the listener waits after a failed read, in nanoseconds.
pub const RECV_RETRY_NS: u128 = 1_000_000_000;

/// A packet on its way to a session.
#[derive(Debug)]
pub struct Arrival<P> {
    pub packet: P,
    /// The conversation number in the packet.
    pub conv: u32,
    /// The sequence number in the packet.
    pub sn: u32,
    pub peer: PeerAddr,
}

/// What the dispatcher waits for.
#[derive(Debug)]
pub enum Phase<P> {
    /// A packet, or word that a session is gone.
    Idle,
    /// The conversation number of the peer's session, to tell whether the packet
    /// starts a new one.
    Resolving(Arrival<P>),
    /// A new session.
    Creating(Arrival<P>),
    /// Whether the new session was taken over by whoever accepts.
    Offering(Arrival<P>),
    /// The conversation number of the peer's session, to tell whether the packet
    /// is meant for it.
    Matching(Arrival<P>),
}

/// What the dispatcher is told. `S` is a handle to a session, `P` a packet.
#[derive(Debug)]
pub enum DispatchEvent<S, P> {
    /// The session of a peer has shut down.
    PeerClosed(PeerAddr),
    /// No packet could be read.
    RecvFailed,
    /// A packet came in.
    Received { packet: P, peer: PeerAddr },
    /// The conversation number of a session was read.
    ConvRead(u32),
    /// A session was created, or could not be.
    Created(Option<S>),
    /// A session was offered; it was taken over or refused.
    Offered(Verdict),
}

/// What the dispatcher wants done next.
#[derive(Debug)]
pub enum DispatchAction<P> {
    /// Wait for a packet, or for word that a session is gone.
    AwaitNext,
    /// Wait for `delay_ns` nanoseconds and then for what is next.
    Backoff { delay_ns: u128 },
    /// Read the conversation number of the session of `peer`.
    ReadConv { peer: PeerAddr },
    /// Create a session for `peer` with conversation number `conv`.
    Create { conv: u32, peer: PeerAddr },
    /// Offer the session of `peer` to whoever accepts.
    Offer { peer: PeerAddr },
    /// Hand the packet to the session of `peer` and then wait for what is next.
    Deliver { peer: PeerAddr, packet: P },
}

impl View for Arrival<Vec<u8>> {
    type V = Arrival<Seq<u8>>;

    open spec fn view(&self) -> Arrival<Seq<u8>> {
        Arrival { packet: self.packet@, conv: self.conv, sn: self.sn, peer: self.peer }
    }
}

impl View for Phase<Vec<u8>> {
    type V = Phase<Seq<u8>>;

    open spec fn view(&self) -> Phase<Seq<u8>> {
        match *self {
            Phase::Idle => Phase::Idle,
            Phase::Resolving(arrival) => Phase::Resolving(arrival@),
            Phase::Creating(arrival) => Phase::Creating(arrival@),
            Phase::Offering(arrival) => Phase::Offering(arrival@),
            Phase::Matching(arrival) => Phase::Matching(arrival@),
        }
    }
}

impl<S> View for DispatchEvent<S, Vec<u8>> {
    type V = DispatchEvent<S, Seq<u8>>;

    open spec fn view(&self) -> DispatchEvent<S, Seq<u8>> {
        match *self {
            DispatchEvent::PeerClosed(peer) => DispatchEvent::PeerClosed(peer),
            DispatchEvent::RecvFailed => DispatchEvent::RecvFailed,
            DispatchEvent::Received { packet, peer } => DispatchEvent::Received {
                packet: packet@,
                peer,
            },
            DispatchEvent::ConvRead(conv) => DispatchEvent::ConvRead(conv),
            DispatchEvent::Created(session) => DispatchEvent::Created(session),
            DispatchEvent::Offered(verdict) => DispatchEvent::Offered(verdict),
        }
    }
}

impl View for DispatchAction<Vec<u8>> {
    type V = DispatchAction<Seq<u8>>;

    open spec fn view(&self) -> DispatchAction<Seq<u8>> {
        match *self {
            DispatchAction::AwaitNext => DispatchAction::AwaitNext,
            DispatchAction::Backoff { delay_ns } => DispatchAction::Backoff { delay_ns },
            DispatchAction::ReadConv { peer } => DispatchAction::ReadConv { peer },
            DispatchAction::Create { conv, peer } => DispatchAction::Create { conv, peer },
            DispatchAction::Offer { peer } => DispatchAction::Offer { peer },
            DispatchAction::Deliver { peer, packet } => DispatchAction::Deliver {
                peer,
                packet: packet@,
            },
        }
    }
}

/// What there is to know of a dispatcher.
pub ghost struct DispatcherView<S> {
    pub sessions: Map<PeerAddr, S>,
    pub phase: Phase<Seq<u8>>,
}

/// What a step of a dispatcher brings about: the dispatcher after it, what has to
/// be done, and the session that left the table and has to be closed.
pub ghost struct DispatchStep<S> {
    pub after: DispatcherView<S>,
    pub action: DispatchAction<Seq<u8>>,
    pub released: Option<S>,
}

/// A packet of `peer` as it goes on from here: one without a conversation number
/// is given `fresh`.
pub open spec fn arrival_of(packet: Seq<u8>, peer: PeerAddr, fresh: u32) -> Arrival<Seq<u8>> {
    let stamped = if crate::header::conv_of(packet) == 0 {
        crate::header::with_conv(packet, fresh)
    } else {
        packet
    };
    Arrival {
        packet: stamped,
        conv: crate::header::conv_of(stamped) as u32,
        sn: crate::header::sn_of(stamped) as u32,
        peer,
    }
}

impl<S> DispatcherView<S> {
    /// The event answers what the dispatcher last asked for, and a packet is long
    /// enough to have a header.
    pub open spec fn expects(self, event: DispatchEvent<S, Seq<u8>>) -> bool {
        match event {
            DispatchEvent::PeerClosed(_) | DispatchEvent::RecvFailed => self.phase is Idle,
            DispatchEvent::Received { packet, .. } => self.phase is Idle
                && crate::header::has_header(packet),
            DispatchEvent::ConvRead(_) => self.phase is Resolving || self.phase is Matching,
            DispatchEvent::Created(_) => self.phase is Creating,
            DispatchEvent::Offered(_) => self.phase is Offering,
        }
    }

    /// Nothing changes in the table and `action` comes next.
    pub open spec fn goes_on(
        self,
        phase: Phase<Seq<u8>>,
        action: DispatchAction<Seq<u8>>,
    ) -> DispatchStep<S> {
        DispatchStep { after: DispatcherView { phase, ..self }, action, released: None }
    }

    /// The session of `peer` leaves the table and the dispatcher waits for what is
    /// next.
    pub open spec fn drops(self, peer: PeerAddr) -> DispatchStep<S> {
        DispatchStep {
            after: DispatcherView { sessions: self.sessions.remove(peer), phase: Phase::Idle },
            action: DispatchAction::AwaitNext,
            released: self.sessions.get(peer),
        }
    }

    /// The packet is for the session that its peer has, for a new one, or that has
    /// to be found out first.
    pub open spec fn resolves(
        self,
        arrival: Arrival<Seq<u8>>,
        session_conv: Option<u32>,
    ) -> DispatchStep<S> {
        let peer = arrival.peer;
        let conv = arrival.conv;
        match crate::manager::resolution(
            self.sessions.contains_key(peer),
            conv,
            arrival.sn,
            session_conv,
        ) {
            Resolution::Create => self.goes_on(
                Phase::Creating(arrival),
                DispatchAction::Create { conv, peer },
            ),
            Resolution::ReadConv => self.goes_on(
                Phase::Resolving(arrival),
                DispatchAction::ReadConv { peer },
            ),
            Resolution::Existing => self.goes_on(
                Phase::Matching(arrival),
                DispatchAction::ReadConv { peer },
            ),
        }
    }

    /// The step that `event` brings about. `fresh` is the conversation number for a
    /// packet that has none.
    pub open spec fn next(self, event: DispatchEvent<S, Seq<u8>>, fresh: u32) -> DispatchStep<S> {
        match (self.phase, event) {
            (_, DispatchEvent::PeerClosed(peer)) => self.drops(peer),
            (_, DispatchEvent::RecvFailed) => self.goes_on(
                Phase::Idle,
                DispatchAction::Backoff { delay_ns: RECV_RETRY_NS },
            ),
            (_, DispatchEvent::Received { packet, peer }) => self.resolves(
                arrival_of(packet, peer, fresh),
                None,
            ),
            (Phase::Resolving(arrival), DispatchEvent::ConvRead(session_conv)) => self.resolves(
                arrival,
                Some(session_conv),
            ),
            (Phase::Matching(arrival), DispatchEvent::ConvRead(session_conv)) if session_conv
                == arrival.conv => self.goes_on(
                Phase::Idle,
                DispatchAction::Deliver { peer: arrival.peer, packet: arrival.packet },
            ),
            (Phase::Creating(arrival), DispatchEvent::Created(Some(session))) => DispatchStep {
                after: DispatcherView {
                    sessions: self.sessions.insert(arrival.peer, session),
                    phase: Phase::Offering(arrival),
                },
                action: DispatchAction::Offer { peer: arrival.peer },
                released: self.sessions.get(arrival.peer),
            },
            (Phase::Offering(arrival), DispatchEvent::Offered(Verdict::Taken)) => self.goes_on(
                Phase::Idle,
                DispatchAction::Deliver { peer: arrival.peer, packet: arrival.packet },
            ),
            (Phase::Offering(arrival), DispatchEvent::Offered(_)) => self.drops(arrival.peer),
            _ => self.goes_on(Phase::Idle, DispatchAction::AwaitNext),
        }
    }
}

/// Routes the packets of one UDP socket. `S` is a handle to a session.
pub struct Dispatcher<S> {
    sessions: KcpSessionManager<S>,
    phase: Phase<Vec<u8>>,
}

impl<S> View for Dispatcher<S> {
    type V = DispatcherView<S>;

    closed spec fn view(&self) -> DispatcherView<S> {
        DispatcherView { sessions: self.sessions@, phase: self.phase@ }
    }
}

impl<S> Dispatcher<S> {
    /// The conversation numbers that were allocated so far, in order.
    pub closed spec fn allocated(self) -> Seq<u32> {
        self.sessions.allocated()
    }

    /// A dispatcher without sessions that waits for a packet.
    pub fn new() -> (dispatcher: Dispatcher<S>)
        ensures
            dispatcher@ == (DispatcherView::<S> { sessions: Map::empty(), phase: Phase::Idle }),
            dispatcher.allocated() == Seq::<u32>::empty(),
    {
        Dispatcher { sessions: KcpSessionManager::new(), phase: Phase::Idle }
    }

    /// The session of `peer`.
    pub fn session(&self, peer: &PeerAddr) -> (session: Option<&S>)
        ensures
            session == (if self@.sessions.contains_key(*peer) {
                Some(&self@.sessions[*peer])
            } else {
                None
            }),
    {
        self.sessions.get(peer)
    }

    /// Takes one event. Returns what has to be done, and the session that left the
    /// table and has to be closed. A packet without a conversation number is given
    /// one that is allocated for it, at random, and for no other event one is.
    pub fn step(&mut self, event: DispatchEvent<S, Vec<u8>>) -> (done: (
        DispatchAction<Vec<u8>>,
        Option<S>,
    ))
        requires
            old(self)@.expects(event@),
        ensures
            exists|fresh: u32|
                {
                    &&& (DispatchStep { after: final(self)@, action: done.0@, released: done.1 })
                        == #[trigger] old(self)@.next(event@, fresh)
                    &&& final(self).allocated() == (match event {
                        DispatchEvent::Received { packet, .. } if packet@[0] == 0 && packet@[1] == 0
                            && packet@[2] == 0 && packet@[3] == 0 => old(self).allocated().push(
                            fresh,
                        ),
                        _ => old(self).allocated(),
                    })
                },
    {
        let fresh: u32 = match &event {
            DispatchEvent::Received { packet, .. } => {
                if get_conv(packet) == 0 {
                    self.sessions.alloc_conv()
                } else {
                    0
                }
            },
            _ => 0,
        };
        self.step_with(event, fresh)
    }

    /// Takes one event, as `step` does, with `fresh` as the conversation number for
    /// a packet that has none.
    pub fn step_with(&mut self, event: DispatchEvent<S, Vec<u8>>, fresh: u32) -> (done: (
        DispatchAction<Vec<u8>>,
        Option<S>,
    ))
        requires
            old(self)@.expects(event@),
        ensures
            (DispatchStep { after: final(self)@, action: done.0@, released: done.1 }) == old(
                self,
            )@.next(event@, fresh),
            final(self).allocated() == old(self).allocated(),
    {
        let mut phase = Phase::Idle;
        core::mem::swap(&mut phase, &mut self.phase);
        match event {
            DispatchEvent::PeerClosed(peer) => (
                DispatchAction::AwaitNext,
                self.sessions.close_peer(peer),
            ),
            DispatchEvent::RecvFailed => (
                DispatchAction::Backoff { delay_ns: RECV_RETRY_NS },
                None,
            ),
            DispatchEvent::Received { packet, peer } => {
                let mut packet = packet;
                let mut conv: u32 = get_conv(&packet);
                if conv == 0 {
                    conv = fresh;
                    proof {
                        crate::header::stamped_packet_reads_back(packet@, conv);
                    }
                    set_conv(&mut packet, conv);
                }
                let sn: u32 = get_sn(&packet);
                (self.resolve(Arrival { packet, conv, sn, peer }, None), None)
            },
            DispatchEvent::ConvRead(session_conv) => {
                match phase {
                    Phase::Resolving(arrival) => (self.resolve(arrival, Some(session_conv)), None),
                    Phase::Matching(arrival) => {
                        if session_conv != arrival.conv {
                            return (DispatchAction::AwaitNext, None);
                        }
                        let Arrival { packet, peer, .. } = arrival;
                        (DispatchAction::Deliver { peer, packet }, None)
                    },
                    _ => unreached(),
                }
            },
            DispatchEvent::Created(created) => {
                match (phase, created) {
                    (Phase::Creating(arrival), Some(session)) => {
                        let peer = arrival.peer;
                        let replaced = self.sessions.insert(peer, session);
                        self.phase = Phase::Offering(arrival);
                        (DispatchAction::Offer { peer }, replaced)
                    },
                    _ => (DispatchAction::AwaitNext, None),
                }
            },
            DispatchEvent::Offered(verdict) => {
                match phase {
                    Phase::Offering(arrival) => {
                        let Arrival { packet, peer, .. } = arrival;
                        match verdict {
                            Verdict::Taken => (DispatchAction::Deliver { peer, packet }, None),
                            _ => (DispatchAction::AwaitNext, self.sessions.close_peer(peer)),
                        }
                    },
                    _ => unreached(),
                }
            },
        }
    }

    /// Offers `stream`, with the peer whose packet waits for it, through the sending
    /// end of the channel of whoever accepts, and takes the event that this makes.
    pub fn offer<T>(&mut self, accept_tx: &mut OfferQueue<(T, PeerAddr)>, stream: T) -> (done: (
        DispatchAction<Vec<u8>>,
        Option<S>,
    ))
        requires
            old(self)@.phase is Offering,
        ensures
            final(self).allocated() == old(self).allocated(),
            final(accept_tx).backlog() == old(accept_tx).backlog(),
            exists|verdict: Verdict|
                {
                    let message = (stream, old(self)@.phase->Offering_0.peer);
                    let offers = old(accept_tx).offers();
                    &&& (DispatchStep { after: final(self)@, action: done.0@, released: done.1 })
                        == #[trigger] old(self)@.next(DispatchEvent::Offered(verdict), 0)
                    &&& final(accept_tx).offers() == offers.push((message, verdict))
                    &&& verdict_fits(offers, old(accept_tx).backlog(), verdict)
                },
    {
        let peer = match &self.phase {
            Phase::Offering(arrival) => arrival.peer,
            _ => unreached(),
        };
        let verdict = accept_tx.try_send((stream, peer));
        self.step_with(DispatchEvent::Offered(verdict), 0)
    }

    /// Finds out what serves a packet, as far as `session_conv` lets.
    fn resolve(&mut self, arrival: Arrival<Vec<u8>>, session_conv: Option<u32>) -> (action:
        DispatchAction<Vec<u8>>)
        ensures
            (DispatchStep { after: final(self)@, action: action@, released: None }) == old(
                self,
            )@.resolves(arrival@, session_conv),
            final(self).allocated() == old(self).allocated(),
    {
        let peer = arrival.peer;
        let conv: u32 = arrival.conv;
        match self.sessions.get_or_create(conv, arrival.sn, &peer, session_conv) {
            Resolution::Create => {
                self.phase = Phase::Creating(arrival);
                DispatchAction::Create { conv, peer }
            },
            Resolution::ReadConv => {
                self.phase = Phase::Resolving(arrival);
                DispatchAction::ReadConv { peer }
            },
            Resolution::Existing => {
                self.phase = Phase::Matching(arrival);
                DispatchAction::ReadConv { peer }
            },
        }
    }
}

/// The table of a dispatcher, and the numbers that it allocated, are those of its
/// manager, and the packet under way is the one that it holds.
proof fn dispatcher_shows_what_it_holds<S>(dispatcher: Dispatcher<S>)
    ensures
        dispatcher@.sessions == dispatcher.sessions@,
        dispatcher@.phase == dispatcher.phase@,
        dispatcher.allocated() == dispatcher.sessions.allocated(),
{
}

} // verus!
