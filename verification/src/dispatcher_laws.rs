//! What holds of every dispatcher, whatever it is told.

use crate::addr::PeerAddr;
use crate::channel::Verdict;
use crate::dispatcher::{
    arrival_of, Arrival, DispatchAction, DispatchEvent, DispatchStep, DispatcherView, Phase,
};
use vstd::prelude::*;

verus! {

/// A packet with a header, and what the header says.
pub open spec fn arrival_fits(arrival: Arrival<Seq<u8>>) -> bool {
    &&& crate::header::has_header(arrival.packet)
    &&& crate::header::conv_of(arrival.packet) == arrival.conv
    &&& crate::header::sn_of(arrival.packet) == arrival.sn
}

/// What holds of a dispatcher whenever it waits: a packet under way has a header
/// and is described by it, and the session that something is asked of is in the
/// table.
pub open spec fn dispatcher_fits<S>(dispatcher: DispatcherView<S>) -> bool {
    match dispatcher.phase {
        Phase::Idle => true,
        Phase::Creating(arrival) => arrival_fits(arrival),
        Phase::Resolving(arrival) => arrival_fits(arrival) && arrival.sn == 0
            && dispatcher.sessions.contains_key(arrival.peer),
        Phase::Offering(arrival) | Phase::Matching(arrival) => arrival_fits(arrival)
            && dispatcher.sessions.contains_key(arrival.peer),
    }
}

/// The peer that a step is about.
pub open spec fn peer_of_step<S>(
    dispatcher: DispatcherView<S>,
    event: DispatchEvent<S, Seq<u8>>,
) -> Option<PeerAddr> {
    match event {
        DispatchEvent::PeerClosed(peer) => Some(peer),
        DispatchEvent::Received { peer, .. } => Some(peer),
        DispatchEvent::RecvFailed => None,
        _ => match dispatcher.phase {
            Phase::Idle => None,
            Phase::Resolving(arrival) | Phase::Creating(arrival) | Phase::Offering(arrival)
            | Phase::Matching(arrival) => Some(arrival.peer),
        },
    }
}

/// What an arriving packet says of itself once it was given a conversation number.
proof fn arrival_of_packet_fits(packet: Seq<u8>, peer: PeerAddr, fresh: u32)
    requires
        crate::header::has_header(packet),
    ensures
        arrival_fits(arrival_of(packet, peer, fresh)),
        arrival_of(packet, peer, fresh).peer == peer,
        arrival_of(packet, peer, fresh).sn == crate::header::sn_of(packet),
        arrival_of(packet, peer, fresh).conv == (if crate::header::conv_of(packet) == 0 {
            fresh as nat
        } else {
            crate::header::conv_of(packet)
        }),
{
    crate::header::stamped_packet_reads_back(packet, fresh);
}

/// A dispatcher without sessions fits, and every step that answers what was asked
/// for leads from a dispatcher that fits to one that fits.
pub proof fn steps_keep_the_dispatcher_fit<S>(
    dispatcher: DispatcherView<S>,
    event: DispatchEvent<S, Seq<u8>>,
    fresh: u32,
)
    requires
        dispatcher_fits(dispatcher),
        dispatcher.expects(event),
    ensures
        dispatcher_fits(DispatcherView::<S> { sessions: Map::empty(), phase: Phase::Idle }),
        dispatcher_fits(dispatcher.next(event, fresh).after),
{
    if let DispatchEvent::Received { packet, peer } = event {
        arrival_of_packet_fits(packet, peer, fresh);
    }
}

/// Whenever something is asked of the session of a peer, the peer has a session.
pub proof fn actions_name_peers_with_a_session<S>(
    dispatcher: DispatcherView<S>,
    event: DispatchEvent<S, Seq<u8>>,
    fresh: u32,
)
    requires
        dispatcher_fits(dispatcher),
        dispatcher.expects(event),
    ensures
        ({
            let step = dispatcher.next(event, fresh);
            match step.action {
                DispatchAction::ReadConv { peer } | DispatchAction::Offer { peer }
                | DispatchAction::Deliver { peer, .. } => step.after.sessions.contains_key(peer),
                _ => true,
            }
        }),
{
}

/// A step changes nothing for any peer but the one that it is about.
pub proof fn other_peers_keep_their_sessions<S>(
    dispatcher: DispatcherView<S>,
    event: DispatchEvent<S, Seq<u8>>,
    fresh: u32,
    other: PeerAddr,
)
    requires
        dispatcher.expects(event),
        peer_of_step(dispatcher, event) != Some(other),
    ensures
        dispatcher.next(event, fresh).after.sessions.get(other) == dispatcher.sessions.get(other),
{
}

/// No session leaves the table without being handed back to be closed, and only a
/// session that left the table is handed back.
pub proof fn sessions_that_leave_are_handed_back<S>(
    dispatcher: DispatcherView<S>,
    event: DispatchEvent<S, Seq<u8>>,
    fresh: u32,
)
    requires
        dispatcher.expects(event),
    ensures
        ({
            let step = dispatcher.next(event, fresh);
            let before = dispatcher.sessions;
            let after = step.after.sessions;
            &&& forall|peer: PeerAddr| #[trigger]
                before.contains_key(peer) ==> after.get(peer) == before.get(peer) || step.released
                    == Some(before[peer])
            &&& step.released matches Some(session) ==> exists|peer: PeerAddr| #[trigger]
                before.contains_key(peer) && before[peer] == session && (!after.contains_key(peer)
                    || event == DispatchEvent::<S, Seq<u8>>::Created(Some(after[peer])))
        }),
{
}

/// A session comes into the table only by being created for its peer.
pub proof fn only_created_sessions_come_in<S>(
    dispatcher: DispatcherView<S>,
    event: DispatchEvent<S, Seq<u8>>,
    fresh: u32,
    peer: PeerAddr,
)
    requires
        dispatcher.expects(event),
        dispatcher.next(event, fresh).after.sessions.contains_key(peer),
        dispatcher.next(event, fresh).after.sessions.get(peer) != dispatcher.sessions.get(peer),
    ensures
        dispatcher.phase matches Phase::Creating(arrival) && arrival.peer == peer,
        event == DispatchEvent::<S, Seq<u8>>::Created(
            Some(dispatcher.next(event, fresh).after.sessions[peer]),
        ),
{
}

/// Every session that comes into the table is offered to whoever accepts, at once,
/// and no other is.
pub proof fn exactly_new_sessions_are_offered<S>(
    dispatcher: DispatcherView<S>,
    event: DispatchEvent<S, Seq<u8>>,
    fresh: u32,
    peer: PeerAddr,
)
    requires
        dispatcher.expects(event),
    ensures
        dispatcher.next(event, fresh).action == (DispatchAction::<Seq<u8>>::Offer { peer }) <==> (
        event is Created && event->Created_0 is Some && dispatcher.phase->Creating_0.peer == peer),
{
}

/// Once it is reported that the session of a peer shut down, the peer has none.
pub proof fn reported_peer_has_no_session<S>(
    dispatcher: DispatcherView<S>,
    peer: PeerAddr,
    fresh: u32,
)
    requires
        dispatcher.phase is Idle,
    ensures
        !dispatcher.next(DispatchEvent::PeerClosed(peer), fresh).after.sessions.contains_key(peer),
        dispatcher.next(DispatchEvent::PeerClosed(peer), fresh).released
            == dispatcher.sessions.get(peer),
{
}

/// A session is created with the conversation number, and for the peer, of the packet
/// that waits for it.
pub proof fn sessions_are_created_for_their_packet<S>(
    dispatcher: DispatcherView<S>,
    event: DispatchEvent<S, Seq<u8>>,
    fresh: u32,
)
    requires
        dispatcher_fits(dispatcher),
        dispatcher.expects(event),
    ensures
        dispatcher.next(event, fresh).action matches DispatchAction::Create { conv, peer } ==> {
            let phase = dispatcher.next(event, fresh).after.phase;
            &&& phase is Creating
            &&& phase->Creating_0.peer == peer
            &&& crate::header::conv_of(phase->Creating_0.packet) == conv
        },
{
    if let DispatchEvent::Received { packet, peer } = event {
        arrival_of_packet_fits(packet, peer, fresh);
    }
}

/// A packet is handed to a session only if the session was created for it and taken
/// over, or if it carries the conversation number that was just read from the
/// session.
pub proof fn packets_reach_only_their_conversation<S>(
    dispatcher: DispatcherView<S>,
    event: DispatchEvent<S, Seq<u8>>,
    fresh: u32,
)
    requires
        dispatcher_fits(dispatcher),
        dispatcher.expects(event),
    ensures
        dispatcher.next(event, fresh).action matches DispatchAction::Deliver { peer, packet } ==> {
            ||| dispatcher.phase matches Phase::Offering(arrival) && event->Offered_0 is Taken
                && arrival.peer == peer && arrival.packet == packet
            ||| dispatcher.phase matches Phase::Matching(arrival) && event->ConvRead_0
                == crate::header::conv_of(packet) && arrival.peer == peer && arrival.packet
                == packet
        },
{
}

/// The packet that waits for an answer, if one does.
pub open spec fn under_way(phase: Phase<Seq<u8>>) -> Option<Arrival<Seq<u8>>> {
    match phase {
        Phase::Idle => None,
        Phase::Resolving(arrival) | Phase::Creating(arrival) | Phase::Offering(arrival)
        | Phase::Matching(arrival) => Some(arrival),
    }
}

/// A packet under way, with its peer, is the one that came in last: coming in it is
/// given a conversation number where it has none, and each step after that keeps it
/// as it is or is done with it. What a step asks for is asked for the peer of that
/// packet, and what it hands on is that packet, to that peer.
pub proof fn packet_under_way_keeps_its_peer<S>(
    dispatcher: DispatcherView<S>,
    event: DispatchEvent<S, Seq<u8>>,
    fresh: u32,
)
    requires
        dispatcher.expects(event),
    ensures
        ({
            let step = dispatcher.next(event, fresh);
            let after = under_way(step.after.phase);
            let arrival = match event {
                DispatchEvent::Received { packet, peer } => Some(arrival_of(packet, peer, fresh)),
                _ => under_way(dispatcher.phase),
            };
            &&& event is Received ==> after == arrival
            &&& after is None || after == arrival
            &&& match step.action {
                DispatchAction::ReadConv { peer } | DispatchAction::Offer { peer }
                | DispatchAction::Create { peer, .. } => after == arrival && arrival is Some
                    && arrival->0.peer == peer,
                DispatchAction::Deliver { peer, packet } => arrival is Some && arrival->0.peer
                    == peer && arrival->0.packet == packet,
                _ => after is None,
            }
        }),
{
}

/// A conversation number is made up only for a packet that carries none.
pub proof fn fresh_conv_is_for_packets_without_one<S>(
    dispatcher: DispatcherView<S>,
    event: DispatchEvent<S, Seq<u8>>,
    fresh: u32,
    other: u32,
)
    requires
        event matches DispatchEvent::Received { packet, .. } ==> crate::header::conv_of(packet)
            != 0,
    ensures
        dispatcher.next(event, fresh) == dispatcher.next(event, other),
{
}

/// What comes back for what a dispatcher asks while it handles one packet.
pub ghost struct Answers<S> {
    /// The conversation number of the peer's session at the first look.
    pub first_conv: u32,
    /// The session that was created, if any.
    pub created: Option<S>,
    /// Whether the new session was taken over.
    pub verdict: Verdict,
    /// The conversation number of the peer's session at the second look.
    pub second_conv: u32,
}

/// What became of one packet.
pub ghost struct Outcome<S> {
    pub dispatcher: DispatcherView<S>,
    /// The peer whose session was handed bytes, and the bytes, if any were.
    pub delivered: Option<(PeerAddr, Seq<u8>)>,
    /// The sessions that left the table and have to be closed.
    pub released: Seq<S>,
}

impl<S> Answers<S> {
    /// The event that answers what is asked for in `phase`.
    pub open spec fn event(self, phase: Phase<Seq<u8>>) -> DispatchEvent<S, Seq<u8>> {
        match phase {
            Phase::Resolving(_) => DispatchEvent::ConvRead(self.first_conv),
            Phase::Creating(_) => DispatchEvent::Created(self.created),
            Phase::Offering(_) => DispatchEvent::Offered(self.verdict),
            Phase::Matching(_) => DispatchEvent::ConvRead(self.second_conv),
            Phase::Idle => DispatchEvent::RecvFailed,
        }
    }

    /// What comes of a packet after `step`, with what it asks for answered at most
    /// `questions` times.
    pub open spec fn settle(self, step: DispatchStep<S>, questions: nat) -> Outcome<S>
        decreases questions,
    {
        let released = match step.released {
            Some(session) => seq![session],
            None => Seq::empty(),
        };
        if step.after.phase is Idle || questions == 0 {
            Outcome {
                dispatcher: step.after,
                delivered: match step.action {
                    DispatchAction::Deliver { peer, packet } => Some((peer, packet)),
                    _ => None,
                },
                released,
            }
        } else {
            let rest = self.settle(
                step.after.next(self.event(step.after.phase), 0),
                (questions - 1) as nat,
            );
            Outcome { released: released + rest.released, ..rest }
        }
    }
}

/// Every packet is settled after at most three questions. A packet of a peer without
/// a session, and a first packet with another conversation number than the session
/// of its peer, starts a new session: it takes the place of the old one, which is
/// closed, and is given the packet once it is taken over; if nobody takes it over it
/// is closed too, and if it cannot be created nothing changes. Any other packet leaves
/// the table as it is, and is given to the session of its peer if it carries the
/// conversation number of that session.
pub proof fn every_packet_is_settled<S>(
    dispatcher: DispatcherView<S>,
    packet: Seq<u8>,
    peer: PeerAddr,
    fresh: u32,
    answers: Answers<S>,
)
    requires
        dispatcher.phase is Idle,
        crate::header::has_header(packet),
    ensures
        ({
            let before = dispatcher.sessions;
            let arrival = arrival_of(packet, peer, fresh);
            let starts_a_session = !before.contains_key(peer) || (arrival.sn == 0
                && answers.first_conv != arrival.conv);
            let old_session = match before.get(peer) {
                Some(session) => seq![session],
                None => Seq::empty(),
            };
            let first = dispatcher.next(DispatchEvent::Received { packet, peer }, fresh);
            let outcome = answers.settle(first, 3);
            &&& outcome.dispatcher.phase is Idle
            &&& starts_a_session ==> match answers.created {
                Some(session) if answers.verdict is Taken => {
                    &&& outcome.dispatcher.sessions == before.insert(peer, session)
                    &&& outcome.delivered == Some((peer, arrival.packet))
                    &&& outcome.released == old_session
                },
                Some(session) => {
                    &&& outcome.dispatcher.sessions == before.remove(peer)
                    &&& outcome.delivered is None
                    &&& outcome.released == old_session.push(session)
                },
                None => {
                    &&& outcome.dispatcher.sessions == before
                    &&& outcome.delivered is None
                    &&& outcome.released == Seq::<S>::empty()
                },
            }
            &&& !starts_a_session ==> {
                &&& outcome.dispatcher.sessions == before
                &&& outcome.delivered == (if answers.second_conv == arrival.conv {
                    Some((peer, arrival.packet))
                } else {
                    None
                })
                &&& outcome.released == Seq::<S>::empty()
            }
        }),
{
    reveal_with_fuel(Answers::settle, 4);
}

/// What a dispatcher is told, with the conversation number for a packet that has
/// none.
pub ghost struct DispatchInput<S> {
    pub event: DispatchEvent<S, Seq<u8>>,
    pub fresh: u32,
}

/// A dispatcher that started without sessions, after `inputs`, and all sessions that
/// it handed back to be closed, in order.
pub open spec fn dispatcher_run<S>(inputs: Seq<DispatchInput<S>>) -> (DispatcherView<S>, Seq<S>)
    decreases inputs.len(),
{
    if inputs.len() == 0 {
        (DispatcherView { sessions: Map::empty(), phase: Phase::Idle }, Seq::empty())
    } else {
        let (before, released) = dispatcher_run(inputs.drop_last());
        let step = before.next(inputs.last().event, inputs.last().fresh);
        (step.after, with_released(released, step.released))
    }
}

/// Each event of `inputs` answers what the dispatcher asked for before it.
pub open spec fn dispatcher_inputs_fit<S>(inputs: Seq<DispatchInput<S>>) -> bool
    decreases inputs.len(),
{
    inputs.len() > 0 ==> {
        &&& dispatcher_inputs_fit(inputs.drop_last())
        &&& dispatcher_run(inputs.drop_last()).0.expects(inputs.last().event)
    }
}

/// The sessions that were created during `inputs`, in order.
pub open spec fn created_sessions<S>(inputs: Seq<DispatchInput<S>>) -> Seq<S>
    decreases inputs.len(),
{
    if inputs.len() == 0 {
        Seq::empty()
    } else {
        let before = created_sessions(inputs.drop_last());
        match inputs.last().event {
            DispatchEvent::Created(Some(session)) => before.push(session),
            _ => before,
        }
    }
}

/// Some peer has `session`.
pub open spec fn in_table<S>(sessions: Map<PeerAddr, S>, session: S) -> bool {
    exists|peer: PeerAddr| #[trigger] sessions.contains_key(peer) && sessions[peer] == session
}

/// Each of the sessions in `created` either serves exactly one peer or was handed
/// back exactly once to be closed, and nothing else serves a peer or was handed back.
pub open spec fn accounted<S>(
    sessions: Map<PeerAddr, S>,
    created: Seq<S>,
    released: Seq<S>,
) -> bool {
    &&& forall|session: S| #[trigger]
        created.contains(session) <==> in_table(sessions, session) || released.contains(session)
    &&& forall|session: S| #[trigger]
        in_table(sessions, session) ==> !released.contains(session)
    &&& forall|a: PeerAddr, b: PeerAddr| #[trigger]
        sessions.contains_key(a) && #[trigger] sessions.contains_key(b) && sessions[a]
            == sessions[b] ==> a == b
    &&& released.no_duplicates()
}

/// The sessions handed back so far, and the one that the step gave back, if any.
pub open spec fn with_released<S>(released: Seq<S>, session: Option<S>) -> Seq<S> {
    match session {
        Some(session) => released.push(session),
        None => released,
    }
}

proof fn pushed_seq_contains<S>(s: Seq<S>, pushed: S)
    ensures
        forall|x: S| #[trigger] s.push(pushed).contains(x) <==> s.contains(x) || x == pushed,
{
    assert forall|x: S| #[trigger] s.push(pushed).contains(x) <==> s.contains(x) || x == pushed by {
        if s.contains(x) {
            let i = choose|i: int| 0 <= i < s.len() && s[i] == x;
            assert(s.push(pushed)[i] == x);
        }
        if x == pushed {
            assert(s.push(pushed)[s.len() as int] == x);
        }
    }
}

/// A session that leaves the table and is handed back stays accounted for.
proof fn removal_is_accounted<S>(
    sessions: Map<PeerAddr, S>,
    created: Seq<S>,
    released: Seq<S>,
    peer: PeerAddr,
)
    requires
        accounted(sessions, created, released),
    ensures
        accounted(
            sessions.remove(peer),
            created,
            with_released(released, sessions.get(peer)),
        ),
{
    let after = sessions.remove(peer);
    if sessions.contains_key(peer) {
        let gone = sessions[peer];
        pushed_seq_contains(released, gone);
        assert(in_table(sessions, gone));
        assert forall|session: S| #[trigger] in_table(after, session) <==> in_table(
            sessions,
            session,
        ) && session != gone by {
            if in_table(sessions, session) && session != gone {
                let other = choose|other: PeerAddr| #[trigger]
                    sessions.contains_key(other) && sessions[other] == session;
                assert(after.contains_key(other));
            }
        }
    } else {
        assert(after =~= sessions);
    }
}

/// A new session that comes into the table stays accounted for, and so does the one
/// that it replaces.
proof fn insertion_is_accounted<S>(
    sessions: Map<PeerAddr, S>,
    created: Seq<S>,
    released: Seq<S>,
    peer: PeerAddr,
    new: S,
)
    requires
        accounted(sessions, created, released),
        !created.contains(new),
    ensures
        accounted(
            sessions.insert(peer, new),
            created.push(new),
            with_released(released, sessions.get(peer)),
        ),
{
    removal_is_accounted(sessions, created, released, peer);
    let without = sessions.remove(peer);
    let after = sessions.insert(peer, new);
    pushed_seq_contains(created, new);
    assert forall|session: S| #[trigger] in_table(after, session) <==> in_table(without, session)
        || session == new by {
        if in_table(after, session) {
            let other = choose|other: PeerAddr| #[trigger]
                after.contains_key(other) && after[other] == session;
            if other != peer {
                assert(without.contains_key(other));
            }
        }
        if in_table(without, session) {
            let other = choose|other: PeerAddr| #[trigger]
                without.contains_key(other) && without[other] == session;
            assert(after.contains_key(other));
        }
        if session == new {
            assert(after.contains_key(peer));
        }
    }
}

/// Whatever a dispatcher is told, it fits, and sessions are neither lost nor kept
/// twice: each session that was created either serves exactly one peer or was
/// handed back exactly once to be closed, and nothing else serves a peer or was
/// handed back.
pub proof fn sessions_serve_one_peer_or_were_handed_back<S>(inputs: Seq<DispatchInput<S>>)
    requires
        dispatcher_inputs_fit(inputs),
        created_sessions(inputs).no_duplicates(),
    ensures
        dispatcher_fits(dispatcher_run(inputs).0),
        accounted(
            dispatcher_run(inputs).0.sessions,
            created_sessions(inputs),
            dispatcher_run(inputs).1,
        ),
    decreases inputs.len(),
{
    if inputs.len() > 0 {
        let rest = inputs.drop_last();
        let created0 = created_sessions(rest);
        let created = created_sessions(inputs);
        assert(created0 =~= created.take(created0.len() as int));
        sessions_serve_one_peer_or_were_handed_back(rest);
        let (before, released0) = dispatcher_run(rest);
        let event = inputs.last().event;
        steps_keep_the_dispatcher_fit(before, event, inputs.last().fresh);
        match (before.phase, event) {
            (_, DispatchEvent::PeerClosed(peer)) => {
                removal_is_accounted(before.sessions, created0, released0, peer);
            },
            (Phase::Offering(arrival), DispatchEvent::Offered(verdict)) if !(
            verdict is Taken) => {
                removal_is_accounted(before.sessions, created0, released0, arrival.peer);
            },
            (Phase::Creating(arrival), DispatchEvent::Created(Some(session))) => {
                assert(created.last() == session);
                insertion_is_accounted(
                    before.sessions,
                    created0,
                    released0,
                    arrival.peer,
                    session,
                );
            },
            _ => {},
        }
    }
}

/// The packet that came in last during `inputs`, as it goes on from there.
pub open spec fn last_arrival<S>(inputs: Seq<DispatchInput<S>>) -> Option<Arrival<Seq<u8>>>
    decreases inputs.len(),
{
    if inputs.len() == 0 {
        None
    } else {
        match inputs.last().event {
            DispatchEvent::Received { packet, peer } => Some(
                arrival_of(packet, peer, inputs.last().fresh),
            ),
            _ => last_arrival(inputs.drop_last()),
        }
    }
}

/// The sessions that were created during `inputs`, in order, each with the peer of the
/// packet that came in last before it.
pub open spec fn created_for<S>(inputs: Seq<DispatchInput<S>>) -> Seq<(PeerAddr, S)>
    decreases inputs.len(),
{
    if inputs.len() == 0 {
        Seq::empty()
    } else {
        let before = created_for(inputs.drop_last());
        match inputs.last().event {
            DispatchEvent::Created(Some(session)) => before.push(
                (last_arrival(inputs.drop_last())->0.peer, session),
            ),
            _ => before,
        }
    }
}

/// Whatever a dispatcher is told, a packet that waits for an answer is the one that
/// came in last.
pub proof fn packet_under_way_came_in_last<S>(inputs: Seq<DispatchInput<S>>)
    requires
        dispatcher_inputs_fit(inputs),
    ensures
        under_way(dispatcher_run(inputs).0.phase) is None || under_way(
            dispatcher_run(inputs).0.phase,
        ) == last_arrival(inputs),
    decreases inputs.len(),
{
    if inputs.len() > 0 {
        packet_under_way_came_in_last(inputs.drop_last());
    }
}

/// Whatever a dispatcher is told, the session that serves a peer was created for that
/// peer: when it was created, the packet that came in last was one of that peer.
pub proof fn sessions_serve_the_peer_they_were_created_for<S>(
    inputs: Seq<DispatchInput<S>>,
    peer: PeerAddr,
)
    requires
        dispatcher_inputs_fit(inputs),
        dispatcher_run(inputs).0.sessions.contains_key(peer),
    ensures
        created_for(inputs).contains((peer, dispatcher_run(inputs).0.sessions[peer])),
    decreases inputs.len(),
{
    if inputs.len() > 0 {
        let rest = inputs.drop_last();
        let before = dispatcher_run(rest).0;
        packet_under_way_came_in_last(rest);
        if before.sessions.contains_key(peer) {
            sessions_serve_the_peer_they_were_created_for(rest, peer);
        }
        if let DispatchEvent::Created(Some(session)) = inputs.last().event {
            pushed_seq_contains(created_for(rest), (last_arrival(rest)->0.peer, session));
        }
    }
}

/// If each session is created so that it reports the peer that it is created for, then
/// the session that serves a peer reports that peer. `reports` tells which peer the
/// shutdown of a session is reported for.
pub proof fn sessions_report_the_peer_they_serve<S>(
    inputs: Seq<DispatchInput<S>>,
    reports: spec_fn(S) -> Option<PeerAddr>,
)
    requires
        dispatcher_inputs_fit(inputs),
        forall|i: int|
            0 <= i < created_for(inputs).len() ==> reports((#[trigger] created_for(inputs)[i]).1)
                == Some(created_for(inputs)[i].0),
    ensures
        forall|peer: PeerAddr| #[trigger]
            dispatcher_run(inputs).0.sessions.contains_key(peer) ==> reports(
                dispatcher_run(inputs).0.sessions[peer],
            ) == Some(peer),
{
    assert forall|peer: PeerAddr| #[trigger]
        dispatcher_run(inputs).0.sessions.contains_key(peer) implies reports(
        dispatcher_run(inputs).0.sessions[peer],
    ) == Some(peer) by {
        sessions_serve_the_peer_they_were_created_for(inputs, peer);
    }
}

/// If each session that is handed back is closed, then every session that was created
/// and serves no peer is closed. `closed` tells whether a session is.
pub proof fn sessions_without_a_peer_are_closed<S>(
    inputs: Seq<DispatchInput<S>>,
    closed: spec_fn(S) -> bool,
)
    requires
        dispatcher_inputs_fit(inputs),
        created_sessions(inputs).no_duplicates(),
        forall|i: int|
            0 <= i < dispatcher_run(inputs).1.len() ==> closed(
                #[trigger] dispatcher_run(inputs).1[i],
            ),
    ensures
        forall|session: S| #[trigger]
            created_sessions(inputs).contains(session) && !in_table(
                dispatcher_run(inputs).0.sessions,
                session,
            ) ==> closed(session),
{
    sessions_serve_one_peer_or_were_handed_back(inputs);
}

/// What became of the sessions that were offered during `inputs`, in order.
pub open spec fn verdicts<S>(inputs: Seq<DispatchInput<S>>) -> Seq<Verdict>
    decreases inputs.len(),
{
    if inputs.len() == 0 {
        Seq::empty()
    } else {
        match inputs.last().event {
            DispatchEvent::Offered(verdict) => verdicts(inputs.drop_last()).push(verdict),
            _ => verdicts(inputs.drop_last()),
        }
    }
}

/// What was offered to whoever accepts during `inputs`, in order, and what became of
/// it, where `stream(session)` is offered for a session.
pub open spec fn offers_run<S, T>(
    inputs: Seq<DispatchInput<S>>,
    stream: spec_fn(S) -> T,
) -> Seq<((T, PeerAddr), Verdict)>
    decreases inputs.len(),
{
    if inputs.len() == 0 {
        Seq::empty()
    } else {
        let rest = inputs.drop_last();
        match inputs.last().event {
            DispatchEvent::Offered(verdict) => {
                let before = dispatcher_run(rest).0;
                let peer = under_way(before.phase)->0.peer;
                offers_run(rest, stream).push(((stream(before.sessions[peer]), peer), verdict))
            },
            _ => offers_run(rest, stream),
        }
    }
}

/// The streams of sessions, each with the peer that its session was created for.
pub open spec fn streams_of<S, T>(
    created: Seq<(PeerAddr, S)>,
    stream: spec_fn(S) -> T,
) -> Seq<(T, PeerAddr)> {
    created.map_values(|session: (PeerAddr, S)| (stream(session.1), session.0))
}

/// Whatever a dispatcher is told, every session that is created is offered exactly
/// once, in order and before anything else happens, with the peer that it was created
/// for, and nothing else is offered: the offer with number `i` is that of the session
/// with number `i`, and gets the verdict with number `i`.
pub proof fn new_sessions_are_offered_once_and_in_order<S, T>(
    inputs: Seq<DispatchInput<S>>,
    stream: spec_fn(S) -> T,
)
    requires
        dispatcher_inputs_fit(inputs),
    ensures
        ({
            let dispatcher = dispatcher_run(inputs).0;
            let created = created_for(inputs);
            let offers = offers_run(inputs, stream);
            &&& offers.len() == verdicts(inputs).len()
            &&& offers.len() <= created.len()
            &&& forall|i: int|
                0 <= i < offers.len() ==> #[trigger] offers[i] == (
                    streams_of(created, stream)[i],
                    verdicts(inputs)[i],
                )
            &&& match dispatcher.phase {
                Phase::Offering(arrival) => {
                    &&& created.len() == offers.len() + 1
                    &&& dispatcher.sessions.contains_key(arrival.peer)
                    &&& created.last() == (arrival.peer, dispatcher.sessions[arrival.peer])
                },
                _ => created.len() == offers.len(),
            }
        }),
    decreases inputs.len(),
{
    if inputs.len() > 0 {
        new_sessions_are_offered_once_and_in_order(inputs.drop_last(), stream);
        packet_under_way_came_in_last(inputs.drop_last());
    }
}

} // verus!
