//! What becomes of each packet and each other event, told by the bytes that came in and
//! by what is asked for in the end.

use crate::addr::PeerAddr;
use crate::channel::Verdict;
use crate::dispatcher::{Arrival, DispatchAction, DispatchEvent, DispatcherView};
use crate::dispatcher_laws::{dispatcher_inputs_fit, dispatcher_run, under_way, DispatchInput};
use vstd::prelude::*;

verus! {

/// A packet under way is the whole packet that came in: it has the same length and the
/// same bytes, but for its first four where those were all zero, which then hold the
/// number that was made up for it. Its peer is the one that sent it, and the numbers
/// that it is routed by are those that stand in it.
proof fn packet_under_way_is_whole<S>(
    dispatcher: DispatcherView<S>,
    packet: Seq<u8>,
    peer: PeerAddr,
    fresh: u32,
)
    requires
        packet.len() >= 24,
    ensures
        ({
            let first = dispatcher.next(DispatchEvent::Received { packet, peer }, fresh);
            let carried = packet[0] + 0x100 * packet[1] + 0x1_0000 * packet[2] + 0x100_0000
                * packet[3];
            &&& under_way(first.after.phase) matches Some(arrival)
            &&& arrival.peer == peer
            &&& arrival.packet.len() == packet.len()
            &&& forall|i: int| 4 <= i < packet.len() ==> #[trigger] arrival.packet[i] == packet[i]
            &&& carried != 0 ==> arrival.packet == packet && arrival.conv == carried
            &&& carried == 0 ==> arrival.conv == fresh && fresh == arrival.packet[0] + 0x100
                * arrival.packet[1] + 0x1_0000 * arrival.packet[2] + 0x100_0000 * arrival.packet[3]
            &&& arrival.sn == packet[12] + 0x100 * packet[13] + 0x1_0000 * packet[14] + 0x100_0000
                * packet[15]
        }),
{
    crate::header::stamped_packet_reads_back(packet, fresh);
    crate::header::stamping_writes_four_bytes(packet, fresh);
}

/// A packet of a peer without a session: a session is created for that peer, with the
/// number that the packet carries or, if that is zero, with the one made up for it. If
/// that fails nothing changes. Once it is created the peer has it and it is offered. If
/// it is taken over the packet is delivered to the peer's session, whole: every byte as
/// it came in, but for the first four where they were all zero, which then hold the
/// number made up for it. If it is refused the session goes and the table is as before.
/// `other` stands for what the later steps have no use for.
pub proof fn packet_of_a_new_peer<S>(
    dispatcher: DispatcherView<S>,
    packet: Seq<u8>,
    peer: PeerAddr,
    fresh: u32,
    session: S,
    verdict: Verdict,
    other: u32,
)
    requires
        dispatcher.phase is Idle,
        packet.len() >= 24,
        !dispatcher.sessions.contains_key(peer),
    ensures
        ({
            let carried = packet[0] + 0x100 * packet[1] + 0x1_0000 * packet[2] + 0x100_0000
                * packet[3];
            let first = dispatcher.next(DispatchEvent::Received { packet, peer }, fresh);
            let failed = first.after.next(DispatchEvent::Created(None), other);
            let created = first.after.next(DispatchEvent::Created(Some(session)), other);
            let offered = created.after.next(DispatchEvent::Offered(verdict), other);
            &&& dispatcher.expects(DispatchEvent::Received { packet, peer })
            &&& first.action is Create
            &&& first.action->Create_peer == peer
            &&& first.action->conv == (if carried == 0 {
                fresh as int
            } else {
                carried
            })
            &&& first.released is None
            &&& first.after.sessions == dispatcher.sessions
            &&& first.after.expects(DispatchEvent::Created(None))
            &&& first.after.expects(DispatchEvent::Created(Some(session)))
            &&& failed.action is AwaitNext
            &&& failed.released is None
            &&& failed.after == dispatcher
            &&& created.action == (DispatchAction::<Seq<u8>>::Offer { peer })
            &&& created.released is None
            &&& created.after.sessions == dispatcher.sessions.insert(peer, session)
            &&& created.after.phase is Offering
            &&& created.after.phase->Offering_0.peer == peer
            &&& created.after.expects(DispatchEvent::Offered(verdict))
            &&& offered.after.phase is Idle
            &&& verdict == Verdict::Taken ==> {
                let delivered = offered.action->packet;
                &&& offered.action is Deliver
                &&& offered.action->Deliver_peer == peer
                &&& delivered.len() == packet.len()
                &&& forall|i: int| 4 <= i < packet.len() ==> #[trigger] delivered[i] == packet[i]
                &&& carried != 0 ==> delivered == packet
                &&& carried == 0 ==> fresh == delivered[0] + 0x100 * delivered[1] + 0x1_0000
                    * delivered[2] + 0x100_0000 * delivered[3]
                &&& offered.released is None
                &&& offered.after.sessions == dispatcher.sessions.insert(peer, session)
            }
            &&& verdict != Verdict::Taken ==> {
                &&& offered.action is AwaitNext
                &&& offered.released == Some(session)
                &&& offered.after.sessions == dispatcher.sessions
            }
        }),
{
    packet_under_way_is_whole(dispatcher, packet, peer, fresh);
    assert(dispatcher.sessions.insert(peer, session).remove(peer) =~= dispatcher.sessions);
}

/// A packet of a peer with a session that is not a first one: the number of the session
/// is asked for, and the packet is delivered to the session, whole, exactly if that is
/// the number of the packet, or the one made up for it if it carries none. The table
/// does not change.
pub proof fn later_packet_of_a_known_peer<S>(
    dispatcher: DispatcherView<S>,
    packet: Seq<u8>,
    peer: PeerAddr,
    fresh: u32,
    session_conv: u32,
    other: u32,
)
    requires
        dispatcher.phase is Idle,
        packet.len() >= 24,
        dispatcher.sessions.contains_key(peer),
        packet[12] != 0 || packet[13] != 0 || packet[14] != 0 || packet[15] != 0,
    ensures
        ({
            let carried = packet[0] + 0x100 * packet[1] + 0x1_0000 * packet[2] + 0x100_0000
                * packet[3];
            let conv = if carried == 0 {
                fresh as int
            } else {
                carried
            };
            let first = dispatcher.next(DispatchEvent::Received { packet, peer }, fresh);
            let last = first.after.next(DispatchEvent::ConvRead(session_conv), other);
            &&& dispatcher.expects(DispatchEvent::Received { packet, peer })
            &&& first.action == (DispatchAction::<Seq<u8>>::ReadConv { peer })
            &&& first.released is None
            &&& first.after.sessions == dispatcher.sessions
            &&& first.after.expects(DispatchEvent::ConvRead(session_conv))
            &&& last.after == dispatcher
            &&& last.released is None
            &&& session_conv != conv ==> last.action is AwaitNext
            &&& session_conv == conv ==> {
                let delivered = last.action->packet;
                &&& last.action is Deliver
                &&& last.action->Deliver_peer == peer
                &&& delivered.len() == packet.len()
                &&& forall|i: int| 4 <= i < packet.len() ==> #[trigger] delivered[i] == packet[i]
                &&& carried != 0 ==> delivered == packet
                &&& carried == 0 ==> fresh == delivered[0] + 0x100 * delivered[1] + 0x1_0000
                    * delivered[2] + 0x100_0000 * delivered[3]
            }
        }),
{
    packet_under_way_is_whole(dispatcher, packet, peer, fresh);
}

/// A first packet of a peer whose session has the number of the packet, or the one made
/// up for it if it carries none: the number is asked for once more, and the packet is
/// delivered to the session, whole, exactly if it still is that number. The table does
/// not change.
pub proof fn first_packet_of_the_same_conversation<S>(
    dispatcher: DispatcherView<S>,
    packet: Seq<u8>,
    peer: PeerAddr,
    fresh: u32,
    session_conv: u32,
    again: u32,
    other: u32,
)
    requires
        dispatcher.phase is Idle,
        packet.len() >= 24,
        dispatcher.sessions.contains_key(peer),
        packet[12] == 0 && packet[13] == 0 && packet[14] == 0 && packet[15] == 0,
        session_conv == (if packet[0] == 0 && packet[1] == 0 && packet[2] == 0 && packet[3] == 0 {
            fresh as int
        } else {
            packet[0] + 0x100 * packet[1] + 0x1_0000 * packet[2] + 0x100_0000 * packet[3]
        }),
    ensures
        ({
            let carried = packet[0] + 0x100 * packet[1] + 0x1_0000 * packet[2] + 0x100_0000
                * packet[3];
            let first = dispatcher.next(DispatchEvent::Received { packet, peer }, fresh);
            let asked = first.after.next(DispatchEvent::ConvRead(session_conv), other);
            let last = asked.after.next(DispatchEvent::ConvRead(again), other);
            &&& dispatcher.expects(DispatchEvent::Received { packet, peer })
            &&& first.action == (DispatchAction::<Seq<u8>>::ReadConv { peer })
            &&& first.released is None
            &&& first.after.sessions == dispatcher.sessions
            &&& first.after.expects(DispatchEvent::ConvRead(session_conv))
            &&& asked.action == (DispatchAction::<Seq<u8>>::ReadConv { peer })
            &&& asked.released is None
            &&& asked.after.sessions == dispatcher.sessions
            &&& asked.after.expects(DispatchEvent::ConvRead(again))
            &&& last.after == dispatcher
            &&& last.released is None
            &&& again != session_conv ==> last.action is AwaitNext
            &&& again == session_conv ==> {
                let delivered = last.action->packet;
                &&& last.action is Deliver
                &&& last.action->Deliver_peer == peer
                &&& delivered.len() == packet.len()
                &&& forall|i: int| 4 <= i < packet.len() ==> #[trigger] delivered[i] == packet[i]
                &&& carried != 0 ==> delivered == packet
                &&& carried == 0 ==> fresh == delivered[0] + 0x100 * delivered[1] + 0x1_0000
                    * delivered[2] + 0x100_0000 * delivered[3]
            }
        }),
{
    packet_under_way_is_whole(dispatcher, packet, peer, fresh);
}

/// A first packet of a peer whose session has another number: a session with the number
/// of the packet, or with the one made up for it if it carries none, is created for
/// that peer. If that fails nothing changes. Once it is created it takes the place of
/// the old one, which is handed back to be closed, and is offered. If it is taken over
/// the packet is delivered to it, whole. If it is refused it is handed back too and the
/// peer has none.
pub proof fn first_packet_of_another_conversation<S>(
    dispatcher: DispatcherView<S>,
    packet: Seq<u8>,
    peer: PeerAddr,
    fresh: u32,
    session_conv: u32,
    session: S,
    verdict: Verdict,
    other: u32,
)
    requires
        dispatcher.phase is Idle,
        packet.len() >= 24,
        dispatcher.sessions.contains_key(peer),
        packet[12] == 0 && packet[13] == 0 && packet[14] == 0 && packet[15] == 0,
        session_conv != (if packet[0] == 0 && packet[1] == 0 && packet[2] == 0 && packet[3] == 0 {
            fresh as int
        } else {
            packet[0] + 0x100 * packet[1] + 0x1_0000 * packet[2] + 0x100_0000 * packet[3]
        }),
    ensures
        ({
            let carried = packet[0] + 0x100 * packet[1] + 0x1_0000 * packet[2] + 0x100_0000
                * packet[3];
            let first = dispatcher.next(DispatchEvent::Received { packet, peer }, fresh);
            let asked = first.after.next(DispatchEvent::ConvRead(session_conv), other);
            let failed = asked.after.next(DispatchEvent::Created(None), other);
            let created = asked.after.next(DispatchEvent::Created(Some(session)), other);
            let offered = created.after.next(DispatchEvent::Offered(verdict), other);
            &&& dispatcher.expects(DispatchEvent::Received { packet, peer })
            &&& first.action == (DispatchAction::<Seq<u8>>::ReadConv { peer })
            &&& first.released is None
            &&& first.after.sessions == dispatcher.sessions
            &&& first.after.expects(DispatchEvent::ConvRead(session_conv))
            &&& asked.action is Create
            &&& asked.action->Create_peer == peer
            &&& asked.action->conv == (if carried == 0 {
                fresh as int
            } else {
                carried
            })
            &&& asked.released is None
            &&& asked.after.sessions == dispatcher.sessions
            &&& asked.after.expects(DispatchEvent::Created(None))
            &&& asked.after.expects(DispatchEvent::Created(Some(session)))
            &&& failed.action is AwaitNext
            &&& failed.released is None
            &&& failed.after == dispatcher
            &&& created.action == (DispatchAction::<Seq<u8>>::Offer { peer })
            &&& created.released == Some(dispatcher.sessions[peer])
            &&& created.after.sessions == dispatcher.sessions.insert(peer, session)
            &&& created.after.phase is Offering
            &&& created.after.phase->Offering_0.peer == peer
            &&& created.after.expects(DispatchEvent::Offered(verdict))
            &&& offered.after.phase is Idle
            &&& verdict == Verdict::Taken ==> {
                let delivered = offered.action->packet;
                &&& offered.action is Deliver
                &&& offered.action->Deliver_peer == peer
                &&& delivered.len() == packet.len()
                &&& forall|i: int| 4 <= i < packet.len() ==> #[trigger] delivered[i] == packet[i]
                &&& carried != 0 ==> delivered == packet
                &&& carried == 0 ==> fresh == delivered[0] + 0x100 * delivered[1] + 0x1_0000
                    * delivered[2] + 0x100_0000 * delivered[3]
                &&& offered.released is None
                &&& offered.after.sessions == dispatcher.sessions.insert(peer, session)
            }
            &&& verdict != Verdict::Taken ==> {
                &&& offered.action is AwaitNext
                &&& offered.released == Some(session)
                &&& offered.after.sessions == dispatcher.sessions.remove(peer)
            }
        }),
{
    packet_under_way_is_whole(dispatcher, packet, peer, fresh);
    assert(dispatcher.sessions.insert(peer, session).remove(peer) =~= dispatcher.sessions.remove(
        peer,
    ));
}

/// When the session of a peer shut down, or when nothing could be read, the dispatcher
/// that waits for a packet can be told so. The session leaves the table and is handed
/// back, no other does, and the next packet is awaited at once. A failed read changes
/// nothing, and the next one is tried after a second.
pub proof fn dispatcher_goes_on_reading<S>(
    dispatcher: DispatcherView<S>,
    peer: PeerAddr,
    other: u32,
)
    requires
        dispatcher.phase is Idle,
    ensures
        ({
            let closed = dispatcher.next(DispatchEvent::PeerClosed(peer), other);
            let failed = dispatcher.next(DispatchEvent::RecvFailed, other);
            &&& dispatcher.expects(DispatchEvent::PeerClosed(peer))
            &&& closed.action == DispatchAction::<Seq<u8>>::AwaitNext
            &&& closed.released == dispatcher.sessions.get(peer)
            &&& closed.after.sessions == dispatcher.sessions.remove(peer)
            &&& closed.after.phase is Idle
            &&& dispatcher.expects(DispatchEvent::RecvFailed)
            &&& failed.action == (DispatchAction::<Seq<u8>>::Backoff { delay_ns: 1_000_000_000 })
            &&& failed.released is None
            &&& failed.after == dispatcher
        }),
{
}

/// The dispatcher stops reading for a while only if a read failed, and then for a
/// second. Each action leaves it waiting for its answer, or for the next event where it
/// has none.
pub proof fn only_a_failed_read_backs_off<S>(
    dispatcher: DispatcherView<S>,
    event: DispatchEvent<S, Seq<u8>>,
    fresh: u32,
    conv: u32,
    created: Option<S>,
    verdict: Verdict,
)
    requires
        dispatcher.expects(event),
    ensures
        ({
            let step = dispatcher.next(event, fresh);
            &&& step.action is Backoff <==> event is RecvFailed
            &&& step.action matches DispatchAction::Backoff { delay_ns } ==> delay_ns
                == 1_000_000_000
            &&& match step.action {
                DispatchAction::ReadConv { .. } => step.after.expects(
                    DispatchEvent::ConvRead(conv),
                ),
                DispatchAction::Create { .. } => step.after.expects(
                    DispatchEvent::Created(created),
                ),
                DispatchAction::Offer { .. } => step.after.expects(
                    DispatchEvent::Offered(verdict),
                ),
                _ => step.after.phase is Idle,
            }
        }),
{
}

/// Whatever a dispatcher is told, the packet under way is, whole, the one that came in
/// last, and its peer the one that sent it.
proof fn packet_under_way_came_in_whole<S>(inputs: Seq<DispatchInput<S>>) -> (last: int)
    requires
        dispatcher_inputs_fit(inputs),
        under_way(dispatcher_run(inputs).0.phase) is Some,
    ensures
        0 <= last < inputs.len(),
        inputs[last].event is Received,
        forall|i: int| last < i < inputs.len() ==> !((#[trigger] inputs[i]).event is Received),
        ({
            let received = inputs[last].event->packet;
            let carried = received[0] + 0x100 * received[1] + 0x1_0000 * received[2] + 0x100_0000
                * received[3];
            let arrival = under_way(dispatcher_run(inputs).0.phase)->0;
            &&& arrival.peer == inputs[last].event->peer
            &&& arrival.packet.len() == received.len()
            &&& forall|i: int|
                4 <= i < received.len() ==> #[trigger] arrival.packet[i] == received[i]
            &&& carried != 0 ==> arrival.packet == received
            &&& carried == 0 ==> inputs[last].fresh == arrival.packet[0] + 0x100
                * arrival.packet[1] + 0x1_0000 * arrival.packet[2] + 0x100_0000 * arrival.packet[3]
        }),
    decreases inputs.len(),
{
    let rest = inputs.drop_last();
    let input = inputs.last();
    let before = dispatcher_run(rest).0;
    if let DispatchEvent::Received { packet, peer } = input.event {
        packet_under_way_is_whole(before, packet, peer, input.fresh);
        inputs.len() - 1
    } else {
        let last = packet_under_way_came_in_whole(rest);
        assert(inputs[last] == rest[last]);
        assert forall|i: int| last < i < inputs.len() implies !((
        #[trigger] inputs[i]).event is Received) by {
            if i < inputs.len() - 1 {
                assert(inputs[i] == rest[i]);
            }
        }
        last
    }
}

/// Whatever a dispatcher is told, a packet that it delivers is the one that came in
/// last, to the peer that sent it, whole: of the same length, and with the same bytes
/// but for the first four where those were all zero, which then hold the number made up
/// for it.
pub proof fn delivered_packet_is_the_one_received<S>(inputs: Seq<DispatchInput<S>>)
    requires
        dispatcher_inputs_fit(inputs),
        inputs.len() > 0,
    ensures
        ({
            let input = inputs.last();
            let step = dispatcher_run(inputs.drop_last()).0.next(input.event, input.fresh);
            step.action matches DispatchAction::Deliver { peer, packet } ==> exists|last: int|
                {
                    let received = (#[trigger] inputs[last]).event->packet;
                    let carried = received[0] + 0x100 * received[1] + 0x1_0000 * received[2]
                        + 0x100_0000 * received[3];
                    &&& 0 <= last < inputs.len()
                    &&& inputs[last].event is Received
                    &&& forall|i: int|
                        last < i < inputs.len() ==> !((#[trigger] inputs[i]).event is Received)
                    &&& peer == inputs[last].event->peer
                    &&& packet.len() == received.len()
                    &&& forall|i: int|
                        4 <= i < received.len() ==> #[trigger] packet[i] == received[i]
                    &&& carried != 0 ==> packet == received
                    &&& carried == 0 ==> inputs[last].fresh == packet[0] + 0x100 * packet[1]
                        + 0x1_0000 * packet[2] + 0x100_0000 * packet[3]
                }
        }),
{
    let rest = inputs.drop_last();
    let input = inputs.last();
    let before = dispatcher_run(rest).0;
    if before.next(input.event, input.fresh).action is Deliver {
        let last = packet_under_way_came_in_whole(rest);
        assert(inputs[last] == rest[last]);
        assert forall|i: int| last < i < inputs.len() implies !((
        #[trigger] inputs[i]).event is Received) by {
            if i < inputs.len() - 1 {
                assert(inputs[i] == rest[i]);
            }
        }
    }
}

/// What contracts say of an event, of an action and of a packet under way, they say of
/// all of it: every byte of a packet and every other field.
pub proof fn nothing_is_left_out_of_sight<S>(
    event: DispatchEvent<S, Vec<u8>>,
    action: DispatchAction<Vec<u8>>,
    arrival: Arrival<Vec<u8>>,
)
    ensures
        match event {
            DispatchEvent::PeerClosed(peer) => event@ == DispatchEvent::<S, Seq<u8>>::PeerClosed(
                peer,
            ),
            DispatchEvent::RecvFailed => event@ == DispatchEvent::<S, Seq<u8>>::RecvFailed,
            DispatchEvent::Received { packet, peer } => event@ == (DispatchEvent::<
                S,
                Seq<u8>,
            >::Received { packet: packet@, peer }),
            DispatchEvent::ConvRead(conv) => event@ == DispatchEvent::<S, Seq<u8>>::ConvRead(conv),
            DispatchEvent::Created(session) => event@ == DispatchEvent::<S, Seq<u8>>::Created(
                session,
            ),
            DispatchEvent::Offered(verdict) => event@ == DispatchEvent::<S, Seq<u8>>::Offered(
                verdict,
            ),
        },
        match action@ {
            DispatchAction::AwaitNext => action == DispatchAction::<Vec<u8>>::AwaitNext,
            DispatchAction::Backoff { delay_ns } => action == (DispatchAction::<
                Vec<u8>,
            >::Backoff { delay_ns }),
            DispatchAction::ReadConv { peer } => action == (DispatchAction::<Vec<u8>>::ReadConv {
                peer,
            }),
            DispatchAction::Create { conv, peer } => action == (DispatchAction::<Vec<u8>>::Create {
                conv,
                peer,
            }),
            DispatchAction::Offer { peer } => action == (DispatchAction::<Vec<u8>>::Offer { peer }),
            DispatchAction::Deliver { peer, packet } => action is Deliver
                && action->Deliver_peer == peer && action->packet@ == packet,
        },
        arrival@ == (Arrival::<Seq<u8>> {
            packet: arrival.packet@,
            conv: arrival.conv,
            sn: arrival.sn,
            peer: arrival.peer,
        }),
{
}

/// How much a dispatcher can hold: 64 reports of closed sessions that wait for it, and
/// 2048 bytes in one packet.
pub proof fn dispatcher_limits()
    ensures
        crate::dispatcher::CLOSE_BACKLOG == 64,
        crate::dispatcher::PACKET_BUFFER_SIZE == 2048,
{
}

} // verus!
