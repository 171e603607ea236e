//! What the updater and the I/O task of a session do, told by what they see and by what
//! comes of it.

use crate::session::{
    adopted_conv, updater_next, SessionView, SocketStatus, Updater, UpdaterAction, UpdaterEvent,
};
use vstd::prelude::*;

verus! {

/// The updater waits for exactly as long as the update said, and for ten milliseconds
/// if the update failed. The session stays as it is, and the updater can be woken,
/// whatever became of the session meanwhile, `now`.
pub proof fn updater_waits_as_long_as_it_is_told(
    session: SessionView,
    next_ns: u128,
    now: SessionView,
)
    ensures
        ({
            let (updater, after, action) = updater_next(
                session,
                UpdaterEvent::Updated(Some(next_ns)),
            );
            &&& action == (UpdaterAction::Wait { delay_ns: next_ns })
            &&& after == session
            &&& updater.expects(now, UpdaterEvent::Woken)
        }),
        ({
            let (updater, after, action) = updater_next(session, UpdaterEvent::Updated(None));
            &&& action == (UpdaterAction::Wait { delay_ns: 10_000_000 })
            &&& after == session
            &&& updater.expects(now, UpdaterEvent::Woken)
        }),
{
}

/// A server session that was idle for longer than its expiry time is closed or shut
/// down there and then, and one that was idle for longer than twice that is shut down
/// at once, whatever there is left to send.
pub proof fn idle_server_session_ends(session: SessionView, status: SocketStatus)
    requires
        session.session_close_notifier is Some,
        status.idle_ns > session.session_expire_ns,
    ensures
        ({
            let (_, after, action) = updater_next(session, UpdaterEvent::Inspected(status));
            &&& after.closed || action == UpdaterAction::CloseSocket
            &&& status.idle_ns > 2 * session.session_expire_ns ==> action
                == UpdaterAction::CloseSocket
            &&& action != UpdaterAction::CloseSocket ==> {
                &&& updater_next(after, UpdaterEvent::Woken).2 == UpdaterAction::CloseSocket
                &&& action == (UpdaterAction::Update { flush: status.need_flush })
            }
        }),
{
}

/// Looking at the socket shuts a session down exactly if the session is closed and has
/// nothing left to send, or is a server session that was idle for longer than twice its
/// expiry time. Otherwise the socket is updated, after a flush exactly if its window is
/// full, and the session is closed exactly if it was already or if it is a server
/// session that was idle for longer than its expiry time. Nothing else about the
/// session changes, and what is asked for can be answered, whatever became of the
/// session meanwhile, `now`.
pub proof fn inspection_decides(
    session: SessionView,
    status: SocketStatus,
    updated: Option<u128>,
    now: SessionView,
)
    ensures
        ({
            let (updater, after, action) = updater_next(session, UpdaterEvent::Inspected(status));
            let ends = (session.closed && status.can_close) || (session.session_close_notifier
                is Some && status.idle_ns > 2 * session.session_expire_ns);
            let idle = session.session_close_notifier is Some && status.idle_ns
                > session.session_expire_ns;
            &&& ends ==> {
                &&& action == UpdaterAction::CloseSocket
                &&& after == session
                &&& updater.expects(now, UpdaterEvent::SocketClosed)
            }
            &&& !ends ==> {
                &&& action == (UpdaterAction::Update { flush: status.need_flush })
                &&& after.closed == (session.closed || idle)
                &&& after.session_expire_ns == session.session_expire_ns
                &&& after.session_close_notifier == session.session_close_notifier
                &&& updater.expects(now, UpdaterEvent::Updated(updated))
            }
        }),
{
}

/// When its task starts and whenever it is woken, the updater shuts a closed session
/// down and looks at the socket of an open one. `now` is whatever becomes of the session
/// meanwhile.
pub proof fn woken_updater_looks_unless_closed(session: SessionView, now: SessionView)
    ensures
        forall|event: UpdaterEvent|
            event == UpdaterEvent::Started || event == UpdaterEvent::Woken ==> {
                let (updater, after, action) = #[trigger] updater_next(session, event);
                &&& after == session
                &&& session.closed ==> action == UpdaterAction::CloseSocket && updater.expects(
                    now,
                    UpdaterEvent::SocketClosed,
                )
                &&& !session.closed ==> action == UpdaterAction::Inspect && updater
                    == Updater::Inspecting
            },
        Updater::Starting.expects(session, UpdaterEvent::Started),
{
}

/// What the updater sees of the socket is refused only where the expiry time of a
/// server session that was idle for longer cannot be doubled: a time span holds at most
/// as many seconds as 64 bits count, and a billionth less than one more.
pub proof fn only_an_expiry_out_of_range_is_refused(session: SessionView, status: SocketStatus)
    ensures
        Updater::Inspecting.expects(session, UpdaterEvent::Inspected(status)) <==> {
            ||| session.session_close_notifier is None
            ||| status.idle_ns <= session.session_expire_ns
            ||| session.closed && status.can_close
            ||| 2 * session.session_expire_ns < 0x1_0000_0000_0000_0000 * 1_000_000_000
        },
        session.expiry_in_range(status) <==> Updater::Inspecting.expects(
            session,
            UpdaterEvent::Inspected(status),
        ),
{
}

/// Once its socket is closed, a server session is reported to its listener under its
/// own peer; then it is closed, its I/O task is cancelled and the updater returns. A
/// client session goes the same way with nobody to report to. `now` is whatever becomes
/// of the session meanwhile.
pub proof fn closed_socket_leads_to_the_end(session: SessionView, now: SessionView)
    ensures
        ({
            let (updater, after, action) = updater_next(session, UpdaterEvent::SocketClosed);
            match session.session_close_notifier {
                Some(peer) => {
                    let (cancelling, closed, cancel) = updater_next(after, UpdaterEvent::Notified);
                    let (_, left, finish) = updater_next(closed, UpdaterEvent::IoCancelled);
                    &&& action == (UpdaterAction::NotifyClosed { peer })
                    &&& after == session
                    &&& updater.expects(now, UpdaterEvent::Notified)
                    &&& cancel == UpdaterAction::CancelIo
                    &&& closed.closed
                    &&& closed.session_expire_ns == session.session_expire_ns
                    &&& closed.session_close_notifier == Some(peer)
                    &&& cancelling.expects(now, UpdaterEvent::IoCancelled)
                    &&& finish == UpdaterAction::Finish
                    &&& left == closed
                },
                None => {
                    let (_, left, finish) = updater_next(after, UpdaterEvent::IoCancelled);
                    &&& action == UpdaterAction::CancelIo
                    &&& after.closed
                    &&& after.session_expire_ns == session.session_expire_ns
                    &&& after.session_close_notifier is None
                    &&& updater.expects(now, UpdaterEvent::IoCancelled)
                    &&& finish == UpdaterAction::Finish
                    &&& left == after
                },
            }
        }),
{
}

/// The listener is told of a session only under the session's own peer, and only once
/// the socket is closed; the I/O task is cancelled only after that; a session that is
/// open and not idle for too long is never shut down.
pub proof fn each_action_has_its_cause(session: SessionView, event: UpdaterEvent)
    ensures
        ({
            let action = updater_next(session, event).2;
            &&& action matches UpdaterAction::NotifyClosed { peer } ==> event
                == UpdaterEvent::SocketClosed && session.session_close_notifier == Some(peer)
            &&& action == UpdaterAction::CancelIo ==> event == UpdaterEvent::Notified || (event
                == UpdaterEvent::SocketClosed && session.session_close_notifier is None)
            &&& action == UpdaterAction::CloseSocket && !session.closed ==> {
                &&& event matches UpdaterEvent::Inspected(status)
                &&& session.session_close_notifier is Some
                &&& status.idle_ns > 2 * session.session_expire_ns
            }
            &&& action is Wait <==> event is Updated
            &&& action is Finish <==> event is IoCancelled
            &&& action is Inspect ==> !session.closed
        }),
{
}

/// Asking a session to close closes it and changes nothing else about it, and not
/// asking changes nothing. A client session is one without a peer to report.
pub proof fn closing_only_closes(session: SessionView)
    ensures
        ({
            let asked = session.closed_if(true);
            &&& asked.closed
            &&& asked.session_expire_ns == session.session_expire_ns
            &&& asked.session_close_notifier == session.session_close_notifier
        }),
        session.closed_if(false) == session,
        session.is_client() <==> session.session_close_notifier is None,
{
}

/// One round of an open session that was not idle for too long: it is looked at, its
/// full window is flushed, it is updated, and after exactly the time that the update
/// said it is looked at again, still the same.
pub proof fn open_session_is_driven_round_by_round(
    session: SessionView,
    status: SocketStatus,
    next_ns: u128,
)
    requires
        !session.closed,
        session.session_close_notifier is None || status.idle_ns <= session.session_expire_ns,
    ensures
        ({
            let (inspecting, seen, inspect) = updater_next(session, UpdaterEvent::Woken);
            let (updating, kept, update) = updater_next(seen, UpdaterEvent::Inspected(status));
            let (waiting, waited, wait) = updater_next(kept, UpdaterEvent::Updated(Some(next_ns)));
            &&& inspect == UpdaterAction::Inspect
            &&& inspecting.expects(seen, UpdaterEvent::Inspected(status))
            &&& update == (UpdaterAction::Update { flush: status.need_flush })
            &&& updating.expects(kept, UpdaterEvent::Updated(Some(next_ns)))
            &&& wait == (UpdaterAction::Wait { delay_ns: next_ns })
            &&& waiting.expects(waited, UpdaterEvent::Woken)
            &&& waited == session
        }),
{
}

/// The conversation number that a socket is given before a packet goes in: none while
/// the socket waits for one or has that of the packet already, and otherwise the one
/// that stands in the first four bytes of the packet.
pub proof fn client_takes_the_number_of_its_packet(status: SocketStatus, packet: Seq<u8>)
    ensures
        ({
            let set_conv = adopted_conv(status, crate::header::conv_of(packet));
            let carried = packet[0] + 0x100 * packet[1] + 0x1_0000 * packet[2] + 0x100_0000
                * packet[3];
            &&& status.waiting_conv || status.conv == carried ==> set_conv is None
            &&& !status.waiting_conv && status.conv != carried ==> set_conv is Some && set_conv->0
                == carried
        }),
{
}

/// How much a session can hold: 64 packets that wait for its I/O task, and 5536 bytes in
/// one that its own socket reads.
pub proof fn session_limits()
    ensures
        crate::session::INPUT_BACKLOG == 64,
        crate::session::INPUT_BUFFER_SIZE == 5536,
{
}

} // verus!
