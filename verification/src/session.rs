//! One KCP session: what its I/O task does with incoming bytes, and when its
//! updater drives, expires and shuts down the KCP machine.

use crate::addr::PeerAddr;
use crate::header::get_conv;
use vstd::prelude::*;

verus! {

/// How many packets of a listener can wait for the I/O task.
pub const INPUT_BACKLOG: usize = 64;

/// The longest packet that the I/O task reads, in bytes.
pub const INPUT_BUFFER_SIZE: usize = 5536;

/// The longest time span that can be told, in nanoseconds.
pub const MAX_SPAN_NS: u128 = 18_446_744_073_709_551_615_999_999_999;

/// How long the updater waits after a failed update, in nanoseconds.
pub const UPDATE_RETRY_NS: u128 = 10_000_000;

/// What a session reads of its KCP socket, all at one moment.
#[derive(Clone, Copy, Debug, PartialEq, Eq, Structural)]
pub struct SocketStatus {
    /// The conversation number of the socket.
    pub conv: u32,
    /// The socket has no conversation number yet and takes that of the next packet.
    pub waiting_conv: bool,
    /// Nothing is left to send.
    pub can_close: bool,
    /// The send window is full.
    pub need_flush: bool,
    /// Nanoseconds since the last packet went in.
    pub idle_ns: u128,
}

/// The state that the tasks of one session share.
#[derive(Debug)]
pub struct KcpSession {
    closed: bool,
    session_expire_ns: u128,
    session_close_notifier: Option<PeerAddr>,
}

/// What there is to know of a session.
pub ghost struct SessionView {
    /// The session was asked to close, expired or is shut down.
    pub closed: bool,
    /// After how long without a packet a server session expires.
    pub session_expire_ns: u128,
    /// The peer to report when the session is shut down; only a server session
    /// has one.
    pub session_close_notifier: Option<PeerAddr>,
}

impl SessionView {
    /// A session that belongs to no listener.
    pub open spec fn is_client(self) -> bool {
        self.session_close_notifier is None
    }

    /// The same session, asked to close where `close` holds.
    pub open spec fn closed_if(self, close: bool) -> SessionView {
        SessionView { closed: self.closed || close, ..self }
    }

    /// A server session that was idle for longer than it may be.
    pub open spec fn expired(self, status: SocketStatus) -> bool {
        !self.is_client() && status.idle_ns > self.session_expire_ns
    }

    /// A server session that was idle for longer than twice what it may be.
    pub open spec fn abandoned(self, status: SocketStatus) -> bool {
        !self.is_client() && status.idle_ns > 2 * self.session_expire_ns
    }

    /// The updater has to leave its loop: either the session is closed and has
    /// nothing left to send, or its peer is long gone.
    pub open spec fn stops(self, status: SocketStatus) -> bool {
        self.closed && status.can_close || self.abandoned(status)
    }

    /// Twice the expiry time can be told, or there is no need to tell it.
    pub open spec fn expiry_in_range(self, status: SocketStatus) -> bool {
        self.expired(status) && !(self.closed && status.can_close) ==> 2 * self.session_expire_ns
            <= MAX_SPAN_NS
    }
}

impl View for KcpSession {
    type V = SessionView;

    closed spec fn view(&self) -> SessionView {
        SessionView {
            closed: self.closed,
            session_expire_ns: self.session_expire_ns,
            session_close_notifier: self.session_close_notifier,
        }
    }
}

/// What has to happen outside after a call on a session.
#[derive(Clone, Copy, Debug, PartialEq, Eq, Structural)]
pub enum SessionSignal {
    /// Wake the updater if it waits, or let its next wait end at once.
    WakeUpdater,
}

/// Where the updater of a session stands.
#[derive(Clone, Copy, Debug, PartialEq, Eq, Structural)]
pub enum Updater {
    /// It has not looked at the session yet.
    Starting,
    /// It asked for the status of the socket.
    Inspecting,
    /// It asked for an update.
    Updating,
    /// It sleeps.
    Waiting,
    /// It asked to close the socket.
    Closing,
    /// It asked to report the closed session.
    Notifying,
    /// It asked to cancel the I/O task.
    Cancelling,
    /// It has returned.
    Finished,
}

/// What the updater is told.
#[derive(Clone, Copy, Debug, PartialEq, Eq, Structural)]
pub enum UpdaterEvent {
    /// The updater's task runs.
    Started,
    /// The socket was locked and read.
    Inspected(SocketStatus),
    /// The socket was updated: nanoseconds to the next update, or nothing if the
    /// update failed.
    Updated(Option<u128>),
    /// The wait is over, or somebody woke the updater.
    Woken,
    /// The socket was closed.
    SocketClosed,
    /// The closed session was reported, or could not be.
    Notified,
    /// The I/O task was cancelled.
    IoCancelled,
}

/// What the updater wants done next.
#[derive(Clone, Copy, Debug, PartialEq, Eq, Structural)]
pub enum UpdaterAction {
    /// Lock the socket and read its status.
    Inspect,
    /// With the socket still locked, flush it where `flush` holds, whatever comes
    /// of it, and then update it.
    Update { flush: bool },
    /// Wait until `delay_ns` nanoseconds are over or somebody wakes the updater.
    Wait { delay_ns: u128 },
    /// Close the socket, so that pending reads and writes end.
    CloseSocket,
    /// Tell the listener that the session of `peer` is gone.
    NotifyClosed { peer: PeerAddr },
    /// Cancel the I/O task.
    CancelIo,
    /// Return.
    Finish,
}

impl Updater {
    /// The event answers what the updater last asked for.
    pub open spec fn expects(self, session: SessionView, event: UpdaterEvent) -> bool {
        match (self, event) {
            (Updater::Starting, UpdaterEvent::Started) => true,
            (Updater::Inspecting, UpdaterEvent::Inspected(status)) => session.expiry_in_range(
                status,
            ),
            (Updater::Updating, UpdaterEvent::Updated(_)) => true,
            (Updater::Waiting, UpdaterEvent::Woken) => true,
            (Updater::Closing, UpdaterEvent::SocketClosed) => true,
            (Updater::Notifying, UpdaterEvent::Notified) => true,
            (Updater::Cancelling, UpdaterEvent::IoCancelled) => true,
            _ => false,
        }
    }
}

/// What an event makes of an updater and its session, and what has to be done.
pub open spec fn updater_next(session: SessionView, event: UpdaterEvent) -> (
    Updater,
    SessionView,
    UpdaterAction,
) {
    match event {
        UpdaterEvent::Started | UpdaterEvent::Woken => if session.closed {
            (Updater::Closing, session, UpdaterAction::CloseSocket)
        } else {
            (Updater::Inspecting, session, UpdaterAction::Inspect)
        },
        UpdaterEvent::Inspected(status) => if session.stops(status) {
            (Updater::Closing, session, UpdaterAction::CloseSocket)
        } else {
            (
                Updater::Updating,
                session.closed_if(session.expired(status)),
                UpdaterAction::Update { flush: status.need_flush },
            )
        },
        UpdaterEvent::Updated(Some(next_ns)) => (
            Updater::Waiting,
            session,
            UpdaterAction::Wait { delay_ns: next_ns },
        ),
        UpdaterEvent::Updated(None) => (
            Updater::Waiting,
            session,
            UpdaterAction::Wait { delay_ns: UPDATE_RETRY_NS },
        ),
        UpdaterEvent::SocketClosed => match session.session_close_notifier {
            Some(peer) => (Updater::Notifying, session, UpdaterAction::NotifyClosed { peer }),
            None => (Updater::Cancelling, session.closed_if(true), UpdaterAction::CancelIo),
        },
        UpdaterEvent::Notified => (
            Updater::Cancelling,
            session.closed_if(true),
            UpdaterAction::CancelIo,
        ),
        UpdaterEvent::IoCancelled => (Updater::Finished, session, UpdaterAction::Finish),
    }
}

/// Bytes that reach the I/O task of a session.
#[derive(Debug)]
pub enum IoEvent {
    /// What the session's own UDP socket read, or nothing if reading failed.
    Datagram(Option<Vec<u8>>),
    /// What a listener handed on, or nothing if it will hand on no more.
    Forwarded(Option<Vec<u8>>),
}

/// What the I/O task does with them.
#[derive(Debug)]
pub enum IoAction {
    /// Nothing.
    Ignore,
    /// Put the packet into the socket, after the conversation number of the
    /// socket is set where one is given.
    Input { set_conv: Option<u32>, packet: Vec<u8> },
}

/// The conversation number that a socket has to be given before a packet goes in:
/// that of the packet, where the socket has another and does not wait for one.
pub open spec fn adopted_conv(status: SocketStatus, packet_conv: nat) -> Option<u32> {
    if !status.waiting_conv && status.conv != packet_conv {
        Some(packet_conv as u32)
    } else {
        None
    }
}

impl KcpSession {
    /// An open session. `session_close_notifier` is the peer to report when a
    /// server session is shut down; a client session has none.
    fn new(session_expire_ns: u128, session_close_notifier: Option<PeerAddr>) -> (session:
        KcpSession)
        ensures
            session@ == (SessionView { closed: false, session_expire_ns, session_close_notifier }),
    {
        KcpSession { closed: false, session_expire_ns, session_close_notifier }
    }

    /// An open session, to be shared by its tasks, and the updater to run for it.
    pub fn new_shared(session_expire_ns: u128, session_close_notifier: Option<PeerAddr>) -> (shared:
        (KcpSession, Updater))
        ensures
            shared.0@ == (SessionView { closed: false, session_expire_ns, session_close_notifier }),
            shared.1 == Updater::Starting,
    {
        (KcpSession::new(session_expire_ns, session_close_notifier), Updater::Starting)
    }

    /// Whether the session belongs to no listener.
    pub fn is_client(&self) -> (client: bool)
        ensures
            client == self@.is_client(),
    {
        self.session_close_notifier.is_none()
    }

    /// Whether the session was asked to close, expired or is shut down.
    pub fn is_closed(&self) -> (closed: bool)
        ensures
            closed == self@.closed,
    {
        self.closed
    }

    /// Whether twice the expiry time can be told, or there is no need to tell it.
    pub fn expiry_in_range(&self, status: &SocketStatus) -> (in_range: bool)
        ensures
            in_range == self@.expiry_in_range(*status),
    {
        let expired = !self.is_client() && status.idle_ns > self.session_expire_ns;
        !expired || self.closed && status.can_close || self.session_expire_ns <= MAX_SPAN_NS / 2
    }

    /// Asks the session to close.
    pub fn close(&mut self) -> (signal: SessionSignal)
        ensures
            final(self)@ == old(self)@.closed_if(true),
            signal == SessionSignal::WakeUpdater,
    {
        self.closed = true;
        self.notify()
    }

    /// Has the updater look at the session without waiting longer.
    pub fn notify(&self) -> (signal: SessionSignal)
        ensures
            signal == SessionSignal::WakeUpdater,
    {
        SessionSignal::WakeUpdater
    }

    /// What the I/O task does with bytes that reached it while the socket's status
    /// is `status`. Only a client session takes what its own UDP socket reads, and
    /// it follows the conversation number that the server chose.
    pub fn io_step(&self, event: IoEvent, status: &SocketStatus) -> (action: IoAction)
        requires
            self@.is_client() ==> (event matches IoEvent::Datagram(Some(packet))
                ==> crate::header::has_header(packet@)),
        ensures
            match event {
                IoEvent::Datagram(Some(packet)) if self@.is_client() => action
                    == (IoAction::Input {
                    set_conv: adopted_conv(*status, crate::header::conv_of(packet@)),
                    packet,
                }),
                IoEvent::Datagram(_) => action == IoAction::Ignore,
                IoEvent::Forwarded(Some(packet)) => action == (IoAction::Input {
                    set_conv: None,
                    packet,
                }),
                IoEvent::Forwarded(None) => action == IoAction::Ignore,
            },
    {
        match event {
            IoEvent::Datagram(Some(packet)) => {
                if !self.is_client() {
                    return IoAction::Ignore;
                }
                let input_conv = get_conv(&packet);
                // The server may allocate another conversation number for this client.
                let set_conv = if !status.waiting_conv && status.conv != input_conv {
                    Some(input_conv)
                } else {
                    None
                };
                IoAction::Input { set_conv, packet }
            },
            IoEvent::Datagram(None) => IoAction::Ignore,
            IoEvent::Forwarded(Some(packet)) => IoAction::Input { set_conv: None, packet },
            IoEvent::Forwarded(None) => IoAction::Ignore,
        }
    }
}

impl Updater {
    /// Takes one event: where the updater then stands, and what it wants done.
    pub fn step(self, session: &mut KcpSession, event: UpdaterEvent) -> (next: (
        Updater,
        UpdaterAction,
    ))
        requires
            self.expects(old(session)@, event),
        ensures
            (next.0, final(session)@, next.1) == updater_next(old(session)@, event),
    {
        match event {
            UpdaterEvent::Started | UpdaterEvent::Woken => {
                if session.closed {
                    (Updater::Closing, UpdaterAction::CloseSocket)
                } else {
                    (Updater::Inspecting, UpdaterAction::Inspect)
                }
            },
            UpdaterEvent::Inspected(status) => {
                let is_closed = session.closed;
                if is_closed && status.can_close {
                    return (Updater::Closing, UpdaterAction::CloseSocket);
                }
                if !session.is_client() && status.idle_ns > session.session_expire_ns {
                    if status.idle_ns > session.session_expire_ns * 2 {
                        // The peer may have gone long ago.
                        return (Updater::Closing, UpdaterAction::CloseSocket);
                    }
                    if !is_closed {
                        session.closed = true;
                    }
                }
                (Updater::Updating, UpdaterAction::Update { flush: status.need_flush })
            },
            UpdaterEvent::Updated(next_ns) => {
                let delay_ns: u128 = match next_ns {
                    Some(next_ns) => next_ns,
                    None => UPDATE_RETRY_NS,
                };
                (Updater::Waiting, UpdaterAction::Wait { delay_ns })
            },
            UpdaterEvent::SocketClosed => {
                match session.session_close_notifier {
                    Some(peer) => (Updater::Notifying, UpdaterAction::NotifyClosed { peer }),
                    None => {
                        session.closed = true;
                        (Updater::Cancelling, UpdaterAction::CancelIo)
                    },
                }
            },
            UpdaterEvent::Notified => {
                session.closed = true;
                (Updater::Cancelling, UpdaterAction::CancelIo)
            },
            UpdaterEvent::IoCancelled => (Updater::Finished, UpdaterAction::Finish),
        }
    }
}

/// What an updater is told, with what others did to its session just before:
/// whether somebody asked it to close.
pub ghost struct UpdaterInput {
    pub closed_by_others: bool,
    pub event: UpdaterEvent,
}

/// The updater of `session` after `inputs`, the session, and all that it wanted
/// done, in order.
pub open spec fn updater_run(session: SessionView, inputs: Seq<UpdaterInput>) -> (
    Updater,
    SessionView,
    Seq<UpdaterAction>,
)
    decreases inputs.len(),
{
    if inputs.len() == 0 {
        (Updater::Starting, session, Seq::empty())
    } else {
        let (_, before, actions) = updater_run(session, inputs.drop_last());
        let input = inputs.last();
        let (updater, after, action) = updater_next(
            before.closed_if(input.closed_by_others),
            input.event,
        );
        (updater, after, actions.push(action))
    }
}

/// Each event of `inputs` answers what the updater asked for before it.
pub open spec fn updater_inputs_fit(session: SessionView, inputs: Seq<UpdaterInput>) -> bool
    decreases inputs.len(),
{
    inputs.len() > 0 ==> {
        let (updater, before, _) = updater_run(session, inputs.drop_last());
        let input = inputs.last();
        &&& updater_inputs_fit(session, inputs.drop_last())
        &&& updater.expects(before.closed_if(input.closed_by_others), input.event)
    }
}

/// An action of a session that is not shutting down.
pub open spec fn is_working(action: UpdaterAction) -> bool {
    action is Inspect || action is Update || action is Wait
}

/// The whole shutdown of a session: the socket is closed, the listener of a
/// server session is told, the I/O task is cancelled.
pub open spec fn shutdown_actions(session: SessionView) -> Seq<UpdaterAction> {
    match session.session_close_notifier {
        Some(peer) => seq![
            UpdaterAction::CloseSocket,
            UpdaterAction::NotifyClosed { peer },
            UpdaterAction::CancelIo,
            UpdaterAction::Finish,
        ],
        None => seq![
            UpdaterAction::CloseSocket,
            UpdaterAction::CancelIo,
            UpdaterAction::Finish,
        ],
    }
}

/// How much of the shutdown of `session` an updater has asked for.
pub open spec fn shutdown_progress(updater: Updater, session: SessionView) -> nat {
    match updater {
        Updater::Starting | Updater::Inspecting | Updater::Updating | Updater::Waiting => 0,
        Updater::Closing => 1,
        Updater::Notifying => 2,
        Updater::Cancelling => if session.is_client() {
            2
        } else {
            3
        },
        Updater::Finished => shutdown_actions(session).len(),
    }
}

/// Whatever an updater is told, and whenever others ask its session to close: it
/// works for a while and then shuts the session down once, in the order of
/// `shutdown_actions`, with nothing in between and nothing after. From when the
/// I/O task is cancelled the session is closed. The session stays one of the same
/// listener, or of none, and keeps its expiry time.
pub proof fn updater_works_and_then_shuts_down_once(
    session: SessionView,
    inputs: Seq<UpdaterInput>,
)
    requires
        updater_inputs_fit(session, inputs),
    ensures
        ({
            let (updater, after, actions) = updater_run(session, inputs);
            let progress = shutdown_progress(updater, session);
            let worked = actions.len() - progress;
            &&& worked >= 0
            &&& forall|i: int| 0 <= i < worked ==> is_working(#[trigger] actions[i])
            &&& actions.skip(worked) == shutdown_actions(session).take(progress as int)
            &&& updater is Cancelling || updater is Finished ==> after.closed
            &&& after.session_close_notifier == session.session_close_notifier
            &&& after.session_expire_ns == session.session_expire_ns
        }),
    decreases inputs.len(),
{
    if inputs.len() > 0 {
        updater_works_and_then_shuts_down_once(session, inputs.drop_last());
    }
}

/// A session that is closed stays closed, whatever its updater is told and
/// whatever others ask.
pub proof fn closed_session_stays_closed(
    session: SessionView,
    inputs: Seq<UpdaterInput>,
    more: Seq<UpdaterInput>,
)
    requires
        updater_run(session, inputs).1.closed,
    ensures
        updater_run(session, inputs + more).1.closed,
    decreases more.len(),
{
    if more.len() > 0 {
        closed_session_stays_closed(session, inputs, more.drop_last());
        assert((inputs + more).drop_last() =~= inputs + more.drop_last());
    } else {
        assert(inputs + more =~= inputs);
    }
}

/// A session asked to close is shut down the next time its updater is woken.
pub proof fn closed_session_shuts_down_when_woken(session: SessionView)
    requires
        session.closed,
    ensures
        updater_next(session, UpdaterEvent::Woken).2 == UpdaterAction::CloseSocket,
        updater_next(session, UpdaterEvent::Started).2 == UpdaterAction::CloseSocket,
{
}

/// The updater shuts a session down only if the session is closed or if it is a
/// server session that was idle for longer than twice its expiry time.
pub proof fn shutdown_has_a_cause(session: SessionView, event: UpdaterEvent)
    requires
        updater_next(session, event).2 == UpdaterAction::CloseSocket,
    ensures
        session.closed || (event matches UpdaterEvent::Inspected(status) && session.abandoned(
            status,
        )),
{
}

/// The updater closes a session of its own accord only at the end of a shutdown or
/// if it is a server session that was idle for longer than its expiry time.
pub proof fn session_closes_for_a_cause(session: SessionView, event: UpdaterEvent)
    requires
        !session.closed,
        updater_next(session, event).1.closed,
    ensures
        updater_next(session, event).2 == UpdaterAction::CancelIo || (
        event matches UpdaterEvent::Inspected(status) && session.expired(status)),
{
}

/// A server session that was idle for longer than its expiry time is shut down:
/// at once, or after the update that is due and one wait.
pub proof fn expired_session_shuts_down(
    session: SessionView,
    status: SocketStatus,
    updated: Option<u128>,
)
    requires
        session.expired(status),
    ensures
        ({
            let (updater, after, action) = updater_next(session, UpdaterEvent::Inspected(status));
            let (_, waited, wait) = updater_next(after, UpdaterEvent::Updated(updated));
            ||| action == UpdaterAction::CloseSocket
            ||| {
                &&& action == (UpdaterAction::Update { flush: status.need_flush })
                &&& wait is Wait
                &&& updater_next(waited, UpdaterEvent::Woken).2 == UpdaterAction::CloseSocket
            }
        }),
{
}

/// An open session that has not expired goes on: it is updated, waits, and is looked
/// at again, and nothing about it changes.
pub proof fn active_session_goes_on(
    session: SessionView,
    status: SocketStatus,
    updated: Option<u128>,
)
    requires
        !session.closed,
        !session.expired(status),
    ensures
        updater_next(session, UpdaterEvent::Inspected(status)) == (
            Updater::Updating,
            session,
            UpdaterAction::Update { flush: status.need_flush },
        ),
        updater_next(session, UpdaterEvent::Updated(updated)).1 == session,
        updater_next(session, UpdaterEvent::Updated(updated)).2 is Wait,
        updater_next(session, UpdaterEvent::Woken) == (
            Updater::Inspecting,
            session,
            UpdaterAction::Inspect,
        ),
{
}

/// A shutdown that has begun runs to its end as what it asks for is done, and asks
/// for `shutdown_actions` in all.
pub proof fn shutdown_runs_to_its_end(session: SessionView)
    ensures
        ({
            let (closing, told, second) = updater_next(session, UpdaterEvent::SocketClosed);
            let (notified, after, third) = updater_next(told, UpdaterEvent::Notified);
            let (finished, _, last) = updater_next(after, UpdaterEvent::IoCancelled);
            &&& Updater::Closing.expects(session, UpdaterEvent::SocketClosed)
            &&& finished is Finished
            &&& if session.is_client() {
                &&& closing.expects(told, UpdaterEvent::IoCancelled)
                &&& told.closed
                &&& shutdown_actions(session) == seq![UpdaterAction::CloseSocket, second, last]
            } else {
                &&& closing.expects(told, UpdaterEvent::Notified)
                &&& notified.expects(after, UpdaterEvent::IoCancelled)
                &&& after.closed
                &&& shutdown_actions(session) == seq![
                    UpdaterAction::CloseSocket,
                    second,
                    third,
                    last,
                ]
            }
        }),
{
}

/// A client session never expires: however long it was idle, the updater does the
/// same and does not close it.
pub proof fn client_session_never_expires(
    session: SessionView,
    status: SocketStatus,
    idle_ns: u128,
)
    requires
        session.is_client(),
    ensures
        updater_next(session, UpdaterEvent::Inspected(status)) == updater_next(
            session,
            UpdaterEvent::Inspected(SocketStatus { idle_ns, ..status }),
        ),
        updater_next(session, UpdaterEvent::Inspected(status)).1 == session,
{
}

/// The conversation number of a socket before the packet of `action` goes in.
pub open spec fn conv_after(status: SocketStatus, action: IoAction) -> u32 {
    match action {
        IoAction::Input { set_conv: Some(conv), .. } => conv,
        _ => status.conv,
    }
}

/// A client follows its server: when a packet goes in, the socket has the
/// conversation number that the packet carries, unless it waits for one.
pub proof fn client_follows_the_server(status: SocketStatus, packet: Vec<u8>)
    requires
        crate::header::has_header(packet@),
        !status.waiting_conv,
    ensures
        conv_after(
            status,
            IoAction::Input {
                set_conv: adopted_conv(status, crate::header::conv_of(packet@)),
                packet,
            },
        ) == crate::header::conv_of(packet@),
{
}

} // verus!
