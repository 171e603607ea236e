//! What holds of a listener as a whole: of its dispatcher together with the sessions
//! that it keeps and with whoever accepts them.

use crate::addr::PeerAddr;
use crate::channel::{
    offers_fit, offers_keep_fitting, sent_of, the_backlog_is_never_refused, verdict_fits, Polled,
    Verdict,
};
use crate::dispatcher::{DispatchEvent, DispatcherView, Phase};
use crate::dispatcher_laws::{
    created_for, dispatcher_inputs_fit, dispatcher_run, in_table,
    new_sessions_are_offered_once_and_in_order, offers_run, streams_of, under_way, verdicts,
    DispatchInput,
};
use crate::listener::{
    accept_finds, handed_out, messages, sessions_are_accepted_once_and_in_order, AcceptError,
};
use crate::session::{updater_next, SessionView, Updater, UpdaterEvent};
use vstd::prelude::*;

verus! {

/// A dispatcher and all sessions that were ever created for it, in order, each with its
/// updater. A handle is the number of a session.
pub ghost struct EndpointView {
    pub dispatcher: DispatcherView<nat>,
    pub sessions: Seq<(SessionView, Updater)>,
}

/// What happens at an endpoint.
pub ghost enum EndpointInput {
    /// The dispatcher is told something. Word that a session is gone may come for any
    /// peer at any time.
    Dispatch { event: DispatchEvent<nat, Seq<u8>>, fresh: u32 },
    /// Somebody asks the session with this number to close.
    Close(nat),
    /// The updater of the session with this number is told something.
    Update(nat, UpdaterEvent),
}

impl EndpointView {
    /// No session was created yet.
    pub open spec fn start() -> EndpointView {
        EndpointView {
            dispatcher: DispatcherView { sessions: Map::empty(), phase: Phase::Idle },
            sessions: Seq::empty(),
        }
    }

    /// The input can happen: the dispatcher, or an updater, is told what it asked for,
    /// and a session that is created gets the next number.
    pub open spec fn expects(self, input: EndpointInput) -> bool {
        match input {
            EndpointInput::Dispatch { event, .. } => {
                &&& self.dispatcher.expects(event)
                &&& event matches DispatchEvent::Created(Some(number)) ==> number
                    == self.sessions.len()
            },
            EndpointInput::Close(number) => number < self.sessions.len(),
            EndpointInput::Update(number, event) => {
                &&& number < self.sessions.len()
                &&& self.sessions[number as int].1.expects(self.sessions[number as int].0, event)
            },
        }
    }

    /// The session with this number is asked to close, as `KcpSession::close` has it.
    pub open spec fn closes(self, number: nat) -> EndpointView {
        let (session, updater) = self.sessions[number as int];
        EndpointView {
            sessions: self.sessions.update(number as int, (session.closed_if(true), updater)),
            ..self
        }
    }

    /// A session is created for `peer`, as `KcpSession::new_shared` has it.
    pub open spec fn creates(self, peer: PeerAddr, session_expire_ns: u128) -> EndpointView {
        let session = SessionView {
            closed: false,
            session_expire_ns,
            session_close_notifier: Some(peer),
        };
        EndpointView { sessions: self.sessions.push((session, Updater::Starting)), ..self }
    }

    /// What comes of an input. A session is created for the peer of the packet that
    /// waits for it, and one that the dispatcher hands back is closed.
    pub open spec fn next(self, input: EndpointInput, session_expire_ns: u128) -> EndpointView {
        match input {
            EndpointInput::Dispatch { event, fresh } => {
                let step = self.dispatcher.next(event, fresh);
                let created = match event {
                    DispatchEvent::Created(Some(_)) => self.creates(
                        under_way(self.dispatcher.phase)->0.peer,
                        session_expire_ns,
                    ),
                    _ => self,
                };
                let after = EndpointView { dispatcher: step.after, ..created };
                match step.released {
                    Some(number) => after.closes(number),
                    None => after,
                }
            },
            EndpointInput::Close(number) => self.closes(number),
            EndpointInput::Update(number, event) => {
                let (updater, session, _) = updater_next(self.sessions[number as int].0, event);
                EndpointView {
                    sessions: self.sessions.update(number as int, (session, updater)),
                    ..self
                }
            },
        }
    }
}

/// An endpoint after `inputs`, where sessions expire after `session_expire_ns`.
pub open spec fn endpoint_run(inputs: Seq<EndpointInput>, session_expire_ns: u128) -> EndpointView
    decreases inputs.len(),
{
    if inputs.len() == 0 {
        EndpointView::start()
    } else {
        endpoint_run(inputs.drop_last(), session_expire_ns).next(inputs.last(), session_expire_ns)
    }
}

/// Each of `inputs` can happen after those before it.
pub open spec fn endpoint_inputs_fit(inputs: Seq<EndpointInput>, session_expire_ns: u128) -> bool
    decreases inputs.len(),
{
    inputs.len() > 0 ==> {
        &&& endpoint_inputs_fit(inputs.drop_last(), session_expire_ns)
        &&& endpoint_run(inputs.drop_last(), session_expire_ns).expects(inputs.last())
    }
}

/// Whatever happens at an endpoint, each session that serves a peer is one that was
/// created and reports that peer when it shuts down, no session serves two peers, and
/// every session that was created and serves no peer is closed.
pub proof fn sessions_report_their_peer_or_are_closed(
    inputs: Seq<EndpointInput>,
    session_expire_ns: u128,
)
    requires
        endpoint_inputs_fit(inputs, session_expire_ns),
    ensures
        ({
            let endpoint = endpoint_run(inputs, session_expire_ns);
            let table = endpoint.dispatcher.sessions;
            let sessions = endpoint.sessions;
            &&& forall|peer: PeerAddr| #[trigger]
                table.contains_key(peer) ==> table[peer] < sessions.len()
                    && sessions[table[peer] as int].0.session_close_notifier == Some(peer)
            &&& forall|a: PeerAddr, b: PeerAddr| #[trigger]
                table.contains_key(a) && #[trigger] table.contains_key(b) && table[a] == table[b]
                    ==> a == b
            &&& forall|number: nat|
                number < sessions.len() && !#[trigger] in_table(table, number)
                    ==> sessions[number as int].0.closed
        }),
    decreases inputs.len(),
{
    if inputs.len() > 0 {
        let rest = inputs.drop_last();
        sessions_report_their_peer_or_are_closed(rest, session_expire_ns);
        let before = endpoint_run(rest, session_expire_ns);
        let after = endpoint_run(inputs, session_expire_ns);
        let table0 = before.dispatcher.sessions;
        let table = after.dispatcher.sessions;
        assert forall|number: nat|
            number < after.sessions.len() && !#[trigger] in_table(
                table,
                number,
            ) implies after.sessions[number as int].0.closed by {
            if number < before.sessions.len() && in_table(table0, number) {
                let peer = choose|peer: PeerAddr| #[trigger]
                    table0.contains_key(peer) && table0[peer] == number;
                assert(!table.contains_key(peer) || table[peer] != number);
            }
            if number == before.sessions.len() {
                let peer = under_way(before.dispatcher.phase)->0.peer;
                assert(table.contains_key(peer));
            }
        }
    }
}

/// Whatever happens at an endpoint, no peer has two open sessions, and an open session
/// is the one that packets of its peer go to.
pub proof fn no_peer_has_two_open_sessions(inputs: Seq<EndpointInput>, session_expire_ns: u128)
    requires
        endpoint_inputs_fit(inputs, session_expire_ns),
    ensures
        ({
            let endpoint = endpoint_run(inputs, session_expire_ns);
            let table = endpoint.dispatcher.sessions;
            let sessions = endpoint.sessions;
            &&& forall|number: nat|
                number < sessions.len() && !(#[trigger] sessions[number as int]).0.closed ==> {
                    let peer = sessions[number as int].0.session_close_notifier->0;
                    table.contains_key(peer) && table[peer] == number
                }
            &&& forall|a: int, b: int|
                {
                    &&& 0 <= a < sessions.len()
                    &&& 0 <= b < sessions.len()
                    &&& !(#[trigger] sessions[a]).0.closed
                    &&& !(#[trigger] sessions[b]).0.closed
                    &&& sessions[a].0.session_close_notifier == sessions[b].0.session_close_notifier
                } ==> a == b
        }),
{
    let endpoint = endpoint_run(inputs, session_expire_ns);
    let table = endpoint.dispatcher.sessions;
    let sessions = endpoint.sessions;
    sessions_report_their_peer_or_are_closed(inputs, session_expire_ns);
    assert forall|number: nat|
        number < sessions.len() && !(#[trigger] sessions[number as int]).0.closed implies {
        let peer = sessions[number as int].0.session_close_notifier->0;
        table.contains_key(peer) && table[peer] == number
    } by {
        assert(in_table(table, number));
    }
}

/// Calls of `accept`, one after the other: `looks[i]` is what all looks into the channel
/// found before the call with number `i`, which looks at most `polls[i]` times and
/// returns `results[i]`.
pub open spec fn accept_calls<T>(
    looks: Seq<Seq<Polled<T>>>,
    polls: Seq<u64>,
    results: Seq<Option<Result<T, AcceptError>>>,
) -> bool {
    &&& looks.len() == results.len() + 1
    &&& polls.len() == results.len()
    &&& looks.first() == Seq::<Polled<T>>::empty()
    &&& forall|i: int|
        0 <= i < results.len() ==> accept_finds(
            #[trigger] looks[i],
            looks[i + 1],
            polls[i],
            results[i],
        )
}

/// The streams of sessions, each with the peer that its session was created for and
/// with what became of it when it was offered, as far as it was.
pub open spec fn offered_streams<S, T>(
    inputs: Seq<DispatchInput<S>>,
    stream: spec_fn(S) -> T,
) -> Seq<((T, PeerAddr), Verdict)> {
    Seq::new(
        verdicts(inputs).len(),
        |i: int| (streams_of(created_for(inputs), stream)[i], verdicts(inputs)[i]),
    )
}

/// First in, first out: over a channel that keeps the order of its messages, so that
/// those found are the first of those sent, `accept` hands out the streams of the
/// sessions that were created and taken over, each once, with the peer that its
/// session was created for, in the order in which the sessions were created.
pub proof fn sessions_are_accepted_in_the_order_created<S, T>(
    inputs: Seq<DispatchInput<S>>,
    stream: spec_fn(S) -> T,
    looks: Seq<Seq<Polled<(T, PeerAddr)>>>,
    polls: Seq<u64>,
    results: Seq<Option<Result<(T, PeerAddr), AcceptError>>>,
)
    requires
        dispatcher_inputs_fit(inputs),
        accept_calls(looks, polls, results),
        messages(looks.last()).is_prefix_of(sent_of(offers_run(inputs, stream))),
    ensures
        handed_out(results) == messages(looks.last()),
        handed_out(results).is_prefix_of(sent_of(offered_streams(inputs, stream))),
{
    new_sessions_are_offered_once_and_in_order(inputs, stream);
    assert(offers_run(inputs, stream) =~= offered_streams(inputs, stream));
    sessions_are_accepted_once_and_in_order(looks, polls, results);
}

/// Each call of `accept` hands out at most one session; where as many were handed out
/// as there were calls, each call handed out its own.
proof fn full_results_are_all_sessions<T>(results: Seq<Option<Result<T, AcceptError>>>)
    ensures
        handed_out(results).len() <= results.len(),
        handed_out(results).len() == results.len() ==> forall|i: int|
            0 <= i < results.len() ==> #[trigger] results[i] == Some(
                Ok::<T, AcceptError>(handed_out(results)[i]),
            ),
    decreases results.len(),
{
    if results.len() > 0 {
        full_results_are_all_sessions(results.drop_last());
        if handed_out(results).len() == results.len() {
            assert forall|i: int| 0 <= i < results.len() implies #[trigger] results[i] == Some(
                Ok::<T, AcceptError>(handed_out(results)[i]),
            ) by {
                if i < results.len() - 1 {
                    assert(results.drop_last()[i] == results[i]);
                }
            }
        }
    }
}

/// The verdicts during `inputs` are such as `Dispatcher::offer` gets them through a
/// channel with this backlog.
pub open spec fn verdicts_fit<S, T>(
    inputs: Seq<DispatchInput<S>>,
    stream: spec_fn(S) -> T,
    backlog: nat,
) -> bool
    decreases inputs.len(),
{
    inputs.len() > 0 ==> {
        let offers = offers_run(inputs.drop_last(), stream);
        &&& verdicts_fit(inputs.drop_last(), stream, backlog)
        &&& inputs.last().event matches DispatchEvent::Offered(verdict) ==> verdict_fits(
            offers,
            backlog,
            verdict,
        )
    }
}

/// Offers whose verdicts fit one by one fit as a whole.
proof fn verdicts_make_offers_fit<S, T>(
    inputs: Seq<DispatchInput<S>>,
    stream: spec_fn(S) -> T,
    backlog: nat,
)
    requires
        verdicts_fit(inputs, stream, backlog),
    ensures
        offers_fit(offers_run(inputs, stream), backlog),
    decreases inputs.len(),
{
    if inputs.len() > 0 {
        verdicts_make_offers_fit(inputs.drop_last(), stream, backlog);
        if inputs.last().event is Offered {
            let (message, verdict) = offers_run(inputs, stream).last();
            offers_keep_fitting(
                offers_run(inputs.drop_last(), stream),
                backlog,
                message,
                verdict,
            );
        }
    }
}

/// As long as somebody can accept, none of the first sessions, as many as the backlog
/// and one more, is refused, however late they are accepted: all go into the channel,
/// each with the peer that it was created for, in the order in which they were created.
pub proof fn sessions_within_the_backlog_are_taken<S, T>(
    inputs: Seq<DispatchInput<S>>,
    stream: spec_fn(S) -> T,
    backlog: nat,
)
    requires
        dispatcher_inputs_fit(inputs),
        dispatcher_run(inputs).0.phase is Idle,
        verdicts_fit(inputs, stream, backlog),
        forall|i: int|
            0 <= i < verdicts(inputs).len() ==> #[trigger] verdicts(inputs)[i]
                != Verdict::Disconnected,
        created_for(inputs).len() <= backlog + 1,
    ensures
        verdicts(inputs).len() == created_for(inputs).len(),
        forall|i: int|
            0 <= i < verdicts(inputs).len() ==> #[trigger] verdicts(inputs)[i] == Verdict::Taken,
        sent_of(offers_run(inputs, stream)) == streams_of(created_for(inputs), stream),
{
    let offers = offers_run(inputs, stream);
    new_sessions_are_offered_once_and_in_order(inputs, stream);
    verdicts_make_offers_fit(inputs, stream, backlog);
    the_backlog_is_never_refused(offers, backlog);
    assert forall|i: int| 0 <= i < offers.len() implies #[trigger] verdicts(inputs)[i]
        == Verdict::Taken by {
        assert(offers[i].1 is Taken);
    }
}

/// Once all of the first sessions, as many as the backlog and one more, were found in
/// the channel by as many calls of `accept`, each call has handed out one of them, with
/// the peer that it was created for, in the order in which they were created.
pub proof fn sessions_within_the_backlog_are_accepted_in_order<S, T>(
    inputs: Seq<DispatchInput<S>>,
    stream: spec_fn(S) -> T,
    backlog: nat,
    looks: Seq<Seq<Polled<(T, PeerAddr)>>>,
    polls: Seq<u64>,
    results: Seq<Option<Result<(T, PeerAddr), AcceptError>>>,
)
    requires
        dispatcher_inputs_fit(inputs),
        dispatcher_run(inputs).0.phase is Idle,
        verdicts_fit(inputs, stream, backlog),
        forall|i: int|
            0 <= i < verdicts(inputs).len() ==> #[trigger] verdicts(inputs)[i]
                != Verdict::Disconnected,
        created_for(inputs).len() <= backlog + 1,
        accept_calls(looks, polls, results),
        results.len() == created_for(inputs).len(),
        messages(looks.last()) == sent_of(offers_run(inputs, stream)),
    ensures
        forall|i: int|
            0 <= i < results.len() ==> #[trigger] results[i] == Some(
                Ok::<(T, PeerAddr), AcceptError>(streams_of(created_for(inputs), stream)[i]),
            ),
{
    sessions_within_the_backlog_are_taken(inputs, stream, backlog);
    sessions_are_accepted_once_and_in_order(looks, polls, results);
    full_results_are_all_sessions(results);
}

} // verus!
