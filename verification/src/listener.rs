//! A listener: it hands out the sessions that its dispatcher offers.

use crate::channel::{open_channel, AcceptQueue, OfferQueue, Polled, Verdict};
use vstd::prelude::*;

verus! {

/// How many new sessions can wait to be accepted.
pub const ACCEPT_BACKLOG: usize = 1024;

/// Why no session can be accepted.
#[derive(Clone, Copy, Debug, PartialEq, Eq, Structural)]
pub enum AcceptError {
    /// The dispatcher is gone and all that it offered was accepted.
    ChannelClosed,
}

impl AcceptError {
    /// The error in words.
    pub fn message(&self) -> (message: &'static str)
        ensures
            message@ == "accept channel closed unexpectly"@,
    {
        "accept channel closed unexpectly"
    }
}

/// What accepting comes to after one look into the channel: a session, an error,
/// or nothing yet.
pub open spec fn accepted<T>(polled: Polled<T>) -> Option<Result<T, AcceptError>> {
    match polled {
        Polled::Empty => None,
        Polled::Message(stream) => Some(Ok(stream)),
        Polled::Closed => Some(Err(AcceptError::ChannelClosed)),
    }
}

/// Hands out the sessions that a dispatcher offers. `T` is what stands for one.
#[verifier::reject_recursive_types(T)]
pub struct KcpListener<T> {
    accept_rx: AcceptQueue<T>,
}

/// One call of `accept` with at most `polls` looks, where `before` and `after` is what
/// all looks found until then and with it: it looked until it found a message or the
/// end of the channel, or `polls` times in vain, and `result` is what the last look
/// comes to.
pub open spec fn accept_finds<T>(
    before: Seq<Polled<T>>,
    after: Seq<Polled<T>>,
    polls: u64,
    result: Option<Result<T, AcceptError>>,
) -> bool {
    let new = after.skip(before.len() as int);
    &&& after == before + new
    &&& new.len() <= polls
    &&& forall|i: int| 0 <= i < new.len() - 1 ==> #[trigger] new[i] is Empty
    &&& result == (if new.len() == 0 {
        None
    } else {
        accepted(new.last())
    })
    &&& result is None ==> new.len() == polls
}

impl<T> KcpListener<T> {
    /// What the looks into the channel found so far, in order.
    pub closed spec fn looks(self) -> Seq<Polled<T>> {
        self.accept_rx.looks()
    }

    /// A listener, and the end of its channel through which the dispatcher offers
    /// sessions.
    pub fn new() -> (ends: (OfferQueue<T>, KcpListener<T>))
        ensures
            ends.0.backlog() == ACCEPT_BACKLOG,
            ends.0.backlog() == 1024,
            ends.0.offers() == Seq::<(T, Verdict)>::empty(),
            ends.1.looks() == Seq::<Polled<T>>::empty(),
    {
        let (offers, accept_rx) = open_channel(ACCEPT_BACKLOG);
        (offers, KcpListener { accept_rx })
    }

    /// Looks for a new session at most `polls` times: the first that is there, the
    /// error that there will be none, or nothing if there was none yet.
    pub fn accept(&mut self, polls: u64) -> (result: Option<Result<T, AcceptError>>)
        ensures
            accept_finds(old(self).looks(), final(self).looks(), polls, result),
    {
        let ghost before = self.looks();
        let mut left: u64 = polls;
        while left > 0
            invariant
                left <= polls,
                before == old(self).looks(),
                self.looks().len() == before.len() + (polls - left),
                self.looks().take(before.len() as int) == before,
                forall|i: int|
                    before.len() <= i < self.looks().len() ==> #[trigger] self.looks()[i] is Empty,
            decreases left,
        {
            left = left - 1;
            let result = Self::accept_polled(self.accept_rx.try_recv());
            assert(self.looks() =~= before + self.looks().skip(before.len() as int));
            if result.is_some() {
                return result;
            }
        }
        assert(self.looks() =~= before + self.looks().skip(before.len() as int));
        None
    }

    /// What accepting comes to after one look into the channel.
    pub fn accept_polled(polled: Polled<T>) -> (result: Option<Result<T, AcceptError>>)
        ensures
            result == accepted(polled),
    {
        match polled {
            Polled::Empty => None,
            Polled::Message(stream) => Some(Ok(stream)),
            Polled::Closed => Some(Err(AcceptError::ChannelClosed)),
        }
    }
}

/// The looks of a listener are all looks into its channel.
proof fn every_look_is_counted<T>(listener: KcpListener<T>)
    ensures
        listener.looks() == listener.accept_rx.looks(),
{
}

/// A call of `accept` looks until it finds something, and gives up only after as many
/// looks as it was allowed: a session is the one that it found, the error comes only
/// of a closed channel, and all looks before were in vain.
pub proof fn accept_looks_until_it_finds<T>(
    before: Seq<Polled<T>>,
    after: Seq<Polled<T>>,
    polls: u64,
    result: Option<Result<T, AcceptError>>,
)
    requires
        accept_finds(before, after, polls, result),
    ensures
        before.len() <= after.len() <= before.len() + polls,
        after.take(before.len() as int) == before,
        forall|i: int|
            before.len() <= i < after.len() - 1 ==> #[trigger] after[i] == Polled::<T>::Empty,
        match result {
            Some(Ok(stream)) => after.len() > before.len() && after.last() == Polled::Message(
                stream,
            ),
            Some(Err(AcceptError::ChannelClosed)) => after.len() > before.len() && after.last()
                == Polled::<T>::Closed,
            None => after.len() == before.len() + polls && (polls > 0 ==> after.last()
                == Polled::<T>::Empty),
        },
{
    let new = after.skip(before.len() as int);
    assert(after.len() == before.len() + new.len());
    assert forall|i: int| before.len() <= i < after.len() - 1 implies #[trigger] after[i]
        == Polled::<T>::Empty by {
        assert(new[i - before.len()] is Empty);
    }
}

/// One look into the channel decides what accepting comes to: a message is handed out
/// itself, a closed channel is the error, an empty one is nothing yet.
pub proof fn each_look_decides<T>(message: T)
    ensures
        accepted(Polled::Message(message)) == Some(Ok::<T, AcceptError>(message)),
        accepted(Polled::<T>::Closed) == Some(Err::<T, AcceptError>(AcceptError::ChannelClosed)),
        accepted(Polled::<T>::Empty) is None,
{
}

/// The messages among what looks found, in order.
pub open spec fn messages<T>(looks: Seq<Polled<T>>) -> Seq<T>
    decreases looks.len(),
{
    if looks.len() == 0 {
        Seq::empty()
    } else {
        match looks.last() {
            Polled::Message(message) => messages(looks.drop_last()).push(message),
            _ => messages(looks.drop_last()),
        }
    }
}

/// The sessions among the results of calls of `accept`, in order.
pub open spec fn handed_out<T>(results: Seq<Option<Result<T, AcceptError>>>) -> Seq<T>
    decreases results.len(),
{
    if results.len() == 0 {
        Seq::empty()
    } else {
        match results.last() {
            Some(Ok(stream)) => handed_out(results.drop_last()).push(stream),
            _ => handed_out(results.drop_last()),
        }
    }
}

/// What is found later comes after what was found before.
proof fn messages_of_more_looks<T>(before: Seq<Polled<T>>, new: Seq<Polled<T>>)
    ensures
        messages(before + new) == messages(before) + messages(new),
    decreases new.len(),
{
    if new.len() == 0 {
        assert(before + new =~= before);
    } else {
        messages_of_more_looks(before, new.drop_last());
        assert((before + new).drop_last() =~= before + new.drop_last());
    }
}

/// Looks in vain find no message.
proof fn no_messages_in_vain<T>(looks: Seq<Polled<T>>)
    requires
        forall|i: int| 0 <= i < looks.len() ==> #[trigger] looks[i] is Empty,
    ensures
        messages(looks) == Seq::<T>::empty(),
    decreases looks.len(),
{
    if looks.len() > 0 {
        no_messages_in_vain(looks.drop_last());
    }
}

/// One call of `accept` hands out every message that it finds, and it finds at most
/// one.
pub proof fn accept_hands_out_what_it_finds<T>(
    before: Seq<Polled<T>>,
    after: Seq<Polled<T>>,
    polls: u64,
    result: Option<Result<T, AcceptError>>,
)
    requires
        accept_finds(before, after, polls, result),
    ensures
        messages(after) == messages(before) + (match result {
            Some(Ok(stream)) => seq![stream],
            _ => Seq::empty(),
        }),
{
    let new = after.skip(before.len() as int);
    messages_of_more_looks(before, new);
    if new.len() > 0 {
        no_messages_in_vain(new.drop_last());
    }
}

/// The sessions that successive calls of `accept` hand out are the messages found in
/// the channel, each once and in order. `looks[i]` is what all looks found before the
/// call with number `i`, which looks at most `polls[i]` times and returns
/// `results[i]`.
pub proof fn sessions_are_accepted_once_and_in_order<T>(
    looks: Seq<Seq<Polled<T>>>,
    polls: Seq<u64>,
    results: Seq<Option<Result<T, AcceptError>>>,
)
    requires
        looks.len() == results.len() + 1,
        polls.len() == results.len(),
        forall|i: int|
            0 <= i < results.len() ==> accept_finds(
                #[trigger] looks[i],
                looks[i + 1],
                polls[i],
                results[i],
            ),
    ensures
        messages(looks.last()) == messages(looks.first()) + handed_out(results),
    decreases results.len(),
{
    if results.len() > 0 {
        let last: int = results.len() - 1;
        assert forall|i: int| 0 <= i < last implies accept_finds(
            #[trigger] looks.drop_last()[i],
            looks.drop_last()[i + 1],
            polls.drop_last()[i],
            results.drop_last()[i],
        ) by {
            assert(accept_finds(looks[i], looks[i + 1], polls[i], results[i]));
        }
        sessions_are_accepted_once_and_in_order(
            looks.drop_last(),
            polls.drop_last(),
            results.drop_last(),
        );
        accept_hands_out_what_it_finds(looks[last], looks[last + 1], polls[last], results[last]);
    }
}

} // verus!
