//! The channel through which new sessions reach whoever accepts them. Each end keeps
//! a history of what it did, for contracts to speak of.

use futures::channel::mpsc::{Receiver, Sender};
use vstd::prelude::*;

verus! {

/// The receiving end of a bounded channel.
#[verifier::external_type_specification]
#[verifier::external_body]
#[verifier::reject_recursive_types(T)]
pub struct ExReceiver<T>(futures::channel::mpsc::Receiver<T>);

/// The sending end of a bounded channel.
#[verifier::external_type_specification]
#[verifier::external_body]
#[verifier::reject_recursive_types(T)]
pub struct ExSender<T>(futures::channel::mpsc::Sender<T>);

/// What one look into a channel found.
#[derive(Debug)]
pub enum Polled<T> {
    /// Nothing yet.
    Empty,
    /// A message.
    Message(T),
    /// Nothing, and there will be nothing more.
    Closed,
}

/// What became of a message that was offered to a channel.
#[derive(Clone, Copy, Debug, PartialEq, Eq, Structural)]
pub enum Verdict {
    /// It went in.
    Taken,
    /// It was refused, as too many messages wait to be received.
    Full,
    /// It was refused, as nobody can receive it any more.
    Disconnected,
}

/// The receiving end of a channel, with what every look into it found.
#[verifier::reject_recursive_types(T)]
pub struct AcceptQueue<T> {
    rx: Receiver<T>,
    looks: Ghost<Seq<Polled<T>>>,
}

/// The only sending end of a channel, with all that was offered to it.
#[verifier::reject_recursive_types(T)]
pub struct OfferQueue<T> {
    tx: Sender<T>,
    backlog: Ghost<nat>,
    offers: Ghost<Seq<(T, Verdict)>>,
}

/// `futures::channel::mpsc::channel`: a channel in which `backlog` messages can wait
/// to be received, and one more for its one sending end. Nothing was offered to it
/// and it was not looked into yet. It panics on a backlog of more than a quarter of
/// what a `usize` holds.
#[verifier::external_body]
pub(crate) fn open_channel<T>(backlog: usize) -> (ends: (OfferQueue<T>, AcceptQueue<T>))
    requires
        backlog < usize::MAX / 4,
    ensures
        ends.0.backlog() == backlog,
        ends.0.offers() == Seq::<(T, Verdict)>::empty(),
        ends.1.looks() == Seq::<Polled<T>>::empty(),
{
    let (tx, rx) = futures::channel::mpsc::channel(backlog);
    (
        OfferQueue { tx, backlog: Ghost(backlog as nat), offers: Ghost(Seq::empty()) },
        AcceptQueue { rx, looks: Ghost(Seq::empty()) },
    )
}

impl<T> AcceptQueue<T> {
    /// What the looks into the channel found so far, in order.
    pub closed spec fn looks(self) -> Seq<Polled<T>> {
        self.looks@
    }

    /// `futures::channel::mpsc::Receiver::try_recv`: takes a message out, or finds
    /// that there is none yet, or that there is none and the channel is closed. What
    /// it found joins the history. Which of the three it is rests on what the other
    /// end of the channel did, so nothing is said of that.
    #[verifier::external_body]
    pub(crate) fn try_recv(&mut self) -> (polled: Polled<T>)
        ensures
            final(self).looks() == old(self).looks().push(polled),
    {
        match self.rx.try_recv() {
            Ok(message) => Polled::Message(message),
            Err(futures::channel::mpsc::TryRecvError::Empty) => Polled::Empty,
            Err(futures::channel::mpsc::TryRecvError::Closed) => Polled::Closed,
        }
    }
}

/// The messages among `offers` that went into the channel, in order.
pub open spec fn sent_of<T>(offers: Seq<(T, Verdict)>) -> Seq<T>
    decreases offers.len(),
{
    if offers.len() == 0 {
        Seq::empty()
    } else {
        let (message, verdict) = offers.last();
        if verdict is Taken {
            sent_of(offers.drop_last()).push(message)
        } else {
            sent_of(offers.drop_last())
        }
    }
}

/// A message that is offered after `offers` may get `verdict`: for want of room it is
/// refused only if more messages than `backlog` went in before.
pub open spec fn verdict_fits<T>(
    offers: Seq<(T, Verdict)>,
    backlog: nat,
    verdict: Verdict,
) -> bool {
    verdict is Full ==> sent_of(offers).len() > backlog
}

impl<T> OfferQueue<T> {
    /// What was offered to the channel so far, in order, and what became of it.
    pub closed spec fn offers(self) -> Seq<(T, Verdict)> {
        self.offers@
    }

    /// How many messages can wait in the channel besides the one that the sending end
    /// always has room for.
    pub closed spec fn backlog(self) -> nat {
        self.backlog@
    }

    /// `futures::channel::mpsc::Sender::try_send`: offers a message to the channel once
    /// and tells what became of it; both join the history. A single sending end is
    /// refused for want of room only after a message of its own met more waiting
    /// messages than the backlog, which takes more messages than that. Whether there
    /// is room then, and whether the receiving end is there, rests on others, so
    /// nothing is said of that.
    #[verifier::external_body]
    pub(crate) fn try_send(&mut self, message: T) -> (verdict: Verdict)
        ensures
            final(self).offers() == old(self).offers().push((message, verdict)),
            final(self).backlog() == old(self).backlog(),
            verdict_fits(old(self).offers(), old(self).backlog(), verdict),
    {
        match self.tx.try_send(message) {
            Ok(()) => Verdict::Taken,
            Err(refused) if refused.is_full() => Verdict::Full,
            Err(_) => Verdict::Disconnected,
        }
    }
}

/// Every message of `offers` was refused for want of room only as `verdict_fits` has
/// it.
pub open spec fn offers_fit<T>(offers: Seq<(T, Verdict)>, backlog: nat) -> bool {
    forall|i: int|
        0 <= i < offers.len() ==> verdict_fits(offers.take(i), backlog, (#[trigger] offers[i]).1)
}

/// Nothing was refused for want of room while nothing was offered, and each further
/// offer keeps it that messages are refused so only as `verdict_fits` has it.
pub proof fn offers_keep_fitting<T>(
    offers: Seq<(T, Verdict)>,
    backlog: nat,
    message: T,
    verdict: Verdict,
)
    requires
        offers_fit(offers, backlog),
        verdict_fits(offers, backlog, verdict),
    ensures
        offers_fit(Seq::<(T, Verdict)>::empty(), backlog),
        offers_fit(offers.push((message, verdict)), backlog),
{
    let more = offers.push((message, verdict));
    assert forall|i: int| 0 <= i < more.len() implies verdict_fits(
        more.take(i),
        backlog,
        (#[trigger] more[i]).1,
    ) by {
        if i < offers.len() {
            assert(more.take(i) =~= offers.take(i));
        } else {
            assert(more.take(i) =~= offers);
        }
    }
}

/// At most as many messages go in as are offered.
proof fn sent_is_no_more_than_offered<T>(offers: Seq<(T, Verdict)>)
    ensures
        sent_of(offers).len() <= offers.len(),
    decreases offers.len(),
{
    if offers.len() > 0 {
        sent_is_no_more_than_offered(offers.drop_last());
    }
}

/// As long as somebody can receive, no message is refused before one more than the
/// backlog was offered: all that was offered went in, in order.
pub proof fn the_backlog_is_never_refused<T>(offers: Seq<(T, Verdict)>, backlog: nat)
    requires
        offers_fit(offers, backlog),
        forall|i: int| 0 <= i < offers.len() ==> !((#[trigger] offers[i]).1 is Disconnected),
        offers.len() <= backlog + 1,
    ensures
        forall|i: int| 0 <= i < offers.len() ==> (#[trigger] offers[i]).1 is Taken,
        sent_of(offers) == offers.map_values(|offer: (T, Verdict)| offer.0),
    decreases offers.len(),
{
    if offers.len() > 0 {
        let rest = offers.drop_last();
        let last: int = offers.len() - 1;
        assert forall|i: int| 0 <= i < rest.len() implies verdict_fits(
            rest.take(i),
            backlog,
            (#[trigger] rest[i]).1,
        ) by {
            assert(rest.take(i) =~= offers.take(i));
        }
        the_backlog_is_never_refused(rest, backlog);
        sent_is_no_more_than_offered(rest);
        assert forall|i: int| 0 <= i < offers.len() implies (#[trigger] offers[i]).1 is Taken by {
            if i < last {
                assert(rest[i].1 is Taken);
            }
        }
    }
}

} // verus!
