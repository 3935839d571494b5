//! Turning a sequence that is polled into one that is waited for.
//!
//! Notifications arrive on threads of the driver's choosing, while their
//! reader must stay on the thread that owns the apartment and must keep
//! serving the calls that the apartment dispatches to it. So the reader
//! polls; when nothing is there it waits cooperatively and polls again.

use futures::channel::mpsc::{TryRecvError, UnboundedReceiver, UnboundedSender};
use vstd::prelude::*;

use crate::hresult::{Win32Error, E_ABORT, S_OK};

verus! {

/// The sending half of an unbounded channel of the `futures` crate. Verus
/// sees nothing inside it.
#[verifier::external_type_specification]
#[verifier::external_body]
#[verifier::reject_recursive_types(T)]
pub struct ExUnboundedSender<T>(UnboundedSender<T>);

/// The receiving half of an unbounded channel of the `futures` crate. Verus
/// sees nothing inside it.
#[verifier::external_type_specification]
#[verifier::external_body]
#[verifier::reject_recursive_types(T)]
pub struct ExUnboundedReceiver<T>(UnboundedReceiver<T>);

/// `futures::channel::mpsc::unbounded` makes a channel without a bound and
/// returns its two halves. Nothing is stated of them.
pub assume_specification<T>[ futures::channel::mpsc::unbounded::<T> ]() -> (channel: (
    UnboundedSender<T>,
    UnboundedReceiver<T>,
));

/// Puts an item into the channel without waiting:
/// `UnboundedSender::unbounded_send`, which takes the message unless the
/// receiving half has been closed or dropped.
///
/// Whether the channel took the item depends on what the receiver has done
/// meanwhile, so nothing is promised of the result. The channel itself
/// gives up only when more messages wait in it than it can count, which is
/// more than memory holds.
#[verifier::external_body]
fn send<T>(sender: &UnboundedSender<T>, item: T) -> (sent: bool) {
    sender.unbounded_send(item).is_ok()
}

/// Takes the next item out of the channel without waiting:
/// `UnboundedReceiver::try_recv`, which gives a message that waits, says
/// that the channel is empty, or says that it is empty and closed.
///
/// What comes out depends on what the senders have done meanwhile, so
/// nothing is promised of the result.
#[verifier::external_body]
fn try_receive<T>(events: &mut UnboundedReceiver<T>) -> (polled: Polled<T>) {
    match events.try_recv() {
        Ok(item) => Polled::Ready(item),
        Err(TryRecvError::Closed) => Polled::Finished,
        Err(TryRecvError::Empty) => Polled::Pending,
    }
}

/// What a poll of a sequence came to.
#[derive(Debug)]
pub enum Polled<T> {
    /// The next item.
    Ready(T),
    /// The sequence has ended.
    Finished,
    /// Nothing is there yet.
    Pending,
}

/// What the reader of a sequence does after a poll.
#[derive(Debug)]
pub enum Step<T> {
    /// Hand the item to the caller.
    Yield(T),
    /// Tell the caller that the sequence has ended.
    End,
    /// Wait, serving the apartment meanwhile, then poll again.
    Wait,
}

/// The step that follows a poll.
pub open spec fn step_after<T>(polled: Polled<T>) -> Step<T> {
    match polled {
        Polled::Ready(item) => Step::Yield(item),
        Polled::Finished => Step::End,
        Polled::Pending => Step::Wait,
    }
}

/// What one call for the next item returns when the polls come out as the
/// script says: the item of the first poll that is not pending, or nothing
/// where that poll found the sequence ended. A script of pending polls
/// alone gives no result: the call is still waiting.
pub open spec fn awaited<T>(polls: Seq<Polled<T>>) -> Option<Option<T>>
    decreases polls.len(),
{
    if polls.len() == 0 {
        None
    } else {
        match polls[0] {
            Polled::Ready(item) => Some(Some(item)),
            Polled::Finished => Some(None),
            Polled::Pending => awaited(polls.drop_first()),
        }
    }
}

/// The number of cooperative waits that one call for the next item makes
/// when the polls come out as the script says.
pub open spec fn waits<T>(polls: Seq<Polled<T>>) -> nat
    decreases polls.len(),
{
    if polls.len() == 0 {
        0
    } else {
        match polls[0] {
            Polled::Pending => 1 + waits(polls.drop_first()),
            _ => 0,
        }
    }
}

/// A script of `n` pending polls.
pub open spec fn pendings<T>(n: nat) -> Seq<Polled<T>> {
    Seq::new(n, |i: int| Polled::<T>::Pending)
}

/// Where the source is pending `n` times and then delivers an item, the
/// call returns exactly that item after exactly `n` waits, whatever the
/// source would have delivered later.
pub proof fn lemma_pending_then_ready<T>(n: nat, item: T, rest: Seq<Polled<T>>)
    ensures
        awaited(pendings::<T>(n) + seq![Polled::Ready(item)] + rest) == Some(Some(item)),
        waits(pendings::<T>(n) + seq![Polled::Ready(item)] + rest) == n,
    decreases n,
{
    let script = pendings::<T>(n) + seq![Polled::Ready(item)] + rest;
    if n == 0 {
        assert(script[0] == Polled::Ready(item));
    } else {
        assert(script[0] == Polled::<T>::Pending);
        assert(script.drop_first() =~= pendings::<T>((n - 1) as nat) + seq![Polled::Ready(item)]
            + rest);
        lemma_pending_then_ready((n - 1) as nat, item, rest);
    }
}

/// Where the source is pending `n` times and then ends, the call returns
/// nothing after exactly `n` waits.
pub proof fn lemma_pending_then_finished<T>(n: nat, rest: Seq<Polled<T>>)
    ensures
        awaited(pendings::<T>(n) + seq![Polled::<T>::Finished] + rest) == Some(None::<T>),
        waits(pendings::<T>(n) + seq![Polled::<T>::Finished] + rest) == n,
    decreases n,
{
    let script = pendings::<T>(n) + seq![Polled::<T>::Finished] + rest;
    if n == 0 {
        assert(script[0] == Polled::<T>::Finished);
    } else {
        assert(script[0] == Polled::<T>::Pending);
        assert(script.drop_first() =~= pendings::<T>((n - 1) as nat) + seq![
            Polled::<T>::Finished,
        ] + rest);
        lemma_pending_then_finished::<T>((n - 1) as nat, rest);
    }
}

/// Reads a sequence that is polled as one that is waited for.
///
/// The iterator polls nothing and waits for nothing itself. Its owner polls
/// the source, hands the outcome to [`next`](Self::next) and does what the
/// returned step says, until a step is not `Wait`.
#[derive(Debug)]
pub struct ComEventIterator {}

impl ComEventIterator {
    /// An iterator for one source.
    pub fn new() -> (iterator: ComEventIterator) {
        ComEventIterator {  }
    }

    /// Decides what follows a poll of the source: an item that is there is
    /// handed on without a wait, the end is passed on, and only a pending
    /// source makes the caller wait.
    pub fn next<T>(&mut self, polled: Polled<T>) -> (step: Step<T>)
        ensures
            step == step_after(polled),
    {
        match polled {
            Polled::Ready(item) => Step::Yield(item),
            Polled::Finished => Step::End,
            Polled::Pending => Step::Wait,
        }
    }
}

/// A call for the next item, which follows [`step_after`] poll by poll,
/// waits once for every pending poll before the first that is not, and
/// returns what that poll holds.
pub proof fn lemma_awaited_follows_steps<T>(polls: Seq<Polled<T>>)
    ensures
        awaited(polls) is Some ==> {
            &&& waits(polls) < polls.len()
            &&& forall|i: int| 0 <= i < waits(polls) ==> step_after(#[trigger] polls[i]) is Wait
            &&& match step_after(polls[waits(polls) as int]) {
                Step::Yield(item) => awaited(polls) == Some(Some(item)),
                Step::End => awaited(polls) == Some(None::<T>),
                Step::Wait => false,
            }
        },
        awaited(polls) is None ==> {
            &&& waits(polls) == polls.len()
            &&& forall|i: int| 0 <= i < polls.len() ==> step_after(#[trigger] polls[i]) is Wait
        },
    decreases polls.len(),
{
    if polls.len() != 0 {
        let rest = polls.drop_first();
        lemma_awaited_follows_steps(rest);
        if polls[0] is Pending {
            assert(waits(polls) == 1 + waits(rest));
            assert(waits(rest) <= rest.len());
            assert forall|i: int| 0 <= i < waits(polls) implies step_after(
                #[trigger] polls[i],
            ) is Wait by {
                if i > 0 {
                    assert(polls[i] == rest[i - 1]);
                }
            }
            if awaited(polls) is Some {
                assert(polls[waits(polls) as int] == rest[waits(rest) as int]);
            }
        }
    }
}

/// Remembers that a source has ended, so that it is not polled again.
#[derive(Debug)]
pub struct Fuse {
    ended: bool,
}

impl Fuse {
    /// Whether the source has ended.
    pub closed spec fn ended(&self) -> bool {
        self.ended
    }

    /// The fuse of a source that has not ended.
    pub fn new() -> (fuse: Fuse)
        ensures
            !fuse.ended(),
    {
        Fuse { ended: false }
    }

    /// Tests whether the source has ended: it is then not to be polled,
    /// and stands as finished.
    pub fn is_ended(&self) -> (ended: bool)
        ensures
            ended == self.ended(),
    {
        self.ended
    }

    /// Takes note of a poll of the source: the source has ended once a poll
    /// found it finished.
    pub fn record<T>(&mut self, polled: &Polled<T>)
        ensures
            final(self).ended() == (old(self).ended() || *polled is Finished),
    {
        match polled {
            Polled::Finished => {
                self.ended = true;
            },
            _ => {},
        }
    }
}

/// The status that a notification method answers with: success when the
/// item went into the channel, the one status for an aborted call when it
/// did not.
pub open spec fn delivery_status(sent: bool) -> i32 {
    if sent {
        S_OK
    } else {
        E_ABORT
    }
}

/// Reads the outcome of a delivery into the status that the notifier
/// gets.
pub fn status_of_delivery(sent: bool) -> (status: i32)
    ensures
        status == delivery_status(sent),
{
    if sent {
        S_OK
    } else {
        E_ABORT
    }
}

/// Delivers a notification: puts the item into the channel, which is all
/// that may happen on the notifier's thread, and answers with
/// [`delivery_status`]. Whether the channel takes the item is for its
/// receiver to decide.
pub fn deliver<T>(sender: &UnboundedSender<T>, item: T) -> (status: i32)
    ensures
        status == S_OK || status == E_ABORT,
{
    status_of_delivery(send(sender, item))
}

/// Something done to a subscription.
pub enum BridgeOp {
    /// The channel is polled for a notification.
    Poll,
    /// The subscription is disposed of.
    Dispose,
}

/// Whether a callback is still registered after an operation.
pub open spec fn registered_after(registered: bool, op: BridgeOp) -> bool {
    registered && !(op is Dispose)
}

/// Whether an operation makes the subscription unregister its callback
/// from the notification source: it is the disposal of a registered
/// subscription.
pub open spec fn unregisters(registered: bool, op: BridgeOp) -> bool {
    registered && op is Dispose
}

/// How often a subscription unregisters its callback over a sequence of
/// operations.
pub open spec fn unregistrations(registered: bool, ops: Seq<BridgeOp>) -> nat
    decreases ops.len(),
{
    if ops.len() == 0 {
        0
    } else {
        let rest = unregistrations(registered_after(registered, ops[0]), ops.drop_first());
        if unregisters(registered, ops[0]) {
            1 + rest
        } else {
            rest
        }
    }
}

/// A sequence of `n` polls.
pub open spec fn polls(n: nat) -> Seq<BridgeOp> {
    Seq::new(n, |i: int| BridgeOp::Poll)
}

/// A subscription never unregisters twice, and one that is not registered
/// never unregisters at all.
pub proof fn lemma_unregisters_at_most_once(registered: bool, ops: Seq<BridgeOp>)
    ensures
        unregistrations(registered, ops) <= 1,
        !registered ==> unregistrations(registered, ops) == 0,
    decreases ops.len(),
{
    if ops.len() != 0 {
        lemma_unregisters_at_most_once(registered_after(registered, ops[0]), ops.drop_first());
    }
}

/// Disposing of a registered subscription unregisters exactly once,
/// whether none or many notifications were polled before, and whatever is
/// done to the subscription afterwards.
pub proof fn lemma_dispose_unregisters_once(n: nat, rest: Seq<BridgeOp>)
    ensures
        unregistrations(true, polls(n) + seq![BridgeOp::Dispose] + rest) == 1,
    decreases n,
{
    let ops = polls(n) + seq![BridgeOp::Dispose] + rest;
    if n == 0 {
        assert(ops[0] is Dispose);
        assert(ops.drop_first() =~= rest);
        lemma_unregisters_at_most_once(false, rest);
    } else {
        assert(ops[0] is Poll);
        assert(ops.drop_first() =~= polls((n - 1) as nat) + seq![BridgeOp::Dispose] + rest);
        lemma_dispose_unregisters_once((n - 1) as nat, rest);
    }
}

/// Whether a subscription has ended after a poll: it has once a poll has
/// found it finished, and it stays so.
pub open spec fn ended_after<T>(ended: bool, polled: Polled<T>) -> bool {
    ended || polled is Finished
}

/// The receiving side of a registered callback: the bridge between a
/// notification source and the reader of its notifications.
///
/// A subscription exists only where the registration of its callback
/// succeeded. It owes the notification source one call to unregister,
/// which [`dispose`](Self::dispose) asks for, once. It remembers the end
/// of its notifications: once a poll has found it finished, the channel
/// is not read again.
#[verifier::reject_recursive_types(T)]
pub struct Subscription<T> {
    events: UnboundedReceiver<T>,
    registered: bool,
    fuse: Fuse,
}

impl<T> Subscription<T> {
    /// Whether the callback is still registered with the notification
    /// source.
    pub closed spec fn registered(&self) -> bool {
        self.registered
    }

    /// Whether a poll has found the subscription finished.
    pub closed spec fn ended(&self) -> bool {
        self.fuse.ended()
    }

    /// Makes the subscription from the receiving half of the channel and
    /// the status with which the notification source answered the
    /// registration of the callback. A failed registration leaves no
    /// subscription, and the receiving half is dropped.
    pub fn new(events: UnboundedReceiver<T>, status: i32) -> (subscription: Result<
        Subscription<T>,
        Win32Error,
    >)
        ensures
            status >= 0 ==> (subscription matches Ok(s) && s.registered() && !s.ended()),
            status < 0 ==> (subscription matches Err(e) && e == (Win32Error { code: status })),
    {
        if status >= 0 {
            Ok(Subscription { events, registered: true, fuse: Fuse::new() })
        } else {
            Err(Win32Error::new(status))
        }
    }

    /// Tests whether the callback is still registered.
    pub fn is_registered(&self) -> (registered: bool)
        ensures
            registered == self.registered(),
    {
        self.registered
    }

    /// Tests whether a poll has found the subscription finished.
    pub fn is_ended(&self) -> (ended: bool)
        ensures
            ended == self.ended(),
    {
        self.fuse.is_ended()
    }

    /// Polls for the next notification. A subscription that was disposed
    /// of is finished: what the channel still holds is discarded. So is a
    /// subscription that an earlier poll has found finished. Any other
    /// subscription gives what its channel gives, and has ended if that is
    /// the end.
    pub fn poll(&mut self) -> (polled: Polled<T>)
        ensures
            final(self).registered() == registered_after(old(self).registered(), BridgeOp::Poll),
            (!old(self).registered() || old(self).ended()) ==> polled is Finished,
            final(self).ended() == ended_after(old(self).ended(), polled),
    {
        let polled = if self.registered && !self.fuse.is_ended() {
            try_receive(&mut self.events)
        } else {
            Polled::Finished
        };
        self.fuse.record(&polled);
        polled
    }

    /// Disposes of the subscription and says whether the callback is now
    /// to be unregistered: it is, the first time, and never again.
    pub fn dispose(&mut self) -> (unregister: bool)
        ensures
            unregister == unregisters(old(self).registered(), BridgeOp::Dispose),
            final(self).registered() == registered_after(
                old(self).registered(),
                BridgeOp::Dispose,
            ),
            final(self).ended() == old(self).ended(),
    {
        let unregister = self.registered;
        self.registered = false;
        unregister
    }
}

} // verus!
