//! The broadcast channel of `tokio` behind the event bus.
//!
//! All handles of a channel share it, and it changes while they are only borrowed, so
//! nothing here speaks of what a channel holds at one moment. The names below speak of
//! the whole life of the channel that a handle belongs to: which events it accepts from
//! its opening to its end, and in what order. For a channel of a run of the program
//! that is one fixed record, the same whenever and through whichever handle it is
//! looked at.
//!
//! What moves belongs to a subscription: the position that it reads next, and how many
//! events its channel is known to have accepted. Both move only through an exclusive borrow of
//! the subscription. Some calls take subscriptions that are not handed on to the channel.
//! To borrow a subscription is to know that it is alive during the call and that it is not
//! read meanwhile, which is what the outcome of the call depends on.
use tokio::sync::broadcast;
use tokio::sync::broadcast::error::TryRecvError;
use vstd::prelude::*;

use crate::app_event::{AppEvent, AppEventView, Received};

verus! {

/// The largest buffer that a channel can be opened with. A slot of the buffer takes
/// fewer than 256 bytes, and the buffer, rounded up to a power of two, has to fit
/// in half of the address space.
pub const MAX_EVENT_BUFFER: usize = usize::MAX / 512;

/// `tokio::sync::broadcast::Sender`, opaque: a handle on a channel that events are
/// put into.
#[verifier::external_type_specification]
#[verifier::external_body]
#[verifier::reject_recursive_types(T)]
pub struct ExSender<T>(broadcast::Sender<T>);

/// `tokio::sync::broadcast::Receiver`, opaque: a subscription to a channel, with
/// the position of the event that it reads next.
#[verifier::external_type_specification]
#[verifier::external_body]
#[verifier::reject_recursive_types(T)]
pub struct ExReceiver<T>(broadcast::Receiver<T>);

/// `receiver` is subscribed to the channel of `sender`.
pub uninterp spec fn subscribed(
    receiver: broadcast::Receiver<AppEvent>,
    sender: broadcast::Sender<AppEvent>,
) -> bool;

/// The events that the channel of `sender` accepts over its whole life, by their
/// position: the first one has position 0, the next one 1, and so on.
pub uninterp spec fn sent_on(sender: broadcast::Sender<AppEvent>) -> Map<nat, AppEventView>;

/// How many subscriptions are alive when the channel of `sender` accepts an event, by the
/// position of the event.
pub uninterp spec fn heard_on(sender: broadcast::Sender<AppEvent>) -> Map<nat, nat>;

/// The events that the channel of `sender` turns away over its whole life, because
/// nobody is subscribed when they are offered.
pub uninterp spec fn refused_on(sender: broadcast::Sender<AppEvent>) -> Set<AppEventView>;

/// The buffer size that the channel of `sender` was opened with.
pub uninterp spec fn room_on(sender: broadcast::Sender<AppEvent>) -> nat;

/// The events that the channel `receiver` is subscribed to accepts over its whole
/// life, by their position.
pub uninterp spec fn sent_to(receiver: broadcast::Receiver<AppEvent>) -> Map<nat, AppEventView>;

/// The position at which `receiver` was subscribed: that of the first event that its
/// channel accepts afterwards.
pub uninterp spec fn opened_at(receiver: broadcast::Receiver<AppEvent>) -> nat;

/// The position of the event that `receiver` reads next.
pub uninterp spec fn position_of(receiver: broadcast::Receiver<AppEvent>) -> nat;

/// How many events the channel of `receiver` had accepted when `receiver` was last borrowed
/// exclusively: as it was subscribed, as it was read, or as an event was sent while it was
/// lent for that, with that event and up to it. By now it can be more.
pub uninterp spec fn known_to(receiver: broadcast::Receiver<AppEvent>) -> nat;

/// The buffer size that the channel `receiver` is subscribed to was opened with.
pub uninterp spec fn room_to(receiver: broadcast::Receiver<AppEvent>) -> nat;

/// How many events a channel holds that was opened with a buffer size of `room`: the
/// smallest power of two that is not less.
pub open spec fn slots(room: nat) -> nat
    decreases room,
{
    if room <= 1 {
        1
    } else {
        2 * slots(((room + 1) / 2) as nat)
    }
}

/// `after` is the subscription that `before` is, later on and not read in between.
pub open spec fn same_subscription(
    before: broadcast::Receiver<AppEvent>,
    after: broadcast::Receiver<AppEvent>,
) -> bool {
    &&& forall|sender: broadcast::Sender<AppEvent>| #[trigger]
        subscribed(after, sender) == subscribed(before, sender)
    &&& sent_to(after) == sent_to(before)
    &&& room_to(after) == room_to(before)
    &&& opened_at(after) == opened_at(before)
    &&& position_of(after) == position_of(before)
    &&& known_to(before) <= known_to(after)
}

/// What one attempt to read does: `before` is the subscription at the call, `after`
/// the subscription at the return. How many events the channel has accepted when it is
/// read is known afterwards, and decides:
///
/// - None is ahead of the subscription. There is nothing to read, or the channel is closed,
///   and the subscription stays.
/// - Some are ahead, no more than the channel holds. The event at the position of the
///   subscription is read, which moves on by one.
/// - More are ahead than the channel holds. The subscription has lagged: it skips the oldest
///   ones, just those that are too many.
pub open spec fn reads(
    before: broadcast::Receiver<AppEvent>,
    outcome: Received,
    after: broadcast::Receiver<AppEvent>,
) -> bool {
    let start = position_of(before);
    let end = known_to(after);
    let held = slots(room_to(before));
    &&& forall|sender: broadcast::Sender<AppEvent>| #[trigger]
        subscribed(after, sender) == subscribed(before, sender)
    &&& sent_to(after) == sent_to(before)
    &&& room_to(after) == room_to(before)
    &&& opened_at(after) == opened_at(before)
    &&& start <= known_to(before) <= end
    &&& forall|p: nat| p < end ==> #[trigger] sent_to(before).dom().contains(p)
    &&& match outcome {
        Received::Event(event) => {
            &&& start < end <= start + held
            &&& event@ == sent_to(before)[start]
            &&& position_of(after) == start + 1
        },
        Received::Empty => end == start && position_of(after) == start,
        Received::Closed => end == start && position_of(after) == start,
        Received::Lagged(missed) => {
            &&& end > start + held
            &&& missed == end - held - start
            &&& position_of(after) == end - held
        },
    }
}

/// Calls `tokio::sync::broadcast::channel` and keeps the sending half; the receiving
/// half is dropped, so the channel starts without subscribers. The `others` are
/// subscriptions that are there before the call.
///
/// Claimed: the channel was opened with `capacity`, and none of the others is subscribed
/// to it. The outside function panics on 0 and where the buffer cannot be allocated; both
/// are left out.
#[verifier::external_body]
pub(crate) fn open_channel(
    capacity: usize,
    others: &[broadcast::Receiver<AppEvent>],
) -> (sender: broadcast::Sender<AppEvent>)
    requires
        1 <= capacity <= MAX_EVENT_BUFFER,
    ensures
        room_on(sender) == capacity,
        forall|i: int| 0 <= i < others@.len() ==> !subscribed(#[trigger] others@[i], sender),
{
    let (sender, _) = broadcast::channel(capacity);
    sender
}

/// The channel of `sender` accepts `event` at `position`, while `receivers` subscriptions
/// are alive.
pub open spec fn accepted_at(
    sender: broadcast::Sender<AppEvent>,
    position: nat,
    event: AppEventView,
    receivers: nat,
) -> bool {
    &&& receivers >= 1
    &&& sent_on(sender).dom().contains(position)
    &&& sent_on(sender)[position] == event
    &&& heard_on(sender).dom().contains(position)
    &&& heard_on(sender)[position] == receivers
}

/// The channel carries `event` at `position`, which `receiver` has not passed.
pub open spec fn is_at(
    receiver: broadcast::Receiver<AppEvent>,
    position: nat,
    event: AppEventView,
) -> bool {
    &&& position_of(receiver) <= position
    &&& sent_to(receiver).dom().contains(position)
    &&& sent_to(receiver)[position] == event
}

/// The channel carries `event` at `position`, none of `receivers` has passed it, and all of
/// them know of it.
pub open spec fn is_known_to_all(
    receivers: Seq<broadcast::Receiver<AppEvent>>,
    position: nat,
    event: AppEventView,
) -> bool {
    forall|i: int|
        0 <= i < receivers.len() ==> is_at(#[trigger] receivers[i], position, event) && position
            < known_to(receivers[i])
}

/// The event at `position` is the last one that each of `receivers` knows of.
pub open spec fn is_last_known_to_all(
    receivers: Seq<broadcast::Receiver<AppEvent>>,
    position: nat,
) -> bool {
    forall|i: int| 0 <= i < receivers.len() ==> known_to(#[trigger] receivers[i]) == position + 1
}

/// Someone is subscribed to the channel of `sender` by the time that it accepts the event at
/// `position`.
pub open spec fn is_heard_at(sender: broadcast::Sender<AppEvent>, position: nat) -> bool {
    exists|receiver: broadcast::Receiver<AppEvent>| #[trigger]
        subscribed(receiver, sender) && opened_at(receiver) <= position
}

/// `position` is past all events that any of `receivers` knows of.
pub open spec fn is_new_to_all(
    receivers: Seq<broadcast::Receiver<AppEvent>>,
    position: nat,
) -> bool {
    forall|i: int| 0 <= i < receivers.len() ==> known_to(#[trigger] receivers[i]) <= position
}

/// `after` are the subscriptions that `before` are, one by one, later on and not read in
/// between.
pub open spec fn same_subscriptions<T: ChannelEvent>(
    before: Seq<broadcast::Receiver<T>>,
    after: Seq<broadcast::Receiver<T>>,
) -> bool {
    &&& after.len() == before.len()
    &&& forall|i: int| 0 <= i < after.len() ==> T::is_later(before[i], #[trigger] after[i])
}

/// All of `receivers` are subscribed to the channel of `sender`.
pub open spec fn all_subscribed<T: ChannelEvent>(
    receivers: Seq<broadcast::Receiver<T>>,
    sender: broadcast::Sender<T>,
) -> bool {
    forall|i: int| 0 <= i < receivers.len() ==> T::is_subscribed(#[trigger] receivers[i], sender)
}

/// What it is for events of some type to be sent through a channel.
pub trait ChannelEvent: Sized {
    /// `receiver` is subscribed to the channel of `sender`.
    spec fn is_subscribed(
        receiver: broadcast::Receiver<Self>,
        sender: broadcast::Sender<Self>,
    ) -> bool;

    /// `after` is the subscription that `before` is, later on and not read in between.
    spec fn is_later(
        before: broadcast::Receiver<Self>,
        after: broadcast::Receiver<Self>,
    ) -> bool;

    /// `event` was offered to the channel of `sender`, which carries it or turns it away.
    spec fn is_offered(sender: broadcast::Sender<Self>, event: Self) -> bool;

    /// All of `receivers` have `event` ahead and know of it.
    spec fn is_ahead_of_all(receivers: Seq<broadcast::Receiver<Self>>, event: Self) -> bool;

    /// `outcome` is what comes of sending `event` once, while some are subscribed, who are
    /// `before` at first and `after` in the end.
    spec fn sends(
        sender: broadcast::Sender<Self>,
        event: Self,
        before: Seq<broadcast::Receiver<Self>>,
        after: Seq<broadcast::Receiver<Self>>,
        outcome: Result<usize, Self>,
    ) -> bool;
}

/// Events that can be sent.
///
/// Whoever publishes events of any such type knows nothing else of them: there is no way to
/// copy an event, to make up another one, or to subscribe, only to send the one that there is.
/// What one sending does is a relation between the subscriptions before and after it, and nothing
/// says that two sendings in a row are related by it.
pub trait BusEvent: ChannelEvent {
    /// Send `event` once.
    fn send(
        sender: &broadcast::Sender<Self>,
        event: Self,
        subscribers: &mut [broadcast::Receiver<Self>],
    ) -> (outcome: Result<usize, Self>)
        requires
            all_subscribed(old(subscribers)@, *sender),
        ensures
            Self::sends(*sender, event, old(subscribers)@, final(subscribers)@, outcome),
            same_subscriptions(old(subscribers)@, final(subscribers)@),
            forall|other: broadcast::Sender<Self>, i: int|
                0 <= i < final(subscribers)@.len() ==> #[trigger] Self::is_subscribed(
                    final(subscribers)@[i],
                    other,
                ) == Self::is_subscribed(old(subscribers)@[i], other),
            outcome matches Ok(receivers) ==> receivers >= 1 && receivers
                >= final(subscribers)@.len(),
            outcome matches Err(returned) ==> returned == event,
            old(subscribers)@.len() > 0 ==> outcome is Ok,
            Self::is_offered(*sender, event),
            old(subscribers)@.len() > 0 ==> Self::is_ahead_of_all(final(subscribers)@, event),
    ;
}

/// Calls `tokio::sync::broadcast::Sender::send`. The `subscribers` are subscriptions to
/// the channel that are alive during the call; they are not read.
///
/// Claimed: the event is accepted at some position, and then the number of subscriptions
/// that are alive at that point is returned; or it is turned away, and then it comes back.
/// It is turned away only where nobody is subscribed. So with live subscribers it is
/// accepted, they are counted, none of them has passed its position, and it is the last of the
/// events accepted by then, past those accepted before. It is accepted only where someone has
/// subscribed by then. Whether anyone else is subscribed at that moment, and what others send
/// meanwhile, is left unsaid.
#[verifier::external_body]
pub(crate) fn send_event(
    sender: &broadcast::Sender<AppEvent>,
    event: AppEvent,
    subscribers: &mut [broadcast::Receiver<AppEvent>],
) -> (outcome: Result<usize, AppEvent>)
    requires
        all_subscribed(old(subscribers)@, *sender),
    ensures
        same_subscriptions(old(subscribers)@, final(subscribers)@),
        match outcome {
            Ok(receivers) => {
                &&& receivers >= final(subscribers)@.len()
                &&& exists|p: nat| #[trigger]
                    accepted_at(*sender, p, event@, receivers as nat) && is_new_to_all(
                        old(subscribers)@,
                        p,
                    ) && is_known_to_all(final(subscribers)@, p, event@) && is_last_known_to_all(
                        final(subscribers)@,
                        p,
                    ) && is_heard_at(*sender, p)
            },
            Err(returned) => {
                &&& returned == event
                &&& refused_on(*sender).contains(event@)
                &&& final(subscribers)@.len() == 0
            },
        },
{
    sender.send(event).map_err(|error| error.0)
}

impl ChannelEvent for AppEvent {
    open spec fn is_subscribed(
        receiver: broadcast::Receiver<AppEvent>,
        sender: broadcast::Sender<AppEvent>,
    ) -> bool {
        subscribed(receiver, sender)
    }

    open spec fn is_later(
        before: broadcast::Receiver<AppEvent>,
        after: broadcast::Receiver<AppEvent>,
    ) -> bool {
        same_subscription(before, after)
    }

    open spec fn is_offered(sender: broadcast::Sender<AppEvent>, event: AppEvent) -> bool {
        sent_on(sender).contains_value(event@) || refused_on(sender).contains(event@)
    }

    open spec fn is_ahead_of_all(
        receivers: Seq<broadcast::Receiver<AppEvent>>,
        event: AppEvent,
    ) -> bool {
        exists|p: nat| #[trigger] is_known_to_all(receivers, p, event@)
    }

    /// - The channel accepts the event at some position, and the number of subscriptions that
    ///   are alive at that point is returned. The subscribers are among them, the event is past
    ///   all that they knew of, none of them has passed it, and it is the last one that they
    ///   know of then.
    /// - Nobody is subscribed. The channel turns the event away, and it is returned.
    open spec fn sends(
        sender: broadcast::Sender<AppEvent>,
        event: AppEvent,
        before: Seq<broadcast::Receiver<AppEvent>>,
        after: Seq<broadcast::Receiver<AppEvent>>,
        outcome: Result<usize, AppEvent>,
    ) -> bool {
        match outcome {
            Ok(receivers) => {
                &&& receivers >= after.len()
                &&& exists|p: nat| #[trigger]
                    accepted_at(sender, p, event@, receivers as nat) && is_new_to_all(before, p)
                        && is_known_to_all(after, p, event@) && is_last_known_to_all(after, p)
                        && is_heard_at(sender, p)
            },
            Err(returned) => {
                &&& returned == event
                &&& refused_on(sender).contains(event@)
                &&& after.len() == 0
            },
        }
    }
}

impl BusEvent for AppEvent {
    fn send(
        sender: &broadcast::Sender<AppEvent>,
        event: AppEvent,
        subscribers: &mut [broadcast::Receiver<AppEvent>],
    ) -> (outcome: Result<usize, AppEvent>) {
        let ghost said = event@;
        let outcome = send_event(sender, event, subscribers);
        proof {
            if let Ok(receivers) = outcome {
                let p = choose|p: nat| #[trigger]
                    accepted_at(*sender, p, said, receivers as nat) && is_new_to_all(
                        old(subscribers)@,
                        p,
                    ) && is_known_to_all(subscribers@, p, said) && is_last_known_to_all(
                        subscribers@,
                        p,
                    ) && is_heard_at(*sender, p);
                assert(is_known_to_all(subscribers@, p, said));
                assert(sent_on(*sender).dom().contains(p) && sent_on(*sender)[p] == said);
            }
        }
        outcome
    }
}

/// Calls `tokio::sync::broadcast::Sender::subscribe`. The `older` are subscriptions to the
/// channel that are there before the call.
///
/// Claimed: the subscription belongs to the channel of `sender` and reads next the first
/// event that the channel accepts after the call, at the position that it was opened at;
/// that is how many events have been accepted, so it is past all that an older subscription
/// has read or knows of. How many those are in all depends on what has been sent so far, and
/// is left unsaid. The outside function panics where more than a quarter of `usize::MAX`
/// subscriptions are alive, more than memory can hold.
#[verifier::external_body]
pub(crate) fn subscribe_to(
    sender: &broadcast::Sender<AppEvent>,
    older: &[broadcast::Receiver<AppEvent>],
) -> (receiver: broadcast::Receiver<AppEvent>)
    requires
        all_subscribed(older@, *sender),
    ensures
        subscribed(receiver, *sender),
        sent_to(receiver) == sent_on(*sender),
        room_to(receiver) == room_on(*sender),
        position_of(receiver) == opened_at(receiver),
        known_to(receiver) == opened_at(receiver),
        forall|p: nat|
            p < opened_at(receiver) ==> #[trigger] sent_to(receiver).dom().contains(p),
        forall|i: int|
            0 <= i < older@.len() ==> position_of(#[trigger] older@[i]) <= opened_at(receiver)
                && known_to(older@[i]) <= opened_at(receiver),
{
    sender.subscribe()
}

/// Calls `Clone::clone` on a `tokio::sync::broadcast::Sender`.
///
/// Claimed: the clone is a handle on the same channel.
#[verifier::external_body]
pub(crate) fn clone_sender(
    sender: &broadcast::Sender<AppEvent>,
) -> (clone: broadcast::Sender<AppEvent>)
    ensures
        forall|receiver: broadcast::Receiver<AppEvent>| #[trigger]
            subscribed(receiver, clone) == subscribed(receiver, *sender),
        sent_on(clone) == sent_on(*sender),
        heard_on(clone) == heard_on(*sender),
        refused_on(clone) == refused_on(*sender),
        room_on(clone) == room_on(*sender),
{
    sender.clone()
}

/// Calls `tokio::sync::broadcast::Receiver::try_recv`, which hands out a clone of the
/// event it reads.
///
/// Claimed: the outcome and the new position are as `reads` says. How many events have been
/// accepted by then, beyond those known to the subscription before, is left unsaid, and so
/// is whether a subscription with none ahead finds the channel closed. Positions are 64
/// bits wide in the channel.
#[verifier::external_body]
pub(crate) fn try_receive(receiver: &mut broadcast::Receiver<AppEvent>) -> (outcome: Received)
    ensures
        reads(*old(receiver), outcome, *final(receiver)),
{
    match receiver.try_recv() {
        Ok(event) => Received::Event(event),
        Err(TryRecvError::Empty) => Received::Empty,
        Err(TryRecvError::Closed) => Received::Closed,
        Err(TryRecvError::Lagged(missed)) => Received::Lagged(missed),
    }
}

} // verus!
