//! What a subscriber of the event bus can rely on.
//!
//! A subscription is read again and again. `handles` are the states that it goes through:
//! `handles[i]` is read next, with the outcome `outcomes[i]`, and is `handles[i + 1]` then.
use tokio::sync::broadcast;
use vstd::prelude::*;

use crate::app_event::{AppEvent, AppEventBus, AppEventView, Received, DEFAULT_EVENT_BUFFER};
use crate::channel::{
    is_at, is_known_to_all, is_new_to_all, known_to, opened_at, position_of, reads, room_to,
    same_subscription, sent_to, slots,
};

verus! {

/// `outcomes` is what comes of reading a subscription again and again.
pub open spec fn is_reading(
    handles: Seq<broadcast::Receiver<AppEvent>>,
    outcomes: Seq<Received>,
) -> bool {
    &&& handles.len() == outcomes.len() + 1
    &&& forall|i: int|
        0 <= i < outcomes.len() ==> reads(handles[i], #[trigger] outcomes[i], handles[i + 1])
}

/// The outcome of a read is an event that says `event`.
pub open spec fn is_event(outcome: Received, event: AppEventView) -> bool {
    outcome matches Received::Event(read) && read@ == event
}

/// The event at `position` is read at some point, as it was published.
pub open spec fn is_read(
    handles: Seq<broadcast::Receiver<AppEvent>>,
    outcomes: Seq<Received>,
    position: nat,
) -> bool {
    exists|i: int|
        #![trigger outcomes[i]]
        0 <= i < outcomes.len() && position_of(handles[i]) == position && is_event(
            outcomes[i],
            sent_to(handles[0])[position],
        )
}

/// A channel holds at least as many events as it was opened for, and fewer than twice as
/// many.
pub proof fn slots_hold_the_room(room: nat)
    requires
        room >= 1,
    ensures
        room <= slots(room) < 2 * room,
    decreases room,
{
    if room > 1 {
        slots_hold_the_room(((room + 1) / 2) as nat);
    }
}

/// A channel that was opened with the default buffer size holds just as many events.
pub proof fn the_default_buffer_has_no_more_slots()
    ensures
        slots(DEFAULT_EVENT_BUFFER as nat) == 1024,
{
    reveal_with_fuel(slots, 11);
}

/// A subscription only moves on: from one read to a later one it stays with its bus and with
/// where it was opened, it does not go back, and it does not know of less.
pub proof fn a_subscription_moves_on(
    handles: Seq<broadcast::Receiver<AppEvent>>,
    outcomes: Seq<Received>,
    i: int,
    j: int,
)
    requires
        is_reading(handles, outcomes),
        0 <= i <= j < handles.len(),
    ensures
        sent_to(handles[i]) == sent_to(handles[j]),
        room_to(handles[i]) == room_to(handles[j]),
        opened_at(handles[i]) == opened_at(handles[j]),
        position_of(handles[i]) <= position_of(handles[j]),
        known_to(handles[i]) <= known_to(handles[j]),
    decreases j - i,
{
    if i < j {
        a_subscription_moves_on(handles, outcomes, i, j - 1);
        assert(reads(handles[j - 1], outcomes[j - 1], handles[j]));
    }
}

/// Events arrive in the order in which they were published, each one as it was published
/// and none twice: what is read first was published first.
pub proof fn events_arrive_once_and_in_order(
    handles: Seq<broadcast::Receiver<AppEvent>>,
    outcomes: Seq<Received>,
    i: int,
    j: int,
    first: AppEvent,
    second: AppEvent,
)
    requires
        is_reading(handles, outcomes),
        0 <= i < j < outcomes.len(),
        outcomes[i] == Received::Event(first),
        outcomes[j] == Received::Event(second),
    ensures
        position_of(handles[i]) < position_of(handles[j]),
        first@ == sent_to(handles[0])[position_of(handles[i])],
        second@ == sent_to(handles[0])[position_of(handles[j])],
{
    assert(reads(handles[i], outcomes[i], handles[i + 1]));
    assert(reads(handles[j], outcomes[j], handles[j + 1]));
    a_subscription_moves_on(handles, outcomes, 0, i);
    a_subscription_moves_on(handles, outcomes, i + 1, j);
    a_subscription_moves_on(handles, outcomes, 0, j);
}

/// Subscribers of one bus hear the same: two of them that read an event at the same position
/// read events that say the same.
pub proof fn subscribers_hear_the_same(
    before1: broadcast::Receiver<AppEvent>,
    event1: AppEvent,
    after1: broadcast::Receiver<AppEvent>,
    before2: broadcast::Receiver<AppEvent>,
    event2: AppEvent,
    after2: broadcast::Receiver<AppEvent>,
)
    requires
        sent_to(before1) == sent_to(before2),
        position_of(before1) == position_of(before2),
        reads(before1, Received::Event(event1), after1),
        reads(before2, Received::Event(event2), after2),
    ensures
        event1@ == event2@,
        position_of(after1) == position_of(after2),
{
}

/// It does not matter through which handle an event is published: what a clone of the
/// bus carries is carried to every subscription of the bus.
pub proof fn clones_reach_every_subscription(
    bus: AppEventBus,
    clone: AppEventBus,
    receiver: broadcast::Receiver<AppEvent>,
    position: nat,
    event: AppEventView,
    receivers: nat,
)
    requires
        clone.same_bus(bus),
        sent_to(receiver) == bus.sent(),
        clone.carries(position, event, receivers),
    ensures
        bus.carries(position, event, receivers),
        sent_to(receiver).dom().contains(position),
        sent_to(receiver)[position] == event,
{
}

/// What a subscription knows of and has not read is there: a read gives an event, or has
/// lagged, and does not come back empty or closed.
pub proof fn a_known_event_is_there(
    before: broadcast::Receiver<AppEvent>,
    outcome: Received,
    after: broadcast::Receiver<AppEvent>,
)
    requires
        reads(before, outcome, after),
        position_of(before) < known_to(before),
    ensures
        outcome is Event || outcome is Lagged,
        position_of(before) < position_of(after),
{
}

/// Whoever reads on reaches every event that is known of: so many reads pass its position.
pub proof fn reading_on_reaches_every_known_event(
    handles: Seq<broadcast::Receiver<AppEvent>>,
    outcomes: Seq<Received>,
    position: nat,
)
    requires
        is_reading(handles, outcomes),
        position_of(handles[0]) <= position < known_to(handles[0]),
        outcomes.len() > position - position_of(handles[0]),
    ensures
        position < position_of(handles.last()),
{
    let steps = position - position_of(handles[0]) + 1;
    so_many_reads_move_so_far(handles, outcomes, position, steps);
    a_subscription_moves_on(handles, outcomes, steps, handles.len() - 1);
}

/// As long as it has not passed a known event, every read moves a subscription on.
proof fn so_many_reads_move_so_far(
    handles: Seq<broadcast::Receiver<AppEvent>>,
    outcomes: Seq<Received>,
    position: nat,
    n: int,
)
    requires
        is_reading(handles, outcomes),
        position_of(handles[0]) <= position < known_to(handles[0]),
        0 <= n <= outcomes.len(),
        n <= position - position_of(handles[0]) + 1,
    ensures
        position_of(handles[0]) + n <= position_of(handles[n]),
    decreases n,
{
    if n > 0 {
        so_many_reads_move_so_far(handles, outcomes, position, n - 1);
        a_subscription_moves_on(handles, outcomes, 0, n - 1);
        assert(reads(handles[n - 1], outcomes[n - 1], handles[n]));
    }
}

/// The newest events are never lost: whoever has read on past an event has read it, as it
/// was published, unless more newer ones were published by the end than the bus holds. It
/// does not matter how far the subscription lagged before.
pub proof fn the_newest_are_never_lost(
    handles: Seq<broadcast::Receiver<AppEvent>>,
    outcomes: Seq<Received>,
    position: nat,
)
    requires
        is_reading(handles, outcomes),
        position_of(handles[0]) <= position < position_of(handles.last()),
        known_to(handles.last()) <= position + slots(room_to(handles[0])),
    ensures
        is_read(handles, outcomes, position),
{
    let i = the_read_that_passes(handles, outcomes, position);
    assert(reads(handles[i], outcomes[i], handles[i + 1]));
    a_subscription_moves_on(handles, outcomes, 0, i);
    a_subscription_moves_on(handles, outcomes, i + 1, handles.len() - 1);
    assert(outcomes[i] is Event);
    assert(position_of(handles[i]) == position);
}

/// Where a reading goes past a position, one of its reads does.
proof fn the_read_that_passes(
    handles: Seq<broadcast::Receiver<AppEvent>>,
    outcomes: Seq<Received>,
    position: nat,
) -> (i: int)
    requires
        is_reading(handles, outcomes),
        position_of(handles[0]) <= position < position_of(handles.last()),
    ensures
        0 <= i < outcomes.len(),
        position_of(handles[i]) <= position < position_of(handles[i + 1]),
    decreases outcomes.len(),
{
    let last = outcomes.len() - 1;
    if position_of(handles[last]) <= position {
        last
    } else {
        let shorter = outcomes.drop_last();
        assert forall|i: int| 0 <= i < shorter.len() implies reads(
            handles.drop_last()[i],
            #[trigger] shorter[i],
            handles.drop_last()[i + 1],
        ) by {
            assert(shorter[i] == outcomes[i]);
        }
        the_read_that_passes(handles.drop_last(), shorter, position)
    }
}

/// What is published to a live subscriber is received: an event that was published while the
/// subscription was there, so that it is ahead of it and known to it, is read by whoever
/// reads on, as it was published, unless more newer ones were published meanwhile than the
/// bus holds.
pub proof fn a_published_event_is_received(
    handles: Seq<broadcast::Receiver<AppEvent>>,
    outcomes: Seq<Received>,
    position: nat,
    published: AppEventView,
)
    requires
        is_reading(handles, outcomes),
        is_at(handles[0], position, published),
        position < known_to(handles[0]),
        outcomes.len() > position - position_of(handles[0]),
        known_to(handles.last()) <= position + slots(room_to(handles[0])),
    ensures
        exists|i: int| 0 <= i < outcomes.len() && is_event(#[trigger] outcomes[i], published),
{
    reading_on_reaches_every_known_event(handles, outcomes, position);
    the_newest_are_never_lost(handles, outcomes, position);
}

/// Every subscriber gets all events that fit in the buffer, once and in order, whoever else
/// reads: as long as no more events lie past where a subscription was than the bus holds,
/// the events known to it then are what its next reads give, one by one.
pub proof fn everything_within_the_buffer_arrives(
    handles: Seq<broadcast::Receiver<AppEvent>>,
    outcomes: Seq<Received>,
)
    requires
        is_reading(handles, outcomes),
        position_of(handles[0]) + outcomes.len() <= known_to(handles[0]),
        known_to(handles.last()) <= position_of(handles[0]) + slots(room_to(handles[0])),
    ensures
        forall|i: int|
            0 <= i < outcomes.len() ==> is_event(
                #[trigger] outcomes[i],
                sent_to(handles[0])[(position_of(handles[0]) + i) as nat],
            ),
        position_of(handles.last()) == position_of(handles[0]) + outcomes.len(),
{
    so_far_everything_has_arrived(handles, outcomes, outcomes.len() as int);
}

/// The first `n` reads give the first `n` events.
proof fn so_far_everything_has_arrived(
    handles: Seq<broadcast::Receiver<AppEvent>>,
    outcomes: Seq<Received>,
    n: int,
)
    requires
        is_reading(handles, outcomes),
        0 <= n <= outcomes.len(),
        position_of(handles[0]) + n <= known_to(handles[0]),
        known_to(handles.last()) <= position_of(handles[0]) + slots(room_to(handles[0])),
    ensures
        forall|i: int|
            0 <= i < n ==> is_event(
                #[trigger] outcomes[i],
                sent_to(handles[0])[(position_of(handles[0]) + i) as nat],
            ),
        position_of(handles[n]) == position_of(handles[0]) + n,
    decreases n,
{
    if n > 0 {
        so_far_everything_has_arrived(handles, outcomes, n - 1);
        a_subscription_moves_on(handles, outcomes, 0, n - 1);
        a_subscription_moves_on(handles, outcomes, n, handles.len() - 1);
        assert(reads(handles[n - 1], outcomes[n - 1], handles[n]));
    }
}

/// Where nothing is published that has not been read, there is nothing to read.
pub proof fn nothing_else_is_read(
    before: broadcast::Receiver<AppEvent>,
    outcome: Received,
    after: broadcast::Receiver<AppEvent>,
)
    requires
        reads(before, outcome, after),
        known_to(after) == position_of(before),
    ensures
        outcome is Empty || outcome is Closed,
{
}

/// An overfull buffer loses the oldest events and keeps the newest: where `count` events are
/// known to a subscription that has read none of them, more than the bus holds, and no other
/// is published meanwhile, the first read has lagged by just those that are too many, and
/// the next ones give the newest, as many as the bus holds, one by one.
pub proof fn an_overfull_buffer_keeps_the_newest(
    handles: Seq<broadcast::Receiver<AppEvent>>,
    outcomes: Seq<Received>,
    count: nat,
)
    requires
        is_reading(handles, outcomes),
        known_to(handles[0]) == position_of(handles[0]) + count,
        known_to(handles.last()) == known_to(handles[0]),
        count > slots(room_to(handles[0])),
        1 <= outcomes.len() <= 1 + slots(room_to(handles[0])),
    ensures
        outcomes[0] matches Received::Lagged(missed) && missed == count - slots(
            room_to(handles[0]),
        ),
        forall|i: int|
            1 <= i < outcomes.len() ==> is_event(
                #[trigger] outcomes[i],
                sent_to(handles[0])[(known_to(handles[0]) - slots(room_to(handles[0])) + i
                    - 1) as nat],
            ),
{
    assert(reads(handles[0], outcomes[0], handles[1]));
    a_subscription_moves_on(handles, outcomes, 1, handles.len() - 1);
    let rest = handles.skip(1);
    let read = outcomes.skip(1);
    assert forall|i: int| 0 <= i < read.len() implies reads(
        rest[i],
        #[trigger] read[i],
        rest[i + 1],
    ) by {
        assert(read[i] == outcomes[i + 1]);
    }
    assert(rest.last() == handles.last());
    everything_within_the_buffer_arrives(rest, read);
    assert forall|i: int| 1 <= i < outcomes.len() implies is_event(
        #[trigger] outcomes[i],
        sent_to(handles[0])[(known_to(handles[0]) - slots(room_to(handles[0])) + i - 1) as nat],
    ) by {
        assert(read[i - 1] == outcomes[i]);
    }
}

/// What the default buffer keeps and loses, on a bus that was opened without naming a buffer
/// size. Let `count` events be known to a subscription that has read none of them, and no
/// other be published meanwhile. No more than 1024 are read one by one. Of more, all but the
/// last 1024 are lost at once, and these are read then, one by one.
pub proof fn the_default_buffer_keeps_the_newest(
    bus: AppEventBus,
    handles: Seq<broadcast::Receiver<AppEvent>>,
    outcomes: Seq<Received>,
    count: nat,
)
    requires
        bus.room() == DEFAULT_EVENT_BUFFER,
        is_reading(handles, outcomes),
        room_to(handles[0]) == bus.room(),
        known_to(handles[0]) == position_of(handles[0]) + count,
        known_to(handles.last()) == known_to(handles[0]),
        1 <= outcomes.len(),
    ensures
        count <= 1024 && outcomes.len() <= count ==> forall|i: int|
            0 <= i < outcomes.len() ==> is_event(
                #[trigger] outcomes[i],
                sent_to(handles[0])[(position_of(handles[0]) + i) as nat],
            ),
        count > 1024 && outcomes.len() <= 1025 ==> {
            &&& outcomes[0] matches Received::Lagged(missed) && missed == count - 1024
            &&& forall|i: int|
                1 <= i < outcomes.len() ==> is_event(
                    #[trigger] outcomes[i],
                    sent_to(handles[0])[(known_to(handles[0]) - 1024 + i - 1) as nat],
                )
        },
{
    the_default_buffer_has_no_more_slots();
    if count <= 1024 && outcomes.len() <= count {
        everything_within_the_buffer_arrives(handles, outcomes);
    }
    if count > 1024 && outcomes.len() <= 1025 {
        an_overfull_buffer_keeps_the_newest(handles, outcomes, count);
    }
}

/// A subscription sees future events only: what was published before it was opened, so that
/// it lies before where it was opened, is at none of the positions that it reads.
pub proof fn only_future_events_are_read(
    handles: Seq<broadcast::Receiver<AppEvent>>,
    outcomes: Seq<Received>,
    position: nat,
    i: int,
)
    requires
        is_reading(handles, outcomes),
        position_of(handles[0]) == opened_at(handles[0]),
        position < opened_at(handles[0]),
        0 <= i < handles.len(),
    ensures
        position < position_of(handles[i]),
{
    a_subscription_moves_on(handles, outcomes, 0, i);
}

/// What is published later lies further on: where an event is known to a subscriber and
/// another one is published to it then, the second has the later position, and whoever reads
/// both reads it second.
pub proof fn later_events_lie_further_on(
    between: Seq<broadcast::Receiver<AppEvent>>,
    first: nat,
    event: AppEventView,
    second: nat,
)
    requires
        between.len() > 0,
        is_known_to_all(between, first, event),
        is_new_to_all(between, second),
    ensures
        first < second,
{
    assert(is_at(between[0], first, event) && first < known_to(between[0]));
    assert(known_to(between[0]) <= second);
}

/// An event that is published alone is read, and nothing after it. Let a subscription that has
/// read everything be lent while an event is published, and let the channel have accepted just
/// one event more when it has been read twice, since nobody else has published. The first read
/// gives that event, and the second finds nothing.
pub proof fn an_event_published_alone_is_read_and_nothing_after_it(
    before: broadcast::Receiver<AppEvent>,
    between: broadcast::Receiver<AppEvent>,
    event: AppEventView,
    first: Received,
    after1: broadcast::Receiver<AppEvent>,
    second: Received,
    after2: broadcast::Receiver<AppEvent>,
)
    requires
        position_of(before) == known_to(before),
        same_subscription(before, between),
        known_to(before) < known_to(between),
        sent_to(before)[(known_to(between) - 1) as nat] == event,
        reads(between, first, after1),
        reads(after1, second, after2),
        known_to(after2) == known_to(before) + 1,
    ensures
        is_event(first, event),
        second is Empty || second is Closed,
        position_of(after2) == position_of(before) + 1,
{
    if room_to(before) >= 1 {
        slots_hold_the_room(room_to(before));
    }
}

} // verus!
