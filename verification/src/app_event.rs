//! Typed application event bus for native user interfaces.
use tokio::sync::broadcast;
use vstd::prelude::*;
use vstd::string::*;

use crate::channel::{
    accepted_at, all_subscribed, clone_sender, heard_on, is_heard_at, is_known_to_all,
    is_last_known_to_all, is_new_to_all, known_to, open_channel, opened_at, position_of, reads,
    refused_on, room_on, room_to, same_subscriptions, sent_on, sent_to, slots, subscribe_to,
    subscribed, try_receive, BusEvent, ChannelEvent, MAX_EVENT_BUFFER,
};

verus! {

/// The buffer size of a bus that is opened without naming one.
pub const DEFAULT_EVENT_BUFFER: usize = 1024;

/// `serde_json::Value`, opaque: the payload that some events carry.
#[verifier::external_type_specification]
#[verifier::external_body]
pub struct ExValue(serde_json::Value);

/// `Clone::clone` of `serde_json::Value`. Claimed: the clone is the same JSON value.
pub assume_specification[ <serde_json::Value as Clone>::clone ](
    value: &serde_json::Value,
) -> (copy: serde_json::Value)
    ensures
        copy == *value,
;

/// High-level backend event consumed by native user interfaces.
#[derive(Debug, PartialEq)]
pub enum AppEvent {
    TerminalOutput { session_id: String, data: String },
    CwdChanged { session_id: String, cwd: String },
    SessionClosed { session_id: String },
    SessionsChanged,
    ConnectionsChanged,
    CommandHistoryChanged,
    Transfer { payload: serde_json::Value },
    OtpRequest { payload: serde_json::Value },
    SshAuthRequest { payload: serde_json::Value },
    HostKeyVerifyRequest { payload: serde_json::Value },
    CloudSyncStatusChanged { payload: serde_json::Value },
    CloudSyncHistoryChanged { payload: serde_json::Value },
    CloudSyncConflict { payload: serde_json::Value },
}

/// What an event says: its kind, its texts as characters and its payload.
pub enum AppEventView {
    TerminalOutput { session_id: Seq<char>, data: Seq<char> },
    CwdChanged { session_id: Seq<char>, cwd: Seq<char> },
    SessionClosed { session_id: Seq<char> },
    SessionsChanged,
    ConnectionsChanged,
    CommandHistoryChanged,
    Transfer { payload: serde_json::Value },
    OtpRequest { payload: serde_json::Value },
    SshAuthRequest { payload: serde_json::Value },
    HostKeyVerifyRequest { payload: serde_json::Value },
    CloudSyncStatusChanged { payload: serde_json::Value },
    CloudSyncHistoryChanged { payload: serde_json::Value },
    CloudSyncConflict { payload: serde_json::Value },
}

impl View for AppEvent {
    type V = AppEventView;

    open spec fn view(&self) -> AppEventView {
        match *self {
            AppEvent::TerminalOutput { session_id, data } => AppEventView::TerminalOutput {
                session_id: session_id@,
                data: data@,
            },
            AppEvent::CwdChanged { session_id, cwd } => AppEventView::CwdChanged {
                session_id: session_id@,
                cwd: cwd@,
            },
            AppEvent::SessionClosed { session_id } => AppEventView::SessionClosed {
                session_id: session_id@,
            },
            AppEvent::SessionsChanged => AppEventView::SessionsChanged,
            AppEvent::ConnectionsChanged => AppEventView::ConnectionsChanged,
            AppEvent::CommandHistoryChanged => AppEventView::CommandHistoryChanged,
            AppEvent::Transfer { payload } => AppEventView::Transfer { payload },
            AppEvent::OtpRequest { payload } => AppEventView::OtpRequest { payload },
            AppEvent::SshAuthRequest { payload } => AppEventView::SshAuthRequest { payload },
            AppEvent::HostKeyVerifyRequest { payload } => AppEventView::HostKeyVerifyRequest {
                payload,
            },
            AppEvent::CloudSyncStatusChanged { payload } => AppEventView::CloudSyncStatusChanged {
                payload,
            },
            AppEvent::CloudSyncHistoryChanged {
                payload,
            } => AppEventView::CloudSyncHistoryChanged { payload },
            AppEvent::CloudSyncConflict { payload } => AppEventView::CloudSyncConflict { payload },
        }
    }
}

/// An event shows what it holds: its kind, each of its texts whole, and its payload.
pub proof fn an_event_shows_what_it_holds(event: AppEvent)
    ensures
        match event {
            AppEvent::TerminalOutput { session_id, data } => event@ == (
            AppEventView::TerminalOutput { session_id: session_id@, data: data@ }),
            AppEvent::CwdChanged { session_id, cwd } => event@ == (AppEventView::CwdChanged {
                session_id: session_id@,
                cwd: cwd@,
            }),
            AppEvent::SessionClosed { session_id } => event@ == (AppEventView::SessionClosed {
                session_id: session_id@,
            }),
            AppEvent::SessionsChanged => event@ is SessionsChanged,
            AppEvent::ConnectionsChanged => event@ is ConnectionsChanged,
            AppEvent::CommandHistoryChanged => event@ is CommandHistoryChanged,
            AppEvent::Transfer { payload } => event@ == (AppEventView::Transfer { payload }),
            AppEvent::OtpRequest { payload } => event@ == (AppEventView::OtpRequest { payload }),
            AppEvent::SshAuthRequest { payload } => event@ == (AppEventView::SshAuthRequest {
                payload,
            }),
            AppEvent::HostKeyVerifyRequest { payload } => event@ == (
            AppEventView::HostKeyVerifyRequest { payload }),
            AppEvent::CloudSyncStatusChanged { payload } => event@ == (
            AppEventView::CloudSyncStatusChanged { payload }),
            AppEvent::CloudSyncHistoryChanged { payload } => event@ == (
            AppEventView::CloudSyncHistoryChanged { payload }),
            AppEvent::CloudSyncConflict { payload } => event@ == (AppEventView::CloudSyncConflict {
                payload,
            }),
        },
{
}

impl Clone for AppEvent {
    /// A clone is the same event, and says what the event says.
    fn clone(&self) -> (copy: Self)
        ensures
            copy == *self,
            copy@ == self@,
    {
        match self {
            AppEvent::TerminalOutput { session_id, data } => AppEvent::TerminalOutput {
                session_id: session_id.clone(),
                data: data.clone(),
            },
            AppEvent::CwdChanged { session_id, cwd } => AppEvent::CwdChanged {
                session_id: session_id.clone(),
                cwd: cwd.clone(),
            },
            AppEvent::SessionClosed { session_id } => AppEvent::SessionClosed {
                session_id: session_id.clone(),
            },
            AppEvent::SessionsChanged => AppEvent::SessionsChanged,
            AppEvent::ConnectionsChanged => AppEvent::ConnectionsChanged,
            AppEvent::CommandHistoryChanged => AppEvent::CommandHistoryChanged,
            AppEvent::Transfer { payload } => AppEvent::Transfer { payload: payload.clone() },
            AppEvent::OtpRequest { payload } => AppEvent::OtpRequest { payload: payload.clone() },
            AppEvent::SshAuthRequest { payload } => AppEvent::SshAuthRequest {
                payload: payload.clone(),
            },
            AppEvent::HostKeyVerifyRequest { payload } => AppEvent::HostKeyVerifyRequest {
                payload: payload.clone(),
            },
            AppEvent::CloudSyncStatusChanged { payload } => AppEvent::CloudSyncStatusChanged {
                payload: payload.clone(),
            },
            AppEvent::CloudSyncHistoryChanged { payload } => AppEvent::CloudSyncHistoryChanged {
                payload: payload.clone(),
            },
            AppEvent::CloudSyncConflict { payload } => AppEvent::CloudSyncConflict {
                payload: payload.clone(),
            },
        }
    }
}

/// The outcome of one attempt to read from a subscription.
#[derive(Debug, PartialEq)]
pub enum Received {
    /// The next event.
    Event(AppEvent),
    /// Every event published so far has been read.
    Empty,
    /// Every event has been read and no publisher is left.
    Closed,
    /// So many events were overwritten before they could be read.
    Lagged(u64),
}

/// An event that was not published because nobody is subscribed.
#[derive(Debug)]
pub struct PublishError<T = AppEvent> {
    pub event: T,
}

/// Cloneable publisher for typed app events.
///
/// Publishing is written for events of any type, so all that it can do is to send the event
/// that it is given: it cannot copy it, it cannot make up another one, and it cannot subscribe.
#[derive(Debug)]
#[verifier::reject_recursive_types(T)]
pub struct AppEventBus<T = AppEvent> {
    sender: broadcast::Sender<T>,
}

impl<T: ChannelEvent> AppEventBus<T> {
    /// The handle on the channel of the bus.
    pub closed spec fn handle(self) -> broadcast::Sender<T> {
        self.sender
    }

    /// `receiver` is a subscription to the bus.
    pub open spec fn feeds(self, receiver: broadcast::Receiver<T>) -> bool {
        T::is_subscribed(receiver, self.handle())
    }

    /// All of `receivers` are subscriptions to the bus.
    pub open spec fn feeds_all(self, receivers: Seq<broadcast::Receiver<T>>) -> bool {
        forall|i: int| 0 <= i < receivers.len() ==> self.feeds(#[trigger] receivers[i])
    }

    /// `outcome` is what comes of publishing `event` while some are subscribed, who are
    /// `before` at first and `after` in the end: it is sent, once.
    pub open spec fn publishes(
        self,
        event: T,
        before: Seq<broadcast::Receiver<T>>,
        after: Seq<broadcast::Receiver<T>>,
        outcome: Result<usize, PublishError<T>>,
    ) -> bool {
        T::sends(
            self.handle(),
            event,
            before,
            after,
            match outcome {
                Ok(receivers) => Ok(receivers),
                Err(error) => Err(error.event),
            },
        )
    }
}

impl<T: BusEvent> AppEventBus<T> {
    /// Publish an event. Returns the number of active receivers on success, and the
    /// event itself where nobody is subscribed.
    pub fn publish(&self, event: T) -> (outcome: Result<usize, PublishError<T>>)
        ensures
            self.publishes(event, Seq::empty(), Seq::empty(), outcome),
            outcome matches Ok(receivers) ==> receivers >= 1,
            outcome matches Err(error) ==> error.event == event,
            T::is_offered(self.handle(), event),
    {
        let mut subscribers: Vec<broadcast::Receiver<T>> = Vec::new();
        let outcome = self.publish_to(event, subscribers.as_mut_slice());
        assert(subscribers@ =~= Seq::empty());
        outcome
    }

    /// Publish an event while `subscribers` are subscribed. Where there are any it cannot
    /// fail, all of them are counted, and each of them has the event ahead and knows of it.
    pub fn publish_to(
        &self,
        event: T,
        subscribers: &mut [broadcast::Receiver<T>],
    ) -> (outcome: Result<usize, PublishError<T>>)
        requires
            self.feeds_all(old(subscribers)@),
        ensures
            same_subscriptions(old(subscribers)@, final(subscribers)@),
            feed_alike(old(subscribers)@, final(subscribers)@),
            self.publishes(event, old(subscribers)@, final(subscribers)@, outcome),
            old(subscribers)@.len() > 0 ==> outcome is Ok,
            outcome matches Ok(receivers) ==> receivers >= 1 && receivers
                >= old(subscribers)@.len(),
            outcome matches Err(error) ==> error.event == event,
            T::is_offered(self.handle(), event),
            old(subscribers)@.len() > 0 ==> T::is_ahead_of_all(final(subscribers)@, event),
    {
        assert(all_subscribed(subscribers@, self.sender)) by {
            assert forall|i: int| 0 <= i < subscribers@.len() implies T::is_subscribed(
                #[trigger] subscribers@[i],
                self.sender,
            ) by {
                assert(self.feeds(subscribers@[i]));
            }
        }
        match T::send(&self.sender, event, subscribers) {
            Ok(receivers) => Ok(receivers),
            Err(event) => Err(PublishError { event }),
        }
    }

    /// Publish an event and ignore the result when no native user interface is
    /// attached yet.
    pub fn publish_lossy(&self, event: T)
        ensures
            exists|outcome: Result<usize, PublishError<T>>| #[trigger]
                self.publishes(event, Seq::empty(), Seq::empty(), outcome),
            T::is_offered(self.handle(), event),
    {
        let _ = self.publish(event);
    }

    /// Publish an event while `subscribers` are subscribed, and ignore the result: each of
    /// them has the event ahead and knows of it.
    pub fn publish_lossy_to(&self, event: T, subscribers: &mut [broadcast::Receiver<T>])
        requires
            self.feeds_all(old(subscribers)@),
        ensures
            same_subscriptions(old(subscribers)@, final(subscribers)@),
            feed_alike(old(subscribers)@, final(subscribers)@),
            exists|outcome: Result<usize, PublishError<T>>| #[trigger]
                self.publishes(event, old(subscribers)@, final(subscribers)@, outcome),
            T::is_offered(self.handle(), event),
            old(subscribers)@.len() > 0 ==> T::is_ahead_of_all(final(subscribers)@, event),
    {
        let _ = self.publish_to(event, subscribers);
    }
}

impl AppEventBus {
    /// The events that the bus carries over its whole life, by position.
    pub open spec fn sent(self) -> Map<nat, AppEventView> {
        sent_on(self.handle())
    }

    /// How many receivers are active when the bus takes in an event, by the position of the
    /// event.
    pub open spec fn heard(self) -> Map<nat, nat> {
        heard_on(self.handle())
    }

    /// The events that the bus turns away over its whole life.
    pub open spec fn refused(self) -> Set<AppEventView> {
        refused_on(self.handle())
    }

    /// How many unread events the bus was opened to hold.
    pub open spec fn room(self) -> nat {
        room_on(self.handle())
    }

    /// The bus carries `event` at `position`, taken in while `receivers` are active.
    pub open spec fn carries(self, position: nat, event: AppEventView, receivers: nat) -> bool {
        &&& receivers >= 1
        &&& self.sent().dom().contains(position)
        &&& self.sent()[position] == event
        &&& self.heard().dom().contains(position)
        &&& self.heard()[position] == receivers
    }

    /// The event was offered to the bus, which carries it or turns it away.
    pub open spec fn offered(self, event: AppEventView) -> bool {
        self.sent().contains_value(event) || self.refused().contains(event)
    }

    /// Two handles on one bus.
    pub open spec fn same_bus(self, other: AppEventBus) -> bool {
        &&& forall|receiver: broadcast::Receiver<AppEvent>| #[trigger]
            self.feeds(receiver) == other.feeds(receiver)
        &&& self.sent() == other.sent()
        &&& self.heard() == other.heard()
        &&& self.refused() == other.refused()
        &&& self.room() == other.room()
    }

    /// Create a bus with the default bounded broadcast buffer.
    pub fn new() -> (bus: Self)
        ensures
            bus.room() == DEFAULT_EVENT_BUFFER,
            room_on(bus.handle()) == 1024,
    {
        Self::with_capacity(DEFAULT_EVENT_BUFFER)
    }

    /// Create a bus with an explicit bounded broadcast buffer, of one event at least.
    pub fn with_capacity(capacity: usize) -> (bus: Self)
        requires
            capacity <= MAX_EVENT_BUFFER,
        ensures
            bus.room() == if capacity == 0 {
                1
            } else {
                capacity as nat
            },
            capacity >= 1 ==> room_on(bus.handle()) == capacity,
            capacity == 0 ==> room_on(bus.handle()) == 1,
    {
        let others: Vec<broadcast::Receiver<AppEvent>> = Vec::new();
        Self::with_capacity_beside(capacity, others.as_slice())
    }

    /// Create a bus beside other buses, of which `others` are subscriptions: it is another
    /// bus than theirs.
    pub fn with_capacity_beside(
        capacity: usize,
        others: &[broadcast::Receiver<AppEvent>],
    ) -> (bus: Self)
        requires
            capacity <= MAX_EVENT_BUFFER,
        ensures
            bus.room() == if capacity == 0 {
                1
            } else {
                capacity as nat
            },
            capacity >= 1 ==> room_on(bus.handle()) == capacity,
            capacity == 0 ==> room_on(bus.handle()) == 1,
            forall|i: int| 0 <= i < others@.len() ==> !bus.feeds(#[trigger] others@[i]),
    {
        let room: usize = if capacity < 1 {
            1
        } else {
            capacity
        };
        AppEventBus { sender: open_channel(room, others) }
    }

    /// Subscribe to future app events.
    pub fn subscribe(&self) -> (receiver: broadcast::Receiver<AppEvent>)
        ensures
            self.feeds(receiver),
            subscribed(receiver, self.handle()),
            sent_to(receiver) == self.sent(),
            sent_to(receiver) == sent_on(self.handle()),
            room_to(receiver) == self.room(),
            room_to(receiver) == room_on(self.handle()),
            position_of(receiver) == opened_at(receiver),
            known_to(receiver) == opened_at(receiver),
            forall|p: nat|
                p < opened_at(receiver) ==> #[trigger] sent_to(receiver).dom().contains(p),
    {
        let older: Vec<broadcast::Receiver<AppEvent>> = Vec::new();
        self.subscribe_after(older.as_slice())
    }

    /// Subscribe to future app events beside `older` subscriptions: what one of them has
    /// read or knows of was published before, and is not read.
    pub fn subscribe_after(
        &self,
        older: &[broadcast::Receiver<AppEvent>],
    ) -> (receiver: broadcast::Receiver<AppEvent>)
        requires
            self.feeds_all(older@),
        ensures
            self.feeds(receiver),
            subscribed(receiver, self.handle()),
            sent_to(receiver) == self.sent(),
            sent_to(receiver) == sent_on(self.handle()),
            room_to(receiver) == self.room(),
            room_to(receiver) == room_on(self.handle()),
            position_of(receiver) == opened_at(receiver),
            known_to(receiver) == opened_at(receiver),
            forall|p: nat|
                p < opened_at(receiver) ==> #[trigger] sent_to(receiver).dom().contains(p),
            forall|i: int|
                0 <= i < older@.len() ==> position_of(#[trigger] older@[i]) <= opened_at(receiver)
                    && known_to(older@[i]) <= opened_at(receiver),
    {
        assert(all_subscribed(older@, self.sender)) by {
            assert forall|i: int| 0 <= i < older@.len() implies subscribed(
                #[trigger] older@[i],
                self.sender,
            ) by {
                assert(self.feeds(older@[i]));
            }
        }
        subscribe_to(&self.sender, older)
    }
}

/// Whatever bus feeds one of `before` feeds the one of `after` in the same place, and the
/// other way round.
pub open spec fn feed_alike<T: ChannelEvent>(
    before: Seq<broadcast::Receiver<T>>,
    after: Seq<broadcast::Receiver<T>>,
) -> bool {
    forall|bus: AppEventBus<T>, i: int|
        0 <= i < after.len() ==> #[trigger] bus.feeds(after[i]) == bus.feeds(before[i])
}

/// To publish is to offer: whatever comes of publishing an event, the bus carries it or
/// turns it away, and it carries it wherever someone is subscribed. That holds where the
/// outcome is looked at and where it is ignored.
pub proof fn publishing_is_offering(
    bus: AppEventBus,
    event: AppEvent,
    before: Seq<broadcast::Receiver<AppEvent>>,
    after: Seq<broadcast::Receiver<AppEvent>>,
    outcome: Result<usize, PublishError>,
)
    requires
        bus.publishes(event, before, after, outcome),
    ensures
        bus.offered(event@),
        after.len() > 0 ==> bus.sent().contains_value(event@),
{
    if let Ok(receivers) = outcome {
        let p = choose|p: nat| #[trigger]
            accepted_at(bus.handle(), p, event@, receivers as nat) && is_new_to_all(before, p)
                && is_known_to_all(after, p, event@) && is_last_known_to_all(after, p)
                && is_heard_at(bus.handle(), p);
        assert(bus.sent().dom().contains(p) && bus.sent()[p] == event@);
    }
}

/// The number that publishing returns is that of the subscriptions that are alive as the bus
/// takes the event in. The given subscribers are among them, so with any of them the event is
/// taken in. An event that is taken in has someone who subscribed before, so on a bus that
/// nobody subscribes to every event comes back.
pub proof fn publishing_counts_the_subscriptions(
    bus: AppEventBus,
    event: AppEvent,
    before: Seq<broadcast::Receiver<AppEvent>>,
    after: Seq<broadcast::Receiver<AppEvent>>,
    outcome: Result<usize, PublishError>,
)
    requires
        bus.publishes(event, before, after, outcome),
    ensures
        outcome matches Ok(receivers) ==> exists|p: nat| #[trigger]
            bus.carries(p, event@, receivers as nat) && sent_on(bus.handle()).dom().contains(p)
                && sent_on(bus.handle())[p] == event@ && heard_on(bus.handle())[p] == receivers,
        outcome matches Err(error) ==> error.event == event && refused_on(bus.handle()).contains(
            event@,
        ) && after.len() == 0,
        outcome matches Ok(receivers) ==> receivers >= 1 && receivers >= after.len(),
        outcome matches Ok(receivers) ==> exists|receiver: broadcast::Receiver<AppEvent>| #[trigger]
            subscribed(receiver, bus.handle()),
        after.len() > 0 ==> outcome is Ok,
        (forall|receiver: broadcast::Receiver<AppEvent>|
            !#[trigger] subscribed(receiver, bus.handle())) ==> outcome is Err
            && outcome->Err_0.event == event,
{
    if let Ok(receivers) = outcome {
        let p = choose|p: nat| #[trigger]
            accepted_at(bus.handle(), p, event@, receivers as nat) && is_new_to_all(before, p)
                && is_known_to_all(after, p, event@) && is_last_known_to_all(after, p)
                && is_heard_at(bus.handle(), p);
        assert(bus.carries(p, event@, receivers as nat));
        let receiver = choose|receiver: broadcast::Receiver<AppEvent>| #[trigger]
            subscribed(receiver, bus.handle()) && opened_at(receiver) <= p;
        assert(subscribed(receiver, bus.handle()));
    }
}

/// Publishing tells every subscriber that is lent for it. Each of them knows of more events than
/// before, the last of which is the one published, and none of them is read meanwhile. So where
/// one event more is known of, it is that one, next after those that were known of before.
pub proof fn publishing_tells_every_subscriber(
    bus: AppEventBus,
    event: AppEvent,
    before: Seq<broadcast::Receiver<AppEvent>>,
    after: Seq<broadcast::Receiver<AppEvent>>,
    outcome: Result<usize, PublishError>,
    i: int,
)
    requires
        bus.publishes(event, before, after, outcome),
        same_subscriptions(before, after),
        0 <= i < after.len(),
    ensures
        known_to(before[i]) < known_to(after[i]),
        position_of(after[i]) == position_of(before[i]),
        sent_to(after[i]) == sent_to(before[i]),
        sent_to(after[i]).dom().contains((known_to(after[i]) - 1) as nat),
        sent_to(after[i])[(known_to(after[i]) - 1) as nat] == event@,
        known_to(after[i]) == known_to(before[i]) + 1 ==> sent_to(before[i])[known_to(before[i])]
            == event@,
        outcome is Ok,
{
    if let Ok(receivers) = outcome {
        let p = choose|p: nat| #[trigger]
            accepted_at(bus.handle(), p, event@, receivers as nat) && is_new_to_all(before, p)
                && is_known_to_all(after, p, event@) && is_last_known_to_all(after, p)
                && is_heard_at(bus.handle(), p);
        assert(known_to(after[i]) == p + 1);
        assert(known_to(before[i]) <= p);
    }
}

/// Buses are apart. Let a bus be opened beside the subscription of another one. Then neither
/// it nor a clone of it feeds that subscription, before or after a read, and what the
/// subscription reads is what its own bus carries there.
pub proof fn separate_buses_stay_apart(
    bus: AppEventBus,
    clone: AppEventBus,
    other: AppEventBus,
    before: broadcast::Receiver<AppEvent>,
    event: AppEvent,
    after: broadcast::Receiver<AppEvent>,
)
    requires
        !bus.feeds(before),
        clone.same_bus(bus),
        sent_to(before) == other.sent(),
        reads(before, Received::Event(event), after),
    ensures
        !clone.feeds(before),
        !clone.feeds(after),
        other.sent().dom().contains(position_of(before)),
        event@ == other.sent()[position_of(before)],
{
    assert(!bus.feeds(after));
}

impl Clone for AppEventBus {
    /// A clone publishes on the same bus.
    fn clone(&self) -> (copy: Self)
        ensures
            copy.same_bus(*self),
            forall|receiver: broadcast::Receiver<AppEvent>| #[trigger]
                subscribed(receiver, copy.handle()) == subscribed(receiver, self.handle()),
            sent_on(copy.handle()) == sent_on(self.handle()),
            heard_on(copy.handle()) == heard_on(self.handle()),
            refused_on(copy.handle()) == refused_on(self.handle()),
            room_on(copy.handle()) == room_on(self.handle()),
    {
        AppEventBus { sender: clone_sender(&self.sender) }
    }
}

impl Default for AppEventBus {
    fn default() -> (bus: Self)
        ensures
            bus.room() == DEFAULT_EVENT_BUFFER,
            room_on(bus.handle()) == 1024,
    {
        Self::new()
    }
}

/// Publish a typed event through the bus that the application manages, if there is one.
///
/// This is intentionally lossy, so that startup works before the bus is managed and
/// before anyone is subscribed.
pub fn publish_app_event<T: BusEvent>(bus: Option<&AppEventBus<T>>, event: T)
    ensures
        bus matches Some(bus) ==> exists|outcome: Result<usize, PublishError<T>>| #[trigger]
            bus.publishes(event, Seq::empty(), Seq::empty(), outcome),
        bus matches Some(bus) ==> T::is_offered(bus.handle(), event),
{
    if let Some(bus) = bus {
        bus.publish_lossy(event);
    }
}

/// Read the next event of a subscription, without waiting for one. One that the subscription
/// knows of and has not read is there; beyond that, whether there is one depends on what has
/// been published by the time of the call.
pub fn receive_event(receiver: &mut broadcast::Receiver<AppEvent>) -> (outcome: Received)
    ensures
        reads(*old(receiver), outcome, *final(receiver)),
        forall|bus: AppEventBus| #[trigger]
            bus.feeds(*final(receiver)) == bus.feeds(*old(receiver)),
        sent_to(*final(receiver)) == sent_to(*old(receiver)),
        room_to(*final(receiver)) == room_to(*old(receiver)),
        opened_at(*final(receiver)) == opened_at(*old(receiver)),
        known_to(*old(receiver)) <= known_to(*final(receiver)),
        match outcome {
            Received::Event(event) => {
                &&& event@ == sent_to(*old(receiver))[position_of(*old(receiver))]
                &&& position_of(*final(receiver)) == position_of(*old(receiver)) + 1
                &&& position_of(*final(receiver)) <= known_to(*final(receiver))
            },
            Received::Lagged(missed) => {
                &&& missed > 0
                &&& position_of(*final(receiver)) == position_of(*old(receiver)) + missed
                &&& position_of(*final(receiver)) + slots(room_to(*old(receiver))) == known_to(
                    *final(receiver),
                )
            },
            _ => {
                &&& position_of(*final(receiver)) == position_of(*old(receiver))
                &&& position_of(*final(receiver)) == known_to(*final(receiver))
            },
        },
{
    try_receive(receiver)
}

/// The payload of a window event.
#[derive(Debug, PartialEq)]
pub enum WindowPayload {
    Text(String),
    Unit,
}

/// An event that the window frontend hears by name.
#[derive(Debug, PartialEq)]
pub struct WindowEvent {
    pub name: String,
    pub payload: WindowPayload,
}

/// One happening, told twice: to the window frontend by name, then to native user
/// interfaces through the bus. The second is told whether or not the first could be.
#[derive(Debug, PartialEq)]
pub struct Notification {
    pub window: WindowEvent,
    pub event: AppEvent,
}

impl Notification {
    /// The event to publish, once the window event has been emitted or could not be: it is
    /// the same either way.
    pub fn emitted<E>(self, outcome: Result<(), E>) -> (event: AppEvent)
        ensures
            event == self.event,
    {
        self.event
    }
}

/// The name of the window event that tells that a session has closed.
pub open spec fn session_closed_name(session_id: Seq<char>) -> Seq<char> {
    "session-closed-"@ + session_id
}

/// A terminal working-directory update, to emit and to publish.
pub fn emit_cwd_changed(event_name: &str, session_id: &str, cwd: &str) -> (told: Notification)
    ensures
        told.window.name@ == event_name@,
        told.window.payload matches WindowPayload::Text(text) && text@ == cwd@,
        told.event matches AppEvent::CwdChanged { session_id: id, cwd: dir } && id@ == session_id@
            && dir@ == cwd@,
        told.event@ == (AppEventView::CwdChanged { session_id: session_id@, cwd: cwd@ }),
{
    Notification {
        window: WindowEvent {
            name: event_name.to_owned(),
            payload: WindowPayload::Text(cwd.to_owned()),
        },
        event: AppEvent::CwdChanged { session_id: session_id.to_owned(), cwd: cwd.to_owned() },
    }
}

/// A terminal session close notification, to emit and to publish.
pub fn emit_session_closed(session_id: &str) -> (told: Notification)
    ensures
        told.window.name@ == session_closed_name(session_id@),
        told.window.name@ == "session-closed-"@ + session_id@,
        told.window.payload is Unit,
        told.event matches AppEvent::SessionClosed { session_id: id } && id@ == session_id@,
        told.event@ == (AppEventView::SessionClosed { session_id: session_id@ }),
{
    let mut name = "session-closed-".to_owned();
    name.append(session_id);
    Notification {
        window: WindowEvent { name, payload: WindowPayload::Unit },
        event: AppEvent::SessionClosed { session_id: session_id.to_owned() },
    }
}

/// The name of the window event of a session is the text "session-closed-" and after it the
/// identifier of the session, whole and unchanged, whatever the identifier is: the first 15
/// characters are that text, and the rest is the identifier.
pub proof fn a_session_closed_name_ends_with_the_session(session_id: Seq<char>)
    ensures
        session_closed_name(session_id).len() == 15 + session_id.len(),
        session_closed_name(session_id).take(15) == "session-closed-"@,
        session_closed_name(session_id).skip(15) == session_id,
{
    reveal_strlit("session-closed-");
    assert(session_closed_name(session_id).take(15) =~= "session-closed-"@);
    assert(session_closed_name(session_id).skip(15) =~= session_id);
}

/// Window events of different sessions have different names.
pub proof fn session_closed_names_differ(session1: Seq<char>, session2: Seq<char>)
    ensures
        session_closed_name(session1) == session_closed_name(session2) <==> session1 == session2,
{
    let n = "session-closed-"@.len() as int;
    let name1 = session_closed_name(session1);
    let name2 = session_closed_name(session2);
    assert(name1.skip(n) =~= session1);
    assert(name2.skip(n) =~= session2);
}

} // verus!
