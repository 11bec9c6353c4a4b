use std::slice::{from_mut, from_ref};

use nyaterm::app_event::{
    emit_cwd_changed, emit_session_closed, publish_app_event, receive_event, AppEvent,
    AppEventBus, Received, WindowPayload, DEFAULT_EVENT_BUFFER,
};
use tokio::runtime::Builder;

fn output(data: &str) -> AppEvent {
    AppEvent::TerminalOutput {
        session_id: "session-1".to_string(),
        data: data.to_string(),
    }
}

#[test]
fn publishes_events_to_subscribers() {
    let bus = AppEventBus::with_capacity(4);
    let mut receiver = bus.subscribe();

    bus.publish_lossy(AppEvent::SessionsChanged);

    let runtime = Builder::new_current_thread().build().unwrap();
    let event = runtime
        .block_on(receiver.recv())
        .expect("event should be delivered");
    assert_eq!(event, AppEvent::SessionsChanged);
}

#[test]
fn preserves_terminal_event_payload() {
    let bus = AppEventBus::with_capacity(4);
    let mut receiver = bus.subscribe();

    bus.publish_lossy(AppEvent::TerminalOutput {
        session_id: "session-1".to_string(),
        data: "hello".to_string(),
    });

    let runtime = Builder::new_current_thread().build().unwrap();
    let event = runtime
        .block_on(receiver.recv())
        .expect("event should be delivered");
    assert_eq!(
        event,
        AppEvent::TerminalOutput {
            session_id: "session-1".to_string(),
            data: "hello".to_string(),
        }
    );
}

#[test]
fn publish_without_subscribers_gives_the_event_back() {
    let bus = AppEventBus::new();
    let error = bus.publish(output("lost")).unwrap_err();
    assert_eq!(error.event, output("lost"));
    bus.publish_lossy(output("lost"));

    let receiver = bus.subscribe();
    assert_eq!(bus.publish(output("kept")).unwrap(), 1);
    drop(receiver);
    assert_eq!(bus.publish(output("late")).unwrap_err().event, output("late"));
}

#[test]
fn publish_counts_the_subscribers() {
    let bus = AppEventBus::with_capacity(4);
    let first = bus.subscribe();
    let second = bus.subscribe();
    assert_eq!(bus.publish(AppEvent::ConnectionsChanged).unwrap(), 2);
    drop(first);
    assert_eq!(bus.publish(AppEvent::ConnectionsChanged).unwrap(), 1);
    drop(second);
    assert!(bus.publish(AppEvent::ConnectionsChanged).is_err());
}

#[test]
fn publish_to_a_live_subscriber_succeeds() {
    let bus = AppEventBus::with_capacity(4);
    let mut receiver = bus.subscribe();
    assert_eq!(bus.publish_to(output("a"), from_mut(&mut receiver)).unwrap(), 1);
    assert_eq!(receive_event(&mut receiver), Received::Event(output("a")));
    bus.publish_lossy_to(output("b"), from_mut(&mut receiver));
    assert_eq!(receive_event(&mut receiver), Received::Event(output("b")));
}

#[test]
fn publish_to_all_counts_and_reaches_all() {
    let bus = AppEventBus::with_capacity(4);
    let mut receivers = vec![bus.subscribe(), bus.clone().subscribe()];
    assert_eq!(bus.publish_to(AppEvent::SessionsChanged, &mut receivers).unwrap(), 2);
    receivers.push(bus.subscribe());
    assert_eq!(bus.clone().publish(AppEvent::ConnectionsChanged).unwrap(), 3);
    let mut late = receivers.pop().unwrap();
    for receiver in receivers.iter_mut() {
        assert_eq!(receive_event(receiver), Received::Event(AppEvent::SessionsChanged));
        assert_eq!(receive_event(receiver), Received::Event(AppEvent::ConnectionsChanged));
        assert_eq!(receive_event(receiver), Received::Empty);
    }
    assert_eq!(receive_event(&mut late), Received::Event(AppEvent::ConnectionsChanged));
    assert_eq!(receive_event(&mut late), Received::Empty);
}

#[test]
fn a_refused_event_leaves_nothing_behind() {
    let bus = AppEventBus::with_capacity(4);
    assert!(bus.publish(AppEvent::SessionsChanged).is_err());
    let mut receiver = bus.subscribe();
    assert_eq!(bus.publish(AppEvent::ConnectionsChanged).unwrap(), 1);
    assert_eq!(receive_event(&mut receiver), Received::Event(AppEvent::ConnectionsChanged));
    assert_eq!(receive_event(&mut receiver), Received::Empty);
}

#[test]
fn a_full_buffer_does_not_refuse_events() {
    let bus = AppEventBus::with_capacity(1);
    let mut receiver = bus.subscribe();
    assert_eq!(bus.publish(AppEvent::SessionsChanged).unwrap(), 1);
    assert_eq!(bus.publish(AppEvent::ConnectionsChanged).unwrap(), 1);
    assert_eq!(receive_event(&mut receiver), Received::Lagged(1));
    assert_eq!(receive_event(&mut receiver), Received::Event(AppEvent::ConnectionsChanged));
}

#[test]
fn a_later_subscription_does_not_read_what_was_published() {
    let bus = AppEventBus::with_capacity(4);
    let mut older = bus.subscribe();
    bus.publish_lossy_to(AppEvent::SessionsChanged, from_mut(&mut older));
    let mut receiver = bus.subscribe_after(from_ref(&older));
    assert_eq!(receive_event(&mut receiver), Received::Empty);
    assert_eq!(receive_event(&mut older), Received::Event(AppEvent::SessionsChanged));
    bus.publish_lossy(AppEvent::ConnectionsChanged);
    assert_eq!(receive_event(&mut receiver), Received::Event(AppEvent::ConnectionsChanged));
}

#[test]
fn separately_opened_buses_are_apart() {
    let bus = AppEventBus::new();
    let mut receiver = bus.subscribe();
    let other = AppEventBus::with_capacity_beside(0, from_ref(&receiver));
    assert_eq!(other.publish(output("x")).unwrap_err().event, output("x"));
    assert_eq!(receive_event(&mut receiver), Received::Empty);
}

#[test]
fn events_are_read_in_order_and_once() {
    let bus = AppEventBus::with_capacity(8);
    let mut receiver = bus.subscribe();
    for data in ["a", "b", "c"] {
        bus.publish_lossy(output(data));
    }
    for data in ["a", "b", "c"] {
        assert_eq!(receive_event(&mut receiver), Received::Event(output(data)));
    }
    assert_eq!(receive_event(&mut receiver), Received::Empty);
}

#[test]
fn every_subscriber_hears_the_same() {
    let bus = AppEventBus::with_capacity(4);
    let mut first = bus.subscribe();
    let mut second = bus.subscribe();
    bus.publish_lossy(output("a"));
    assert_eq!(receive_event(&mut first), Received::Event(output("a")));
    assert_eq!(receive_event(&mut second), Received::Event(output("a")));
}

#[test]
fn a_subscription_starts_with_the_next_event() {
    let bus = AppEventBus::with_capacity(4);
    let _early = bus.subscribe();
    bus.publish_lossy(output("before"));
    let mut receiver = bus.subscribe();
    bus.publish_lossy(output("after"));
    assert_eq!(receive_event(&mut receiver), Received::Event(output("after")));
    assert_eq!(receive_event(&mut receiver), Received::Empty);
}

#[test]
fn a_clone_publishes_on_the_same_bus() {
    let bus = AppEventBus::with_capacity(4);
    let clone = bus.clone();
    let mut receiver = bus.subscribe();
    clone.publish_lossy(output("from the clone"));
    assert_eq!(
        receive_event(&mut receiver),
        Received::Event(output("from the clone"))
    );
}

#[test]
fn a_subscription_outlives_the_bus_until_it_is_read() {
    let bus = AppEventBus::with_capacity(4);
    let mut receiver = bus.subscribe();
    bus.publish_lossy(output("last"));
    drop(bus);
    assert_eq!(receive_event(&mut receiver), Received::Event(output("last")));
    assert_eq!(receive_event(&mut receiver), Received::Closed);
}

#[test]
fn zero_capacity_still_holds_one_event() {
    let bus = AppEventBus::with_capacity(0);
    let mut receiver = bus.subscribe();
    bus.publish_lossy(output("a"));
    assert_eq!(receive_event(&mut receiver), Received::Event(output("a")));
    bus.publish_lossy(output("b"));
    bus.publish_lossy(output("c"));
    assert_eq!(receive_event(&mut receiver), Received::Lagged(1));
    assert_eq!(receive_event(&mut receiver), Received::Event(output("c")));
}

#[test]
fn a_full_buffer_loses_nothing_and_one_more_loses_the_oldest() {
    let bus = AppEventBus::with_capacity(4);
    let mut receiver = bus.subscribe();
    for data in ["a", "b", "c", "d"] {
        bus.publish_lossy(output(data));
    }
    assert_eq!(receive_event(&mut receiver), Received::Event(output("a")));
    bus.publish_lossy(output("e"));
    bus.publish_lossy(output("f"));
    assert_eq!(receive_event(&mut receiver), Received::Lagged(1));
    assert_eq!(receive_event(&mut receiver), Received::Event(output("c")));
}

#[test]
fn a_buffer_is_rounded_up_to_a_power_of_two() {
    let bus = AppEventBus::with_capacity(3);
    let mut receiver = bus.subscribe();
    for data in ["a", "b", "c", "d"] {
        bus.publish_lossy_to(output(data), from_mut(&mut receiver));
    }
    assert_eq!(receive_event(&mut receiver), Received::Event(output("a")));
    for data in ["e", "f", "g"] {
        bus.publish_lossy_to(output(data), from_mut(&mut receiver));
    }
    assert_eq!(receive_event(&mut receiver), Received::Lagged(2));
    assert_eq!(receive_event(&mut receiver), Received::Event(output("d")));
}

#[test]
fn an_overfull_default_buffer_keeps_the_newest() {
    let bus = AppEventBus::new();
    let mut receiver = bus.subscribe();
    for i in 0..1030 {
        bus.publish_lossy(output(&i.to_string()));
    }
    assert_eq!(receive_event(&mut receiver), Received::Lagged(6));
    for i in 6..1030 {
        assert_eq!(receive_event(&mut receiver), Received::Event(output(&i.to_string())));
    }
    assert_eq!(receive_event(&mut receiver), Received::Empty);
}

#[test]
fn the_bus_is_told_whether_or_not_the_window_was() {
    let expected = AppEvent::SessionClosed { session_id: "s1".to_string() };
    assert_eq!(emit_session_closed("s1").emitted::<String>(Ok(())), expected);
    assert_eq!(emit_session_closed("s1").emitted(Err("no window")), expected);
}

#[test]
fn the_default_buffer_holds_so_many_events() {
    assert_eq!(DEFAULT_EVENT_BUFFER, 1024);
    for bus in [AppEventBus::new(), AppEventBus::default()] {
        let mut receiver = bus.subscribe();
        for _ in 0..1025 {
            bus.publish_lossy(AppEvent::CommandHistoryChanged);
        }
        assert_eq!(receive_event(&mut receiver), Received::Lagged(1));
        for _ in 0..1024 {
            assert_eq!(
                receive_event(&mut receiver),
                Received::Event(AppEvent::CommandHistoryChanged)
            );
        }
        assert_eq!(receive_event(&mut receiver), Received::Empty);
    }
}

#[test]
fn json_payloads_are_preserved() {
    let bus = AppEventBus::with_capacity(8);
    let mut receiver = bus.subscribe();
    let payload: serde_json::Value =
        serde_json::from_str("{\"id\": 7, \"files\": [\"a\", null], \"done\": false}").unwrap();
    let events = [
        AppEvent::Transfer { payload: payload.clone() },
        AppEvent::OtpRequest { payload: payload.clone() },
        AppEvent::SshAuthRequest { payload: payload.clone() },
        AppEvent::HostKeyVerifyRequest { payload: payload.clone() },
        AppEvent::CloudSyncStatusChanged { payload: payload.clone() },
        AppEvent::CloudSyncHistoryChanged { payload: payload.clone() },
        AppEvent::CloudSyncConflict { payload },
    ];
    for event in events.iter() {
        bus.publish_lossy(event.clone());
    }
    for event in events {
        assert_eq!(receive_event(&mut receiver), Received::Event(event));
    }
}

#[test]
fn a_clone_of_an_event_equals_it() {
    let events = [
        output("x"),
        AppEvent::CwdChanged { session_id: "s".to_string(), cwd: "/".to_string() },
        AppEvent::SessionClosed { session_id: "s".to_string() },
        AppEvent::SessionsChanged,
        AppEvent::ConnectionsChanged,
        AppEvent::CommandHistoryChanged,
        AppEvent::Transfer { payload: serde_json::Value::Null },
    ];
    for event in events {
        assert_eq!(event.clone(), event);
    }
}

#[test]
fn publishing_needs_no_bus() {
    publish_app_event(None, AppEvent::SessionsChanged);

    let bus = AppEventBus::with_capacity(4);
    publish_app_event(Some(&bus), AppEvent::SessionsChanged);
    let mut receiver = bus.subscribe();
    publish_app_event(Some(&bus), AppEvent::ConnectionsChanged);
    assert_eq!(
        receive_event(&mut receiver),
        Received::Event(AppEvent::ConnectionsChanged)
    );
}

#[test]
fn a_cwd_change_is_told_twice() {
    let told = emit_cwd_changed("cwd-changed-s1", "s1", "/home/\u{e9}");
    assert_eq!(told.window.name, "cwd-changed-s1");
    assert_eq!(told.window.payload, WindowPayload::Text("/home/\u{e9}".to_string()));
    assert_eq!(
        told.event,
        AppEvent::CwdChanged {
            session_id: "s1".to_string(),
            cwd: "/home/\u{e9}".to_string(),
        }
    );
}

#[test]
fn a_closed_session_is_told_twice() {
    let told = emit_session_closed("s1");
    assert_eq!(told.window.name, "session-closed-s1");
    assert_eq!(told.window.payload, WindowPayload::Unit);
    assert_eq!(
        told.event,
        AppEvent::SessionClosed { session_id: "s1".to_string() }
    );
    assert_ne!(told.window.name, emit_session_closed("s2").window.name);
    assert_eq!(emit_session_closed("").window.name, "session-closed-");
}
