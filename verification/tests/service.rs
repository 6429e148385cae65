use hot_reload::service::ServiceEvent;
use hot_reload::strategy::ServiceAction;
use hot_reload::{
    ReloaderConfig, ReloaderError, ReloaderReceiver, ReloaderSender, ReloaderService, ServiceRun,
    WatchEvent,
};

type Service = ReloaderService<String>;
type Event = ServiceEvent<String, String>;
type Action = ServiceAction<String, String>;

fn found(value: &str) -> Event {
    Event::Reloaded(Ok(Some(value.to_string())))
}

fn changed(value: &str) -> Event {
    Event::Received(Some(WatchEvent::Changed(value.to_string())))
}

fn text(value: &str) -> Option<String> {
    Some(value.to_string())
}

fn step(service: &mut Service, run: &mut ServiceRun, event: Event) -> Action {
    assert!(run.is_awaiting(&event));
    service.step(run, event)
}

fn watching(config: ReloaderConfig) -> (Service, ServiceRun, ReloaderReceiver<String>) {
    let (mut service, receiver) = Service::new(config);
    let (mut run, action): (ServiceRun, Action) = service.start_with_realtime();
    assert!(matches!(action, Action::Reload));
    assert!(matches!(step(&mut service, &mut run, found("a")), Action::Watch));
    assert!(matches!(step(&mut service, &mut run, Event::Watched(Ok(()))), Action::Receive));
    (service, run, receiver)
}

#[test]
fn a_new_service_has_no_value() {
    let (service, receiver) = Service::with_defaults();
    assert_eq!(receiver.get(), None);
    assert_eq!(receiver.get_at_rest(&service), None);
    let (run, action): (ServiceRun, Action) = service.start();
    assert!(matches!(action, Action::Reload));
    assert!(run.is_awaiting(&found("a")));
    assert!(!run.is_awaiting(&Event::Woke));
}

#[test]
fn polling_broadcasts_changes_only() {
    let (mut service, receiver) = Service::with_delay(7);
    let changes = receiver.changes();
    let (mut run, action): (ServiceRun, Action) = service.start();
    assert!(matches!(action, Action::Reload));
    assert!(matches!(step(&mut service, &mut run, found("a")), Action::Sleep(7)));
    assert_eq!(receiver.get_at_rest(&service), text("a"));
    assert!(changes.has_changed().unwrap());

    let changes = receiver.changes();
    let mut seen = changes.clone();
    seen.mark_unchanged();
    assert!(matches!(step(&mut service, &mut run, Event::Woke), Action::Reload));
    assert!(matches!(step(&mut service, &mut run, found("a")), Action::Sleep(7)));
    assert!(!seen.has_changed().unwrap());
    assert!(matches!(step(&mut service, &mut run, Event::Woke), Action::Reload));
    assert!(matches!(step(&mut service, &mut run, found("b")), Action::Sleep(7)));
    assert!(seen.has_changed().unwrap());
    assert_eq!(receiver.get(), text("b"));
}

#[test]
fn forced_reloads_broadcast_everything() {
    let config = ReloaderConfig {
        force_reload: true,
        ..ReloaderConfig::polling(1)
    };
    let (mut service, receiver) = Service::new(config);
    let (mut run, _): (ServiceRun, Action) = service.start();
    assert!(matches!(step(&mut service, &mut run, found("a")), Action::Sleep(1)));
    let mut seen = receiver.changes();
    seen.mark_unchanged();
    step(&mut service, &mut run, Event::Woke);
    step(&mut service, &mut run, found("a"));
    assert!(seen.has_changed().unwrap());
}

#[test]
fn failed_and_empty_reloads_are_retried() {
    let (mut service, receiver) = Service::with_delay(3);
    let (mut run, _): (ServiceRun, Action) = service.start();
    let failed = Event::Reloaded(Err(ReloaderError::Reload("gone".to_string())));
    assert!(matches!(step(&mut service, &mut run, failed), Action::Sleep(3)));
    step(&mut service, &mut run, Event::Woke);
    assert!(matches!(step(&mut service, &mut run, Event::Reloaded(Ok(None))), Action::Sleep(3)));
    assert_eq!(receiver.get(), None);
    step(&mut service, &mut run, Event::Woke);
    step(&mut service, &mut run, found("a"));
    assert_eq!(receiver.get(), text("a"));
    step(&mut service, &mut run, Event::Woke);
    step(&mut service, &mut run, Event::Reloaded(Ok(None)));
    assert_eq!(receiver.get(), text("a"));
}

#[test]
fn a_service_without_receivers_ends() {
    let (mut service, receiver) = Service::with_defaults();
    let (mut run, _): (ServiceRun, Action) = service.start();
    drop(receiver);
    let action = step(&mut service, &mut run, found("a"));
    assert!(matches!(
        action,
        Action::Finish(Err(ReloaderError::WatchSendError(Some(value)))) if value == "a"
    ));
    assert!(!run.is_awaiting(&Event::Woke));
}

#[test]
fn only_polling_starts_without_notifications() {
    let message = "Realtime strategies require RealtimeWatch implementation. Use start_with_realtime() for types implementing RealtimeWatch.";
    for config in vec![ReloaderConfig::realtime(), ReloaderConfig::hybrid(2)] {
        let (service, _receiver) = Service::new(config);
        let (run, action): (ServiceRun, Action) = service.start();
        assert!(!run.is_awaiting(&found("a")));
        assert!(
            matches!(action, Action::Finish(Err(ReloaderError::Other(text))) if text == message)
        );
    }
}

#[test]
fn polling_starts_with_notifications_too() {
    let (mut service, _receiver) = Service::with_delay(4);
    let (mut run, action): (ServiceRun, Action) = service.start_with_realtime();
    assert!(matches!(action, Action::Reload));
    assert!(matches!(step(&mut service, &mut run, found("a")), Action::Sleep(4)));
}

#[test]
fn watch_events_are_broadcast() {
    let (mut service, mut run, receiver) = watching(ReloaderConfig::realtime());
    assert_eq!(receiver.get(), text("a"));
    assert!(matches!(step(&mut service, &mut run, changed("b")), Action::Receive));
    assert_eq!(receiver.get(), text("b"));
    let removed = Event::Received(Some(WatchEvent::Removed));
    assert!(matches!(step(&mut service, &mut run, removed), Action::Receive));
    assert_eq!(receiver.get_at_rest(&service), None);
    assert!(matches!(step(&mut service, &mut run, changed("b")), Action::Receive));
    assert_eq!(receiver.get(), text("b"));
}

#[test]
fn an_unchanged_value_is_not_sent_twice() {
    let (mut service, mut run, receiver) = watching(ReloaderConfig::hybrid(2));
    let mut seen = receiver.changes();
    seen.mark_unchanged();
    assert!(matches!(step(&mut service, &mut run, changed("a")), Action::Receive));
    assert!(!seen.has_changed().unwrap());
}

#[test]
fn a_closed_watch_ends_a_realtime_service() {
    let (mut service, mut run, receiver) = watching(ReloaderConfig::realtime());
    let action = step(&mut service, &mut run, Event::Received(None));
    assert!(matches!(
        action,
        Action::Finish(Err(ReloaderError::Other(text))) if text == "Realtime watch channel closed"
    ));
    assert_eq!(receiver.get(), text("a"));
}

#[test]
fn a_watch_error_ends_a_realtime_service() {
    let (mut service, mut run, _receiver) = watching(ReloaderConfig::realtime());
    let event = Event::Received(Some(WatchEvent::Error("no space".to_string())));
    let action = step(&mut service, &mut run, event);
    assert!(
        matches!(action, Action::Finish(Err(ReloaderError::Other(text))) if text == "no space")
    );
}

#[test]
fn a_broken_watch_sends_a_hybrid_service_into_polling() {
    let (mut service, mut run, receiver) = watching(ReloaderConfig::hybrid(2));
    let event = Event::Received(Some(WatchEvent::Error("no space".to_string())));
    assert!(matches!(step(&mut service, &mut run, event), Action::Reload));
    assert!(matches!(step(&mut service, &mut run, found("b")), Action::Watch));
    assert_eq!(receiver.get(), text("b"));
    let failed = Event::Watched(Err(ReloaderError::Other("still broken".to_string())));
    assert!(matches!(step(&mut service, &mut run, failed), Action::Sleep(2)));
    assert!(matches!(step(&mut service, &mut run, Event::Woke), Action::Reload));
    assert!(matches!(step(&mut service, &mut run, found("b")), Action::Watch));
    let failed = Event::Watched(Err(ReloaderError::Other("still broken".to_string())));
    assert!(matches!(step(&mut service, &mut run, failed), Action::Sleep(4)));
    assert!(matches!(step(&mut service, &mut run, Event::Woke), Action::Reload));
    assert!(matches!(step(&mut service, &mut run, found("c")), Action::Watch));
    assert!(matches!(step(&mut service, &mut run, Event::Watched(Ok(()))), Action::Receive));
    assert!(matches!(step(&mut service, &mut run, changed("d")), Action::Receive));
    assert_eq!(receiver.get_at_rest(&service), text("d"));
}

#[test]
fn a_service_can_be_driven_by_hand() {
    let (mut service, receiver) = Service::with_defaults();
    assert!(service.should_broadcast_update(&"a".to_string()));
    assert_eq!(receiver.get(), None);
    assert!(!service.should_broadcast_update(&"a".to_string()));
    assert!(service.broadcast_update::<String>("a".to_string()).is_ok());
    assert_eq!(receiver.get(), text("a"));
    assert!(service.broadcast_removal::<String>().is_ok());
    assert_eq!(receiver.get(), None);
    assert!(service.should_broadcast_update(&"a".to_string()));
    drop(receiver);
    assert!(matches!(
        service.broadcast_removal::<String>(),
        Err(ReloaderError::WatchSendError(None))
    ));
}

#[test]
fn cloned_receivers_and_events_are_alike() {
    let (mut service, receiver) = Service::with_defaults();
    let other = receiver.clone();
    drop(receiver);
    assert!(service.broadcast_update::<String>("a".to_string()).is_ok());
    assert_eq!(other.get(), text("a"));
    let event = WatchEvent::Changed("b".to_string());
    assert!(matches!(event.clone(), WatchEvent::Changed(value) if value == "b"));
    let event: WatchEvent<u8> = WatchEvent::Removed;
    assert!(matches!(event.clone(), WatchEvent::Removed));
    let event: WatchEvent<u8> = WatchEvent::Error("c".to_string());
    assert!(matches!(event.clone(), WatchEvent::Error(message) if message == "c"));
}

#[test]
fn a_run_never_repeats_a_broadcast() {
    let (mut service, receiver) = Service::with_delay(1);
    let mut seen = receiver.changes();
    let mut broadcasts = Vec::new();
    let (mut run, _): (ServiceRun, Action) = service.start();
    for value in ["a", "a", "b", "b", "b", "a"] {
        assert!(matches!(step(&mut service, &mut run, found(value)), Action::Sleep(1)));
        assert_eq!(receiver.get_at_rest(&service), text(value));
        if seen.has_changed().unwrap() {
            broadcasts.push(seen.borrow_and_update().clone().unwrap());
        }
        step(&mut service, &mut run, Event::Woke);
    }
    assert_eq!(broadcasts, vec!["a", "b", "a"]);
}

#[test]
fn forced_and_unforced_runs_broadcast_their_loads() {
    for (force_reload, expected) in [
        (false, vec!["a", "b", "a"]),
        (true, vec!["a", "a", "b", "b", "b", "a"]),
    ] {
        let (mut service, receiver) = Service::new(ReloaderConfig {
            force_reload,
            ..ReloaderConfig::polling(1)
        });
        let mut seen = receiver.changes();
        let mut broadcasts = Vec::new();
        let (mut run, _): (ServiceRun, Action) = service.start();
        for value in ["a", "a", "b", "b", "b", "a"] {
            step(&mut service, &mut run, found(value));
            if seen.has_changed().unwrap() {
                broadcasts.push(seen.borrow_and_update().clone().unwrap());
            }
            step(&mut service, &mut run, Event::Woke);
            step(&mut service, &mut run, Event::Reloaded(Ok(None)));
            step(&mut service, &mut run, Event::Woke);
        }
        assert_eq!(broadcasts, expected);
    }
}

#[test]
fn a_service_can_have_several_runs() {
    let (mut service, receiver) = Service::with_delay(2);
    let (mut first, _): (ServiceRun, Action) = service.start();
    let (mut second, _): (ServiceRun, Action) = service.start_with_realtime();
    assert!(matches!(step(&mut service, &mut first, found("a")), Action::Sleep(2)));
    let mut seen = receiver.changes();
    seen.mark_unchanged();
    assert!(matches!(step(&mut service, &mut second, found("a")), Action::Sleep(2)));
    assert!(!seen.has_changed().unwrap());
    assert!(matches!(step(&mut service, &mut first, Event::Woke), Action::Reload));
    assert!(matches!(step(&mut service, &mut first, found("b")), Action::Sleep(2)));
    assert!(matches!(step(&mut service, &mut second, Event::Woke), Action::Reload));
    assert_eq!(receiver.get(), text("b"));
}

#[test]
fn a_value_is_sent_while_a_receiver_is_left() {
    let (mut sender, receiver) = ReloaderSender::open(Some(1));
    assert_eq!(receiver.get(), Some(1));
    assert_eq!(sender.send_to(Some(2), &receiver), Ok(()));
    assert_eq!(receiver.get_from(&sender), Some(2));
    assert_eq!(receiver.get_from(&sender), Some(2));
    let changes = receiver.changes();
    assert_eq!(changes.has_changed().ok(), Some(true));
    assert_eq!(sender.send_to(Some(2), &receiver), Ok(()));
    assert_eq!(sender.send(None), Ok(()));
    assert_eq!(receiver.get(), None);
    drop(changes);
    drop(receiver);
    assert_eq!(sender.send(Some(3)), Err(Some(3)));
    let (_other, stranger) = ReloaderSender::open(Some(1));
    assert_eq!(sender.send_to(Some(4), &stranger), Err(Some(4)));
}

#[test]
fn asking_twice_for_an_update_finds_none_due() {
    for force_reload in [false, true] {
        let (mut service, receiver) = Service::new(ReloaderConfig {
            force_reload,
            ..ReloaderConfig::polling(1)
        });
        assert!(service.should_broadcast_update(&"a".to_string()));
        assert_eq!(service.should_broadcast_update(&"a".to_string()), force_reload);
        assert!(service.should_broadcast_update(&"b".to_string()));
        assert_eq!(service.should_broadcast_update(&"b".to_string()), force_reload);
        assert_eq!(receiver.get(), None);
    }
}

#[test]
fn a_receiver_at_hand_makes_polling_broadcast_every_change() {
    let (mut service, receiver) = Service::with_delay(0);
    let mut seen = receiver.changes();
    let mut broadcasts = Vec::new();
    let (mut run, _): (ServiceRun, Action) = service.start();
    let loads = vec![
        found("1"),
        found("1"),
        Event::Reloaded(Err(ReloaderError::Reload("x".to_string()))),
        Event::Reloaded(Ok(None)),
        found("2"),
        found("2"),
        found("1"),
        Event::Reloaded(Ok(None)),
    ];
    for load in loads {
        assert!(run.is_awaiting(&load));
        let action = service.step_to(&mut run, load, &receiver);
        assert!(matches!(action, Action::Sleep(0)));
        if seen.has_changed().unwrap() {
            broadcasts.push(seen.borrow_and_update().clone());
        }
        assert!(run.is_awaiting(&Event::Woke));
        service.step_to(&mut run, Event::Woke, &receiver);
    }
    assert_eq!(broadcasts, vec![text("1"), text("2"), text("1")]);
}

#[test]
fn a_value_that_comes_back_is_broadcast_again() {
    let (mut service, receiver) = Service::with_defaults();
    let mut seen = receiver.changes();
    let mut broadcasts = Vec::new();
    let events = vec![
        WatchEvent::Changed("1".to_string()),
        WatchEvent::Changed("1".to_string()),
        WatchEvent::Removed,
        WatchEvent::Changed("1".to_string()),
    ];
    for event in events {
        assert!(service.handle_watch_event_to::<String>(event, &receiver).is_ok());
        if seen.has_changed().unwrap() {
            broadcasts.push(seen.borrow_and_update().clone());
        }
    }
    assert_eq!(broadcasts, vec![text("1"), None, text("1")]);
    let error = WatchEvent::Error("x".to_string());
    let result = service.handle_watch_event_to::<String>(error, &receiver);
    assert!(matches!(result, Err(ReloaderError::Other(message)) if message == "x"));
    assert!(!seen.has_changed().unwrap());
}

#[test]
fn cycles_and_broadcasts_go_well_with_a_receiver_at_hand() {
    let (mut service, receiver) = Service::with_defaults();
    let cycle = service.reload_cycle_to::<String>(Ok(text("a")), &receiver);
    assert!(matches!(cycle, Ok(true)));
    assert_eq!(receiver.get_at_rest(&service), text("a"));
    assert!(service.broadcast_to::<String>(None, &receiver).is_ok());
    assert_eq!(receiver.get_at_rest(&service), None);
    let cycle = service.reload_cycle_to::<String>(Ok(text("a")), &receiver);
    assert!(matches!(cycle, Ok(true)));
    assert_eq!(receiver.get_at_rest(&service), None);
    assert!(matches!(service.reload_cycle::<String>(Ok(text("b"))), Ok(true)));
    assert!(service.handle_watch_event::<String>(WatchEvent::Removed).is_ok());
    assert_eq!(receiver.get(), None);
}
