use hot_reload::debounce::{DebouncedEvent, Debouncer, FILE_EVENT_DEBOUNCE_MILLIS};

#[test]
fn the_debounce_window_is_a_fifth_of_a_second() {
    assert_eq!(FILE_EVENT_DEBOUNCE_MILLIS, 200);
}

#[test]
fn only_the_last_of_a_succession_is_released() {
    let mut debouncer = Debouncer::new();
    assert!(debouncer.has_room());
    let first = debouncer.queue(DebouncedEvent::Reload);
    let second = debouncer.queue(DebouncedEvent::Error("odd".to_string()));
    let third = debouncer.queue(DebouncedEvent::RemovedPendingVerification);
    assert_eq!((first, second, third), (1, 2, 3));
    assert!(debouncer.release(first).is_none());
    assert!(debouncer.release(second).is_none());
    assert!(matches!(
        debouncer.release(third),
        Some(DebouncedEvent::RemovedPendingVerification)
    ));
}

#[test]
fn an_event_is_released_once() {
    let mut debouncer = Debouncer::new();
    let id = debouncer.queue(DebouncedEvent::Reload);
    assert!(matches!(debouncer.release(id), Some(DebouncedEvent::Reload)));
    assert!(debouncer.release(id).is_none());
    let next = debouncer.queue(DebouncedEvent::Error("odd".to_string()));
    assert_eq!(next, 2);
    assert!(debouncer.release(id).is_none());
    assert!(
        matches!(debouncer.release(next), Some(DebouncedEvent::Error(text)) if text == "odd")
    );
}

#[test]
fn an_unknown_number_releases_nothing() {
    let mut debouncer = Debouncer::new();
    assert!(debouncer.release(0).is_none());
    assert!(debouncer.release(1).is_none());
    let id = debouncer.queue(DebouncedEvent::Reload);
    assert!(debouncer.release(id + 1).is_none());
    assert!(debouncer.release(id).is_some());
}
