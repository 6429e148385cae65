use std::sync::Arc;

use hot_reload::channel::open;
use hot_reload::reload;
use hot_reload::{ReloaderError, ReloaderReceiver};

#[test]
fn a_channel_holds_what_it_was_opened_with() {
    let (_publisher, subscriber) = open(Some(4));
    assert_eq!(subscriber.latest(), Some(4));
    let (_publisher, subscriber) = open::<u8>(None);
    assert_eq!(subscriber.latest(), None);
}

#[test]
fn receivers_see_the_value_sent_last() {
    let (mut publisher, subscriber) = open(Some("a".to_string()));
    let other = subscriber.clone();
    assert_eq!(publisher.publish(Some("b".to_string())), Ok(()));
    assert_eq!(publisher.publish(Some("c".to_string())), Ok(()));
    assert_eq!(subscriber.latest(), Some("c".to_string()));
    assert_eq!(other.latest_from(&publisher), Some("c".to_string()));
    assert_eq!(publisher.publish(None), Ok(()));
    assert_eq!(subscriber.latest_from(&publisher), None);
}

#[test]
fn a_value_comes_back_if_nobody_listens() {
    let (mut publisher, subscriber) = open(None);
    drop(subscriber);
    assert_eq!(publisher.publish(Some(7)), Err(Some(7)));
}

#[test]
fn a_clone_keeps_the_channel_alive() {
    let (mut publisher, subscriber) = open(None);
    let other = subscriber.clone();
    drop(subscriber);
    assert_eq!(publisher.publish(Some(7)), Ok(()));
    assert_eq!(other.latest(), Some(7));
}

#[test]
fn a_receiver_for_changes_notices_each_one() {
    let (mut publisher, subscriber) = open(Some(1));
    let changes = subscriber.changes();
    assert_eq!(changes.has_changed().ok(), Some(false));
    assert_eq!(publisher.publish(Some(2)), Ok(()));
    assert_eq!(changes.has_changed().ok(), Some(true));
    assert_eq!(*changes.borrow(), Some(2));
    drop(publisher);
    assert!(changes.has_changed().is_err());
}

#[test]
fn waiting_on_a_closed_channel_is_an_error() {
    assert!(ReloaderReceiver::<u8>::changed::<String>(Ok(())).is_ok());
    let (publisher, subscriber) = open(Some(1));
    let changes = subscriber.changes();
    drop(publisher);
    let error = changes.has_changed().unwrap_err();
    let waited = ReloaderReceiver::<u8>::changed::<String>(Err(error));
    assert!(matches!(waited, Err(ReloaderError::WatchRecvError)));
    let error = changes.has_changed().unwrap_err();
    let waited = reload::ReloaderReceiver::<u8>::changed(Err(error));
    assert!(matches!(waited, Err(reload::ReloaderError::WatchRecvError)));
    assert!(reload::ReloaderReceiver::<u8>::changed(Ok(())).is_ok());
}

#[test]
fn a_receiver_at_hand_makes_a_send_succeed() {
    let (mut publisher, subscriber) = open(None);
    assert_eq!(publisher.publish_to(Some(1), &subscriber), Ok(()));
    assert_eq!(subscriber.latest_from(&publisher), Some(1));
    drop(subscriber);
    let (_other, stranger) = open(None);
    assert_eq!(publisher.publish_to(Some(2), &stranger), Err(Some(2)));
}

#[test]
fn shared_values_are_not_copied() {
    let value = Arc::new("a".to_string());
    let (publisher, subscriber) = open(Some(value.clone()));
    assert!(Arc::ptr_eq(&subscriber.shared().unwrap(), &value));
    assert!(Arc::ptr_eq(&subscriber.shared_from(&publisher).unwrap(), &value));
}
