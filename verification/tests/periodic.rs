use std::sync::Arc;

use hot_reload::channel::open;
use hot_reload::periodic::{disseminate, disseminate_to, PeriodicStep};
use hot_reload::reload;
use hot_reload::watcher::config::{ConfigToml, ConfigWatch, Loaded, UserInfo};
use hot_reload::watcher::server::{Server, ServerEvent};
use hot_reload::watcher::WatcherService;

fn user(name: &str, id: &str) -> Option<UserInfo> {
    Some(UserInfo {
        user_name: Some(name.to_string()),
        user_id: Some(id.to_string()),
    })
}

#[test]
fn found_values_are_disseminated() {
    let (mut publisher, subscriber) = open(None);
    let step = disseminate(&mut publisher, 5, Ok::<_, String>(Some(1)));
    assert_eq!(step, PeriodicStep::Sleep(5));
    assert_eq!(subscriber.latest(), Some(1));
    let step = disseminate(&mut publisher, 5, Ok::<_, String>(None));
    assert_eq!(step, PeriodicStep::Sleep(5));
    let step = disseminate(&mut publisher, 5, Err("gone"));
    assert_eq!(step, PeriodicStep::Sleep(5));
    assert_eq!(subscriber.latest(), Some(1));
    drop(subscriber);
    let step = disseminate(&mut publisher, 5, Err("gone"));
    assert_eq!(step, PeriodicStep::Sleep(5));
    let step = disseminate(&mut publisher, 5, Ok::<_, String>(Some(2)));
    assert_eq!(step, PeriodicStep::Stop);
}

#[test]
fn a_periodic_reloader_starts_with_a_value() {
    let made = reload::ReloaderService::new(Ok(Some(Arc::new(1))), 10);
    let (mut service, receiver) = made.ok().unwrap();
    assert_eq!(receiver.borrow(), Some(Arc::new(1)));
    assert_eq!(receiver.changes().has_changed().ok(), Some(false));
    assert_eq!(service.start(Ok(Some(Arc::new(2)))), PeriodicStep::Sleep(10));
    assert_eq!(receiver.borrow_at_rest(&service), Some(Arc::new(2)));
    assert_eq!(service.start(Ok(None)), PeriodicStep::Sleep(10));
    let failed = Err(reload::ReloaderError::Reload("gone"));
    assert_eq!(service.start(failed), PeriodicStep::Sleep(10));
    let other = receiver.clone();
    drop(receiver);
    assert_eq!(service.start(Ok(Some(Arc::new(3)))), PeriodicStep::Sleep(10));
    assert_eq!(other.borrow(), Some(Arc::new(3)));
    drop(other);
    assert_eq!(service.start(Ok(Some(Arc::new(4)))), PeriodicStep::Stop);
}

#[test]
fn a_periodic_reloader_needs_a_first_reload() {
    let made = reload::ReloaderService::<u8>::new(Err(reload::ReloaderError::Reload("gone")), 10);
    assert!(matches!(made, Err(reload::ReloaderError::Reload("gone"))));
}

#[test]
fn a_watcher_disseminates_its_config() {
    let watch = ConfigWatch {
        config: ConfigToml::default(),
    };
    let made = WatcherService::new(watch.reload(), 10);
    let (mut service, receiver) = made.ok().unwrap();
    let empty = ConfigToml {
        listen_addresses: None,
        user_info: None,
    };
    assert_eq!(receiver.borrow().as_deref(), Some(&empty));
    let mut seen = receiver.changes();
    assert_eq!(service.start(watch.clone().reload()), PeriodicStep::Sleep(10));
    assert!(seen.has_changed().unwrap());
    seen.mark_unchanged();
    assert_eq!(service.start(Err("gone".to_string())), PeriodicStep::Sleep(10));
    assert!(!seen.has_changed().unwrap());
    assert_eq!(receiver.borrow_at_rest(&service).as_deref(), Some(&empty));
    drop(seen);
    let other = receiver.clone();
    drop(receiver);
    drop(other);
    assert_eq!(service.start(watch.reload()), PeriodicStep::Stop);
}

#[test]
fn a_watcher_needs_a_first_reload() {
    let made = WatcherService::<u8>::new(Err("gone".to_string()), 10);
    assert!(matches!(made, Err(text) if text == "gone"));
}

#[test]
fn equal_configs_are_told_from_others() {
    let config = ConfigToml {
        listen_addresses: Some(vec!["127.0.0.1:80".to_string(), "[::1]:80".to_string()]),
        user_info: user("ann", "7"),
    };
    assert!(config.is_updated(&config.clone()));
    assert_eq!(config, config.clone());
    let empty = ConfigToml::default();
    assert!(empty.is_updated(&ConfigToml::default()));
    assert!(!config.is_updated(&empty));
    assert!(!empty.is_updated(&config));

    let mut other = config.clone();
    other.listen_addresses = Some(vec!["127.0.0.1:80".to_string()]);
    assert!(!config.is_updated(&other));
    other.listen_addresses = Some(vec!["127.0.0.1:80".to_string(), "[::1]:81".to_string()]);
    assert!(!config.is_updated(&other));
    let mut other = config.clone();
    other.user_info = user("ann", "8");
    assert!(!config.is_updated(&other));
    other.user_info = user("bob", "7");
    assert!(!config.is_updated(&other));
    other.user_info = Some(UserInfo::default());
    assert!(!config.is_updated(&other));
    other.user_info = None;
    assert!(!config.is_updated(&other));
}

#[test]
fn a_watched_config_is_loaded_or_not() {
    let loaded = ConfigToml::reload(Loaded::Unreadable);
    assert_eq!(loaded, Err("Failed to load config file".to_string()));
    let loaded = ConfigToml::reload(Loaded::Unparsable("E".to_string()));
    assert_eq!(loaded, Err("Failed to parse toml config: E".to_string()));
    let loaded = ConfigToml::reload(Loaded::Parsed(ConfigToml::default()));
    assert_eq!(loaded, Ok(ConfigToml::default()));
}

#[test]
fn a_watching_server_works_with_the_latest_value() {
    let mut server = Server::new();
    assert_eq!(server.value, None);
    assert!(server.entrypoint(ServerEvent::Changed(Some(Arc::new(1)))));
    assert!(server.entrypoint(ServerEvent::Changed(Some(Arc::new(2)))));
    assert_eq!(server.value, Some(Arc::new(2)));
    assert!(!server.entrypoint(ServerEvent::Changed(None)));
    assert!(!server.entrypoint(ServerEvent::Exhausted));
    assert_eq!(server.value, Some(Arc::new(2)));
}

#[test]
fn a_receiver_at_hand_keeps_a_periodic_service_going() {
    let (mut publisher, subscriber) = open(None);
    let step = disseminate_to(&mut publisher, 5, Ok::<_, String>(Some(1)), &subscriber);
    assert_eq!(step, PeriodicStep::Sleep(5));
    assert_eq!(subscriber.latest_from(&publisher), Some(1));

    let made = reload::ReloaderService::new(Ok(Some(Arc::new(1))), 10);
    let (mut service, receiver) = made.ok().unwrap();
    let failed = Err(reload::ReloaderError::Reload("gone"));
    assert_eq!(service.start_to(failed, &receiver), PeriodicStep::Sleep(10));
    assert_eq!(receiver.borrow_at_rest(&service), Some(Arc::new(1)));
    assert_eq!(service.start_to(Ok(Some(Arc::new(2))), &receiver), PeriodicStep::Sleep(10));
    assert_eq!(receiver.borrow_at_rest(&service), Some(Arc::new(2)));
}

#[test]
fn a_watcher_delivers_what_it_finds_at_last() {
    let first = Arc::new(1);
    let made = WatcherService::new(Ok(Some(first.clone())), 3);
    let (mut service, receiver) = made.ok().unwrap();
    for _ in 0..4 {
        assert_eq!(service.start_to(Err("gone".to_string()), &receiver), PeriodicStep::Sleep(3));
        assert_eq!(service.start_to(Ok(None), &receiver), PeriodicStep::Sleep(3));
        assert!(Arc::ptr_eq(&receiver.borrow_at_rest(&service).unwrap(), &first));
    }
    let last = Arc::new(1);
    assert_eq!(service.start_to(Ok(Some(last.clone())), &receiver), PeriodicStep::Sleep(3));
    assert!(Arc::ptr_eq(&receiver.borrow_at_rest(&service).unwrap(), &last));
    assert!(Arc::ptr_eq(&receiver.borrow().unwrap(), &last));
}
