use hot_reload::server::config::{is_known_mode, watch_config, ConfigLoad, ConfigToml};
use hot_reload::server::context::ServerConfig;
use hot_reload::server::log::{is_shown, max_level, LogLevel};
use hot_reload::server::{MainEvent, Server, ServerLibError};
use hot_reload::{ReloaderConfig, WatchStrategy};

fn config(id: u32, name: &str) -> ConfigToml {
    ConfigToml {
        id,
        name: name.to_string(),
    }
}

fn level(setting: &str) -> LogLevel {
    max_level(Some(setting.to_string()))
}

#[test]
fn watch_modes_name_strategies() {
    let mode = |text: &str| watch_config(&text.to_string());
    assert_eq!(mode("polling"), ReloaderConfig::polling(10));
    assert_eq!(mode("realtime"), ReloaderConfig::realtime());
    assert_eq!(mode("hybrid"), ReloaderConfig::hybrid(10));
    assert_eq!(mode("Polling"), ReloaderConfig::hybrid(10));
    assert_eq!(mode("").strategy, WatchStrategy::Hybrid);
}

#[test]
fn unknown_watch_modes_are_told_from_known_ones() {
    assert!(is_known_mode(&"polling".to_string()));
    assert!(is_known_mode(&"realtime".to_string()));
    assert!(is_known_mode(&"hybrid".to_string()));
    assert!(!is_known_mode(&"HYBRID".to_string()));
    assert!(!is_known_mode(&"".to_string()));
}

#[test]
fn a_server_config_is_loaded_or_not() {
    let loaded = ConfigToml::load_from(ConfigLoad::Unreadable("denied".to_string()));
    assert_eq!(loaded, Err("Failed to read config file: denied".to_string()));
    let loaded = ConfigToml::load_from(ConfigLoad::Unparsable("line 1".to_string()));
    assert_eq!(loaded, Err("Failed to parse toml config: line 1".to_string()));
    let loaded = ConfigToml::load_from(ConfigLoad::Parsed(config(3, "x")));
    assert_eq!(loaded, Ok(config(3, "x")));
    assert_eq!(ConfigToml::default(), config(0, ""));
}

#[test]
fn a_loaded_config_becomes_a_server_config() {
    let served = ServerConfig::from(config(7, "web"));
    assert_eq!(served, ServerConfig::new("web".to_string(), 7));
    assert_eq!(served.clone().name(), "web");
    assert_eq!(served.id(), 7);
}

#[test]
fn the_main_service_takes_new_values() {
    let mut server: Server<ConfigToml> = Server::new();
    assert!(matches!(server.main_service(MainEvent::Something), Ok(None)));
    assert_eq!(server.value, None);
    let served = server.main_service(MainEvent::Changed(Some(config(1, "a"))));
    assert_eq!(served.unwrap(), Some(ServerConfig::new("a".to_string(), 1)));
    assert_eq!(server.value, Some(config(1, "a")));
    assert!(matches!(server.main_service(MainEvent::Something), Ok(None)));
    assert_eq!(server.value, Some(config(1, "a")));
}

#[test]
fn the_main_service_ends_without_a_value() {
    let mut server: Server<ConfigToml> = Server::new();
    let ended = server.main_service(MainEvent::Changed(None));
    assert!(matches!(ended, Err(ServerLibError::Other(text)) if text == "None value"));
    let ended = server.main_service(MainEvent::Exhausted);
    assert!(matches!(ended, Err(ServerLibError::Other(text)) if text == "tokio::secect! else"));
}

#[test]
fn levels_have_names_and_numbers() {
    let levels = [
        (LogLevel::Error, "error", "ERROR", "1"),
        (LogLevel::Warn, "warn", "Warn", "2"),
        (LogLevel::Info, "info", "iNFO", "3"),
        (LogLevel::Debug, "debug", "DeBuG", "4"),
        (LogLevel::Trace, "trace", "TRACe", "5"),
    ];
    for (expected, name, mixed, number) in levels {
        assert_eq!(level(name), expected);
        assert_eq!(level(mixed), expected);
        assert_eq!(level(number), expected);
    }
    assert_eq!(level("+5"), LogLevel::Trace);
    assert_eq!(level("0000000000000000000000000000002"), LogLevel::Warn);
    assert_eq!(level("+01"), LogLevel::Error);
}

#[test]
fn unknown_levels_mean_info() {
    assert_eq!(max_level(None), LogLevel::Info);
    for setting in ["", "0", "6", "11", "15", "+", "-1", " 1", "1 ", "warning", "trac", "off", "++1"] {
        assert_eq!(level(setting), LogLevel::Info, "{setting:?}");
    }
}

#[test]
fn own_messages_are_shown_down_to_the_maximum() {
    for target in ["hot_reload", "hot_reload::service", "server_bin::config", "server_library"] {
        assert!(is_shown(target, LogLevel::Debug, LogLevel::Debug));
        assert!(!is_shown(target, LogLevel::Trace, LogLevel::Debug));
        assert!(!is_shown(target, LogLevel::Warn, LogLevel::Error));
    }
}

#[test]
fn other_messages_are_shown_if_grave() {
    for target in ["", "tokio", "hot_reloa", "my_hot_reload", "Server_bin"] {
        assert!(is_shown(target, LogLevel::Error, LogLevel::Trace));
        assert!(is_shown(target, LogLevel::Warn, LogLevel::Warn));
        assert!(!is_shown(target, LogLevel::Warn, LogLevel::Error));
        assert!(!is_shown(target, LogLevel::Info, LogLevel::Trace));
    }
}
