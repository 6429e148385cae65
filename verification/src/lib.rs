//! Hot reloading of values that live in files, key-value stores and other
//! sources: when to reload, what to broadcast, and how to recover.
//!
//! Nothing here reads a source or waits. Each part says what has to be done
//! next and is told how that went.
pub mod channel;
pub mod config;
pub mod debounce;
pub mod error;
pub mod file_reloader;
pub mod file_watch;
pub mod path;
pub mod path_set;
pub mod periodic;
pub mod reload;
pub mod server;
pub mod service;
pub mod service_laws;
pub mod strategy;
pub mod strategy_laws;
pub mod watcher;

pub use config::{ReloaderConfig, WatchStrategy};
pub use error::{ReloadResult, ReloaderError};
pub use file_reloader::FileReloader;
pub use service::{ReloaderReceiver, ReloaderSender, ReloaderService, ServiceRun, WatchEvent};
