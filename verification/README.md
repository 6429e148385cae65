# hot_reload

Hot reloading of values that live in files, key-value stores and other
sources. A service reloads a value by polling, on change notifications, or on
notifications with polling as a fallback, and broadcasts it to its receivers
when it changed.

What the service decides is a library whose behaviour is stated in contracts
and proved with Verus. It performs no I/O and never waits: it says what has to
be done next and is told how that went.

- `src/config.rs`, `src/error.rs`: configuration and errors
- `src/channel.rs`: the broadcast channel, on `tokio`'s watch channel
- `src/strategy.rs`, `src/strategy_laws.rs`: the three watch strategies as one
  state machine, and what holds of all of its runs
- `src/service.rs`, `src/service_laws.rs`: what a service broadcasts and when
- `src/path.rs`, `src/path_set.rs`: paths and sets of paths
- `src/debounce.rs`: only the last of several rapid file events counts
- `src/file_reloader.rs`, `src/file_watch.rs`: which files and directories are
  watched, and what file events lead to
- `src/periodic.rs`, `src/reload.rs`: a simpler, periodic reloader
- `src/server/`: a server that is reconfigured while it runs
- `src/watcher/`: a small demonstration

`app/` runs these decisions: it reads files, watches directories, sleeps and
parses the command line.

    server-bin --config config.toml [--watch-mode polling|realtime|hybrid]
    server-bin poc --config config.toml

`RUST_LOG` sets the most verbose level of log messages, by name or by number.
