use hot_reload::reload;
use hot_reload::server::ServerLibError;
use hot_reload::ReloaderError;

#[test]
fn every_error_has_its_text() {
    let gone: ReloaderError<u8, String> = ReloaderError::WatchRecvError;
    assert_eq!(gone.message(), "Error at reloaded value receiver");
    let unsent: ReloaderError<u8, String> = ReloaderError::WatchSendError(Some(3));
    assert_eq!(unsent.message(), "Error at reloaded value sender");
    let failed: ReloaderError<u8, String> = ReloaderError::Reload("no such file".to_string());
    assert_eq!(failed.message(), "Failed to reload: no such file");
    let other: ReloaderError<u8, String> = ReloaderError::Other("File was removed".to_string());
    assert_eq!(other.message(), "File was removed");
}

#[test]
fn errors_with_fixed_reasons_have_texts() {
    let gone: ReloaderError<u8, &'static str> = ReloaderError::WatchRecvError;
    assert_eq!(gone.message(), "Error at reloaded value receiver");
    let unsent: ReloaderError<u8, &'static str> = ReloaderError::WatchSendError(None);
    assert_eq!(unsent.message(), "Error at reloaded value sender");
    let failed: ReloaderError<u8, &'static str> = ReloaderError::Reload("timeout");
    assert_eq!(failed.message(), "Failed to reload: timeout");
    let other: ReloaderError<u8, &'static str> = ReloaderError::Other("odd".to_string());
    assert_eq!(other.message(), "odd");
}

#[test]
fn errors_of_the_periodic_reloader_have_texts() {
    assert_eq!(reload::ReloaderError::WatchRecvError.message(), "Error at watcher receiver");
    assert_eq!(reload::ReloaderError::Reload("timeout").message(), "Failed to reload: timeout");
    assert_eq!(reload::ReloaderError::Other("odd".to_string()).message(), "odd");
}

#[test]
fn errors_of_the_server_have_texts() {
    assert_eq!(ServerLibError::Other("None value".to_string()).message(), "None value");
}
