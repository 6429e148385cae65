//! Errors of a reloader service.
use vstd::prelude::*;

verus! {

/// Errors that can occur during reloading operations
#[derive(Debug)]
pub enum ReloaderError<V, S> {
    /// The sending half of the channel is gone.
    WatchRecvError,
    /// No receiver is left; the value that could not be sent comes back.
    WatchSendError(Option<V>),
    /// The source could not be reloaded.
    Reload(S),
    /// Any other failure, with its message.
    Other(String),
}

/// Result of an operation of a reloader service.
pub type ReloadResult<T, V, S> = Result<T, ReloaderError<V, S>>;

/// What an error says, where its reload message reads `reload`.
pub open spec fn error_message<V, S>(error: ReloaderError<V, S>, reload: Seq<char>) -> Seq<char> {
    match error {
        ReloaderError::WatchRecvError => "Error at reloaded value receiver"@,
        ReloaderError::WatchSendError(_) => "Error at reloaded value sender"@,
        ReloaderError::Reload(_) => "Failed to reload: "@ + reload,
        ReloaderError::Other(message) => message@,
    }
}

impl<V> ReloaderError<V, String> {
    /// The text of the error.
    pub fn message(&self) -> (text: String)
        ensures
            text@ == error_message(
                *self,
                match *self {
                    ReloaderError::Reload(reason) => reason@,
                    _ => Seq::empty(),
                },
            ),
    {
        match self {
            ReloaderError::WatchRecvError => "Error at reloaded value receiver".to_owned(),
            ReloaderError::WatchSendError(_) => "Error at reloaded value sender".to_owned(),
            ReloaderError::Reload(reason) => "Failed to reload: ".to_owned().concat(reason.as_str()),
            ReloaderError::Other(message) => message.clone(),
        }
    }
}

impl<V> ReloaderError<V, &'static str> {
    /// The text of the error.
    pub fn message(&self) -> (text: String)
        ensures
            text@ == error_message(
                *self,
                match *self {
                    ReloaderError::Reload(reason) => reason@,
                    _ => Seq::empty(),
                },
            ),
    {
        match self {
            ReloaderError::WatchRecvError => "Error at reloaded value receiver".to_owned(),
            ReloaderError::WatchSendError(_) => "Error at reloaded value sender".to_owned(),
            ReloaderError::Reload(reason) => "Failed to reload: ".to_owned().concat(reason),
            ReloaderError::Other(message) => message.clone(),
        }
    }
}

/// What errors say, for every reason and message.
pub proof fn what_errors_say<V, S>(value: Option<V>, reason: S, message: String, reload: Seq<char>)
    ensures
        error_message(ReloaderError::<V, S>::WatchRecvError, reload)
            == "Error at reloaded value receiver"@,
        error_message(ReloaderError::<V, S>::WatchSendError(value), reload)
            == "Error at reloaded value sender"@,
        error_message(ReloaderError::<V, S>::Reload(reason), reload) == "Failed to reload: "@
            + reload,
        error_message(ReloaderError::<V, S>::Other(message), reload) == message@,
{
}

} // verus!
