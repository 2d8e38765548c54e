use vstd::prelude::*;

verus! {

/// Errors surfaced by the core: path classification, channel traffic, and
/// state transitions that no handler implements.
#[derive(PartialEq, Eq, Debug)]
pub enum AppError {
    /// A public address could not be acquired.
    IPError,
    /// The pattern engine behind the multi-path parser could not execute.
    PatternError,
    /// An I/O failure while walking a directory tree; carries a description.
    IoError(String),
    /// A channel refused a message: the queue is full or the peer is gone.
    ChannelRejected,
    /// A message arrived that the current state has no transition for.
    UnsupportedMessage,
    /// The transition is a placeholder with no implemented behavior.
    Unimplemented,
}

impl AppError {
    /// A short human-readable description of the error.
    pub fn message(&self) -> (r: &'static str)
        ensures
            self is IPError ==> r@ == "Could not bind to acquire public IP"@,
            self is PatternError ==> r@ == "Error running the path pattern"@,
            self is IoError ==> r@ == "I/O error while walking a directory"@,
            self is ChannelRejected ==> r@ == "Channel rejected the message"@,
            self is UnsupportedMessage ==> r@ == "No transition for this message"@,
            self is Unimplemented ==> r@ == "Transition not implemented"@,
    {
        match self {
            AppError::IPError => "Could not bind to acquire public IP",
            AppError::PatternError => "Error running the path pattern",
            AppError::IoError(_) => "I/O error while walking a directory",
            AppError::ChannelRejected => "Channel rejected the message",
            AppError::UnsupportedMessage => "No transition for this message",
            AppError::Unimplemented => "Transition not implemented",
        }
    }
}

} // verus!
