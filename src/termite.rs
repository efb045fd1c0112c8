use std::sync::mpsc::{Receiver, SendError, Sender};
use vstd::prelude::*;
use vstd::string::StringExecFns;

verus! {

/// The sending end of a std channel.
#[verifier::external_type_specification]
#[verifier::external_body]
#[verifier::reject_recursive_types(T)]
pub struct ExSender<T>(Sender<T>);

/// The receiving end of a std channel.
#[verifier::external_type_specification]
#[verifier::external_body]
#[verifier::reject_recursive_types(T)]
pub struct ExReceiver<T>(Receiver<T>);

/// A value that could not be sent, handed back.
#[verifier::external_type_specification]
#[verifier::external_body]
#[verifier::reject_recursive_types(T)]
pub struct ExSendError<T>(SendError<T>);

/// Relies on `std::sync::mpsc::channel`: a connected sender and receiver.
pub assume_specification<T>[ std::sync::mpsc::channel::<T> ]() -> (Sender<T>, Receiver<T>);

/// Relies on `Sender::send`: hands the value to the receiver, or gives it
/// back when the receiver is gone. Which one happens depends on the receiver.
pub assume_specification<T>[ Sender::<T>::send ](sender: &Sender<T>, t: T) -> Result<(), SendError<T>>;

/// One entry for the log worker.
#[derive(Debug, PartialEq, Eq)]
pub enum LogType {
    Error(String),
    Info(String),
    Debug(String),
    Warn(String),
    /// Tells the worker to close its end of the channel and stop.
    HangUp,
}

/// The line the worker appends for an entry: a space, the level tag, a space,
/// the message and a newline. The hang-up entry writes nothing.
pub open spec fn log_line(entry: LogType) -> Option<Seq<char>> {
    match entry {
        LogType::Error(m) => Some(" ERROR "@ + m@ + "\n"@),
        LogType::Info(m) => Some(" INFO "@ + m@ + "\n"@),
        LogType::Debug(m) => Some(" DEBUG "@ + m@ + "\n"@),
        LogType::Warn(m) => Some(" WARN "@ + m@ + "\n"@),
        LogType::HangUp => None,
    }
}

impl LogType {
    /// What the worker does with this entry: `Some(line)` to append, `None` to stop.
    pub fn line(&self) -> (r: Option<String>)
        ensures
            r matches Some(l) ==> log_line(*self) == Some(l@),
            r is None ==> log_line(*self) is None,
    {
        match self {
            LogType::Error(m) => Some(LoggingHandle::log_error(m.as_str())),
            LogType::Info(m) => Some(LoggingHandle::log_info(m.as_str())),
            LogType::Debug(m) => Some(LoggingHandle::log_debug(m.as_str())),
            LogType::Warn(m) => Some(LoggingHandle::log_warn(m.as_str())),
            LogType::HangUp => None,
        }
    }
}

/// The sending end of the logging pipeline. Sending never waits on the
/// disk and never reports a failure to the caller.
pub struct LoggingHandle {
    /// The channel entries are sent across.
    pub sender: Sender<LogType>,
}

fn tagged_line(tag: &str, msg: &str) -> (line: String)
    ensures
        line@ == tag@ + msg@ + "\n"@,
{
    let mut line = String::from_str(tag);
    line.append(msg);
    line.append("\n");
    line
}

impl LoggingHandle {
    /// A handle whose receiver is closed before it is returned: every entry
    /// sent through it is dropped at once, and no file is ever touched.
    pub fn empty() -> LoggingHandle {
        let (tx, rx) = std::sync::mpsc::channel();
        {
            let _closed: Receiver<LogType> = rx;
        }
        LoggingHandle { sender: tx }
    }

    /// Sends an entry; a closed receiver drops it silently.
    pub fn submit(&self, entry: LogType) {
        let _delivered = self.sender.send(entry);
    }

    pub fn error(&self, msg: &str) {
        self.submit(LogType::Error(msg.to_owned()));
    }

    pub fn info(&self, msg: &str) {
        self.submit(LogType::Info(msg.to_owned()));
    }

    pub fn debug(&self, msg: &str) {
        self.submit(LogType::Debug(msg.to_owned()));
    }

    pub fn warn(&self, msg: &str) {
        self.submit(LogType::Warn(msg.to_owned()));
    }

    /// The log line of an error message.
    pub fn log_error(msg: &str) -> (line: String)
        ensures
            line@ == " ERROR "@ + msg@ + "\n"@,
    {
        tagged_line(" ERROR ", msg)
    }

    /// The log line of an informational message.
    pub fn log_info(msg: &str) -> (line: String)
        ensures
            line@ == " INFO "@ + msg@ + "\n"@,
    {
        tagged_line(" INFO ", msg)
    }

    /// The log line of a debug message.
    pub fn log_debug(msg: &str) -> (line: String)
        ensures
            line@ == " DEBUG "@ + msg@ + "\n"@,
    {
        tagged_line(" DEBUG ", msg)
    }

    /// The log line of a warning.
    pub fn log_warn(msg: &str) -> (line: String)
        ensures
            line@ == " WARN "@ + msg@ + "\n"@,
    {
        tagged_line(" WARN ", msg)
    }
}

} // verus!
