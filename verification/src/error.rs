//! The unified error taxonomy: every fallible operation in this crate
//! reports its failure through [`Error`]. Failures raised by outside
//! code (an I/O error from a sink, a serialization error, a color-parse
//! error, a poisoned lock, a dead channel) are converted into it at the
//! boundary where they arise, keeping the underlying message as a
//! chained cause.
//!
//! The kind of an error is deliberately private: callers observe only
//! the display text ([`Error::message`]) and the optional cause text
//! ([`Error::cause_message`]). Contracts speak of the kind through the
//! spec-level [`Error::kind`].

use serde_json::Error as JsonError;
use vstd::prelude::*;
use vstd::string::StringExecFns;

verus! {

/// The kind of a failure, visible to specifications only: exec code
/// cannot obtain it, so callers cannot branch on an error's internals.
#[derive(Clone, Copy, Debug, PartialEq, Eq, Structural)]
pub enum ErrorKind {
    /// An I/O failure wrapped with a caller-supplied context sentence.
    IoContext,
    /// A plain I/O failure from a sink.
    Io,
    /// A color specification that could not be parsed.
    ColorParse,
    /// A JSON serialization failure.
    Json,
    /// A failure reported by a worker on behalf of the embedding host.
    Worker,
    /// A synchronization primitive whose holder panicked.
    Sync,
    /// A cross-thread channel whose receiving side is gone.
    Channel,
}

#[derive(Debug)]
enum InnerError {
    /// Context sentence, then the underlying I/O error's text.
    IoContext(String, String),
    Io(String),
    ColorParse(String),
    Json(String),
    WorkerError(String),
    SyncError(String),
    ChannelError(String),
}

/// The error type returned by every fallible operation of this crate.
#[derive(Debug)]
pub struct Error {
    inner: InnerError,
}

/// `termcolor::ParseColorError` is the failure termcolor reports for an
/// unparsable color specification; this crate only converts it into
/// [`Error`] and reads its display text.
#[verifier::external_type_specification]
#[verifier::external_body]
pub struct ExParseColorError(termcolor::ParseColorError);

/// `serde_json::Error` is the failure serde_json reports from
/// serialization; this crate only converts it into [`Error`] and reads
/// its display text.
#[verifier::external_type_specification]
#[verifier::external_body]
pub struct ExJsonError(JsonError);

/// `std::io::Error` is the failure type sinks backed by real I/O
/// produce; this crate only converts it into [`Error`] and reads its
/// display text.
#[verifier::external_type_specification]
#[verifier::external_body]
pub struct ExIoError(std::io::Error);

/// `std::sync::PoisonError` reports that the holder of a lock
/// panicked; this crate only converts it into [`Error`] and reads its
/// display text.
#[verifier::external_type_specification]
#[verifier::external_body]
#[verifier::reject_recursive_types(T)]
pub struct ExPoisonError<T>(std::sync::PoisonError<T>);

/// `crossbeam_channel::SendError` reports a send on a channel whose
/// receiving side is gone; this crate only converts it into [`Error`]
/// and reads its display text.
#[verifier::external_type_specification]
#[verifier::external_body]
#[verifier::reject_recursive_types(T)]
pub struct ExSendError<T>(crossbeam_channel::SendError<T>);

impl Error {
    /// Which failure this error reports (specification-level only).
    pub closed spec fn kind(&self) -> ErrorKind {
        match self.inner {
            InnerError::IoContext(_, _) => ErrorKind::IoContext,
            InnerError::Io(_) => ErrorKind::Io,
            InnerError::ColorParse(_) => ErrorKind::ColorParse,
            InnerError::Json(_) => ErrorKind::Json,
            InnerError::WorkerError(_) => ErrorKind::Worker,
            InnerError::SyncError(_) => ErrorKind::Sync,
            InnerError::ChannelError(_) => ErrorKind::Channel,
        }
    }

    /// The detail text: the underlying cause's message for converted
    /// kinds, the message given at construction for the others.
    pub closed spec fn detail(&self) -> Seq<char> {
        match self.inner {
            InnerError::IoContext(_, ref c) => c@,
            InnerError::Io(ref c) => c@,
            InnerError::ColorParse(ref c) => c@,
            InnerError::Json(ref c) => c@,
            InnerError::WorkerError(ref c) => c@,
            InnerError::SyncError(ref c) => c@,
            InnerError::ChannelError(ref c) => c@,
        }
    }

    /// The context sentence of an `IoContext` error; empty otherwise.
    pub closed spec fn context(&self) -> Seq<char> {
        match self.inner {
            InnerError::IoContext(ref s, _) => s@,
            _ => Seq::empty(),
        }
    }

    /// An error reporting a failure of a worker of the embedding host.
    pub fn worker_error(x: String) -> (r: Error)
        ensures
            r.kind() == ErrorKind::Worker,
            r.detail() == x@,
    {
        Error { inner: InnerError::WorkerError(x) }
    }

    /// An error reporting that the holder of a lock panicked. Relies on
    /// `std::sync::PoisonError`'s `Display` impl for the cause text.
    pub fn sync_error<T>(x: &std::sync::PoisonError<T>) -> (r: Error)
        ensures
            r.kind() == ErrorKind::Sync,
    {
        Error { inner: InnerError::SyncError(x.to_string()) }
    }

    /// An I/O failure wrapped with a context sentence; the sentence
    /// alone is the display text, the underlying error stays as the
    /// chained cause. Relies on `std::io::Error`'s `Display` impl for
    /// the cause text.
    pub fn io_context(s: &str, e: std::io::Error) -> (r: Error)
        ensures
            r.kind() == ErrorKind::IoContext,
            r.context() == s@,
    {
        Error { inner: InnerError::IoContext(s.to_owned(), e.to_string()) }
    }

    /// Conversion from a plain I/O failure. Relies on
    /// `std::io::Error`'s `Display` impl for the cause text.
    pub fn from_io(e: std::io::Error) -> (r: Error)
        ensures
            r.kind() == ErrorKind::Io,
    {
        Error { inner: InnerError::Io(e.to_string()) }
    }

    /// Conversion from a JSON serialization failure. Relies on
    /// `serde_json::Error`'s `Display` impl for the cause text.
    pub fn from_json(e: JsonError) -> (r: Error)
        ensures
            r.kind() == ErrorKind::Json,
    {
        Error { inner: InnerError::Json(e.to_string()) }
    }

    /// Conversion from termcolor's color-parse failure. Relies on
    /// `termcolor::ParseColorError`'s `Display` impl for the cause text.
    pub fn from_color_parse(e: termcolor::ParseColorError) -> (r: Error)
        ensures
            r.kind() == ErrorKind::ColorParse,
    {
        Error { inner: InnerError::ColorParse(e.to_string()) }
    }

    /// Conversion from a send on a disconnected channel. Relies on
    /// `crossbeam_channel::SendError`'s `Display` impl for the cause
    /// text.
    pub fn from_send_error<T>(e: &crossbeam_channel::SendError<T>) -> (r: Error)
        ensures
            r.kind() == ErrorKind::Channel,
    {
        Error { inner: InnerError::ChannelError(e.to_string()) }
    }

    /// The display text: a context sentence stands alone, every other
    /// kind names itself ahead of its detail text.
    pub fn message(&self) -> (r: String)
        ensures
            self.kind() == ErrorKind::IoContext ==> r@ == self.context(),
            self.kind() == ErrorKind::Io ==> r@ == "IO error: "@ + self.detail(),
            self.kind() == ErrorKind::ColorParse ==> r@ == "Color parse error: "@ + self.detail(),
            self.kind() == ErrorKind::Json ==> r@ == "Json error: "@ + self.detail(),
            self.kind() == ErrorKind::Worker ==> r@ == "Worker error: "@ + self.detail(),
            self.kind() == ErrorKind::Sync ==> r@ == "Sync error: "@ + self.detail(),
            self.kind() == ErrorKind::Channel ==> r@ == "Channel error: "@ + self.detail(),
    {
        match &self.inner {
            InnerError::IoContext(s, _) => s.clone(),
            InnerError::Io(c) => "IO error: ".to_owned().concat(c.as_str()),
            InnerError::ColorParse(c) => "Color parse error: ".to_owned().concat(c.as_str()),
            InnerError::Json(c) => "Json error: ".to_owned().concat(c.as_str()),
            InnerError::WorkerError(c) => "Worker error: ".to_owned().concat(c.as_str()),
            InnerError::SyncError(c) => "Sync error: ".to_owned().concat(c.as_str()),
            InnerError::ChannelError(c) => "Channel error: ".to_owned().concat(c.as_str()),
        }
    }

    /// The chained cause's text, for the kinds converted from an
    /// underlying failure; `None` for the internally raised kinds.
    pub fn cause_message(&self) -> (r: Option<String>)
        ensures
            match r {
                Some(c) => c@ == self.detail()
                    && (self.kind() == ErrorKind::IoContext || self.kind() == ErrorKind::Io
                    || self.kind() == ErrorKind::ColorParse || self.kind() == ErrorKind::Json),
                None => self.kind() == ErrorKind::Worker || self.kind() == ErrorKind::Sync
                    || self.kind() == ErrorKind::Channel,
            },
    {
        match &self.inner {
            InnerError::IoContext(_, c) => Some(c.clone()),
            InnerError::Io(c) => Some(c.clone()),
            InnerError::ColorParse(c) => Some(c.clone()),
            InnerError::Json(c) => Some(c.clone()),
            InnerError::WorkerError(_) => None,
            InnerError::SyncError(_) => None,
            InnerError::ChannelError(_) => None,
        }
    }
}

} // verus!
