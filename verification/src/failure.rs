//! The failures a caller can be handed, by kind.

use vstd::prelude::*;
use vstd::string::StringExecFns;

verus! {

/// The setting that a configuration failure is about.
#[derive(Clone, Copy, Debug, PartialEq, Eq, Structural)]
pub enum Setting {
    /// The model identifier names no model of the catalog.
    ModelIdentifier,
    /// The maximum sequence length is zero or negative.
    MaxLength,
    /// The batch size is zero or negative.
    BatchSize,
}

/// A failed construction or embedding, by kind. The text carried by a kind
/// says what went wrong, in the engine's words where the failure is the
/// engine's.
#[derive(Debug, PartialEq, Eq)]
pub enum EmbedError {
    /// A setting was rejected before any work started.
    Configuration(Setting),
    /// An artifact could not be fetched.
    Download(String),
    /// The cache could not be read or written.
    Storage(String),
    /// The weights or the tokenizer files could not be loaded.
    ModelLoad(String),
    /// A forward pass failed; the session stays usable.
    Inference(String),
}

impl EmbedError {
    /// The account of the failure for a reader: its kind, then what it is about.
    pub open spec fn text(self) -> Seq<char> {
        match self {
            EmbedError::Configuration(Setting::ModelIdentifier) => {
                "configuration: the model identifier is not in the catalog"@
            },
            EmbedError::Configuration(Setting::MaxLength) => {
                "configuration: the maximum length must be positive"@
            },
            EmbedError::Configuration(Setting::BatchSize) => {
                "configuration: the batch size must be positive"@
            },
            EmbedError::Download(detail) => "download: "@ + detail@,
            EmbedError::Storage(detail) => "storage: "@ + detail@,
            EmbedError::ModelLoad(detail) => "model load: "@ + detail@,
            EmbedError::Inference(detail) => "inference: "@ + detail@,
        }
    }

    /// The account of the failure for a reader.
    pub fn message(&self) -> (text: String)
        ensures
            text@ == self.text(),
    {
        match self {
            EmbedError::Configuration(Setting::ModelIdentifier) => {
                "configuration: the model identifier is not in the catalog".to_owned()
            },
            EmbedError::Configuration(Setting::MaxLength) => {
                "configuration: the maximum length must be positive".to_owned()
            },
            EmbedError::Configuration(Setting::BatchSize) => {
                "configuration: the batch size must be positive".to_owned()
            },
            EmbedError::Download(detail) => "download: ".to_owned().concat(detail.as_str()),
            EmbedError::Storage(detail) => "storage: ".to_owned().concat(detail.as_str()),
            EmbedError::ModelLoad(detail) => "model load: ".to_owned().concat(detail.as_str()),
            EmbedError::Inference(detail) => "inference: ".to_owned().concat(detail.as_str()),
        }
    }
}

/// What a failure to read or write was about, as far as the session tells
/// the kinds apart.
#[derive(Clone, Copy, Debug, PartialEq, Eq, Structural)]
pub enum IoKind {
    /// A file or directory was not there.
    NotFound,
    /// Access was not permitted.
    PermissionDenied,
    /// The remote refused the connection.
    ConnectionRefused,
    /// The remote reset the connection.
    ConnectionReset,
    /// The connection was ended on the remote's side.
    ConnectionAborted,
    /// There was no connection yet, or no longer.
    NotConnected,
    /// The other end of a pipe was closed.
    BrokenPipe,
    /// A read or write would have had to wait.
    WouldBlock,
    /// The time allowed for a read or write was over.
    TimedOut,
    /// The data ended before all of it was read.
    UnexpectedEof,
    /// What was read does not hold what it should.
    InvalidData,
    /// Any other kind.
    Other,
}

impl IoKind {
    /// Whether a failure of this kind lies in a connection rather than in a file.
    pub open spec fn in_transfer(self) -> bool {
        self is ConnectionRefused || self is ConnectionReset || self is ConnectionAborted
            || self is NotConnected || self is BrokenPipe || self is WouldBlock || self is TimedOut
            || self is UnexpectedEof
    }

    /// Whether a failure of this kind lies in a connection rather than in a file.
    pub fn is_in_transfer(self) -> (in_transfer: bool)
        ensures
            in_transfer == self.in_transfer(),
    {
        match self {
            IoKind::ConnectionRefused
            | IoKind::ConnectionReset
            | IoKind::ConnectionAborted
            | IoKind::NotConnected
            | IoKind::BrokenPipe
            | IoKind::WouldBlock
            | IoKind::TimedOut
            | IoKind::UnexpectedEof => true,
            _ => false,
        }
    }
}

/// What the model hub reported when an artifact could not be had.
#[derive(Clone, Copy, Debug, PartialEq, Eq, Structural)]
pub enum HubFault {
    /// A response lacked a header the hub client relies on.
    MissingHeader,
    /// A response header did not have the expected form.
    InvalidHeader,
    /// The request itself failed.
    Request,
    /// A length or range in a response was not a number.
    ParseInt,
    /// Reading from the remote or writing to the cache failed, in this way.
    Io(IoKind),
    /// A part of a file was tried too many times.
    TooManyRetries,
    /// The secure connection could not be set up.
    Tls,
    /// A partly downloaded file in the cache is damaged.
    InvalidResume,
    /// Another writer holds the lock of a cache entry.
    LockAcquisition,
}

impl HubFault {
    /// Whether the fault lies in the local cache rather than on the way to the
    /// hub. A failure to read or write lies in the cache unless its kind is
    /// one of a connection.
    pub open spec fn in_cache(self) -> bool {
        match self {
            HubFault::Io(kind) => !kind.in_transfer(),
            HubFault::InvalidResume | HubFault::LockAcquisition => true,
            _ => false,
        }
    }
}

/// What was found in the error that the engine gave when it could not build a
/// session: the fault of the hub if the error holds one, the kind of the
/// failure to read or write if it holds one outside the hub's, and its text.
#[derive(Debug, PartialEq, Eq)]
pub struct LoadFault {
    /// The fault of the hub, where the error holds one.
    pub hub: Option<HubFault>,
    /// The kind of the failure to read or write, where the error holds one
    /// that is not the hub's.
    pub io: Option<IoKind>,
    /// The text of the error with its causes.
    pub text: String,
}

/// The failure that a construction ends in, from what was found in the
/// engine's error: a fault of the hub is a storage failure when it lies in the
/// cache and a download failure otherwise; without one, a failure to read or
/// write is a storage failure unless the data read was invalid; everything
/// else means that the model could not be loaded.
pub open spec fn load_failure(hub: Option<HubFault>, io: Option<IoKind>, detail: String) -> EmbedError {
    match (hub, io) {
        (Some(fault), _) => if fault.in_cache() {
            EmbedError::Storage(detail)
        } else {
            EmbedError::Download(detail)
        },
        (None, Some(IoKind::InvalidData)) => EmbedError::ModelLoad(detail),
        (None, Some(_)) => EmbedError::Storage(detail),
        (None, None) => EmbedError::ModelLoad(detail),
    }
}

/// Names the failure of a construction, given what the engine's error holds:
/// the hub's fault if it has one, the kind of its failure to read or write if
/// it has one, and its text.
pub fn classify_load_failure(hub: Option<HubFault>, io: Option<IoKind>, detail: String) -> (failure:
    EmbedError)
    ensures
        failure == load_failure(hub, io, detail),
{
    match hub {
        Some(HubFault::Io(kind)) => if kind.is_in_transfer() {
            EmbedError::Download(detail)
        } else {
            EmbedError::Storage(detail)
        },
        Some(HubFault::InvalidResume) | Some(HubFault::LockAcquisition) => EmbedError::Storage(detail),
        Some(_) => EmbedError::Download(detail),
        None => match io {
            Some(IoKind::InvalidData) | None => EmbedError::ModelLoad(detail),
            Some(_) => EmbedError::Storage(detail),
        },
    }
}

} // verus!
