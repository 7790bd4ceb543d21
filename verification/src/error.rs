use vstd::prelude::*;

verus! {

/// The kinds of failure a vendoring run reports: the stable kinds of
/// `std::io::Error`, which the run produces or passes on; `Other` stands for
/// any kind not named here.
#[derive(Clone, Copy, Debug, PartialEq, Eq, Structural)]
pub enum ErrorKind {
    NotFound,
    PermissionDenied,
    ConnectionRefused,
    ConnectionReset,
    HostUnreachable,
    NetworkUnreachable,
    ConnectionAborted,
    NotConnected,
    AddrInUse,
    AddrNotAvailable,
    NetworkDown,
    BrokenPipe,
    AlreadyExists,
    WouldBlock,
    NotADirectory,
    IsADirectory,
    DirectoryNotEmpty,
    ReadOnlyFilesystem,
    StaleNetworkFileHandle,
    InvalidInput,
    InvalidData,
    TimedOut,
    WriteZero,
    StorageFull,
    NotSeekable,
    QuotaExceeded,
    FileTooLarge,
    ResourceBusy,
    ExecutableFileBusy,
    Deadlock,
    CrossesDevices,
    TooManyLinks,
    InvalidFilename,
    ArgumentListTooLong,
    Interrupted,
    Unsupported,
    UnexpectedEof,
    OutOfMemory,
    Other,
}

/// An error of a vendoring run: its kind and its message.
#[derive(Debug)]
pub struct VendorError {
    pub kind: ErrorKind,
    pub message: String,
}

/// The mathematical value of a [`VendorError`].
pub ghost struct ErrorModel {
    pub kind: ErrorKind,
    pub message: Seq<char>,
}

impl View for VendorError {
    type V = ErrorModel;

    open spec fn view(&self) -> ErrorModel {
        ErrorModel { kind: self.kind, message: self.message@ }
    }
}

impl VendorError {
    /// Builds an error of the given kind whose message is `message`.
    pub fn new(kind: ErrorKind, message: &str) -> (e: VendorError)
        ensures
            e@ == (ErrorModel { kind: kind, message: message@ }),
    {
        VendorError { kind, message: message.to_owned() }
    }

    /// A copy of this error.
    pub fn duplicate(&self) -> (e: VendorError)
        ensures
            e@ == self@,
    {
        VendorError { kind: self.kind, message: self.message.clone() }
    }
}

} // verus!
