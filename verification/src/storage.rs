//! Storage failures.

use vstd::prelude::*;

verus! {

/// What kind of failure it is, as the operating system tells them apart. A failure that is handed
/// on keeps its kind.
#[derive(Debug, Clone, Copy, PartialEq, Eq, Structural)]
pub enum ErrorKind {
    NotFound,
    PermissionDenied,
    ConnectionRefused,
    ConnectionReset,
    HostUnreachable,
    NetworkUnreachable,
    ConnectionAborted,
    NotConnected,
    AddrInUse,
    AddrNotAvailable,
    NetworkDown,
    BrokenPipe,
    AlreadyExists,
    WouldBlock,
    NotADirectory,
    IsADirectory,
    DirectoryNotEmpty,
    ReadOnlyFilesystem,
    StaleNetworkFileHandle,
    InvalidInput,
    InvalidData,
    TimedOut,
    WriteZero,
    StorageFull,
    NotSeekable,
    QuotaExceeded,
    FileTooLarge,
    ResourceBusy,
    ExecutableFileBusy,
    Deadlock,
    CrossesDevices,
    TooManyLinks,
    InvalidFilename,
    ArgumentListTooLong,
    Interrupted,
    Unsupported,
    UnexpectedEof,
    OutOfMemory,
    Other,
    /// A kind without a name of its own, by the operating system's code.
    Coded { code: i32 },
}

/// Kind and message of a failure.
#[verifier::ext_equal]
pub struct StorageErrorView {
    pub kind: ErrorKind,
    pub message: Seq<char>,
}

/// A failed storage operation.
#[derive(Debug, Clone, PartialEq, Eq)]
pub struct StorageError {
    pub kind: ErrorKind,
    pub message: String,
}

impl View for StorageError {
    type V = StorageErrorView;

    open spec fn view(&self) -> StorageErrorView {
        StorageErrorView { kind: self.kind, message: self.message@ }
    }
}

/// A failure of `kind` with `message`.
pub open spec fn failure(kind: ErrorKind, message: Seq<char>) -> StorageErrorView {
    StorageErrorView { kind, message }
}

/// Stored data that is not as it should be.
pub open spec fn invalid_data(message: Seq<char>) -> StorageErrorView {
    failure(ErrorKind::InvalidData, message)
}

/// A failure of `kind` with `message`.
pub fn fail(kind: ErrorKind, message: &str) -> (error: StorageError)
    ensures
        error@ == failure(kind, message@),
{
    StorageError { kind, message: message.to_owned() }
}

/// Stored data that is not as it should be.
pub fn invalid(message: &str) -> (error: StorageError)
    ensures
        error@ == invalid_data(message@),
{
    fail(ErrorKind::InvalidData, message)
}

/// A failure outside the storage itself.
pub fn other(message: String) -> (error: StorageError)
    ensures
        error@ == failure(ErrorKind::Other, message@),
{
    StorageError { kind: ErrorKind::Other, message }
}

/// What a result says, its value and its failure by their views.
pub open spec fn result_view<T: View>(result: Result<T, StorageError>) -> Result<
    T::V,
    StorageErrorView,
> {
    match result {
        Ok(value) => Ok(value@),
        Err(error) => Err(error@),
    }
}

/// What is reported of a result is the result: a value as its view, and a failure with its own kind
/// and message.
pub proof fn law_results_are_reported_as_they_are<T: View>(result: Result<T, StorageError>)
    ensures
        result_view(result) is Ok <==> result is Ok,
        result is Ok ==> result_view(result)->Ok_0 == result->Ok_0@,
        result is Err ==> result_view(result)->Err_0.kind == result->Err_0.kind
            && result_view(result)->Err_0.message == result->Err_0.message@,
{
}

/// Failures are made with the kind and the message that they are made for.
pub proof fn law_failures_carry_their_kind_and_message(
    kind: ErrorKind,
    message: &str,
    text: String,
    failed: StorageError,
    broken: StorageError,
    wrapped: StorageError,
)
    requires
        call_ensures(fail, (kind, message), failed),
        call_ensures(invalid, (message,), broken),
        call_ensures(other, (text,), wrapped),
    ensures
        failed.kind == kind && failed.message@ == message@,
        broken.kind is InvalidData && broken.message@ == message@,
        wrapped.kind is Other && wrapped.message@ == text@,
{
}

} // verus!
