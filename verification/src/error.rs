//! Error taxonomy of the engine.
//!
//! Authorization failures on explicit interactive paths are surfaced to
//! the caller; background paths degrade to "not authorized". Transfer
//! errors terminate a task as `Failed`. Persistence and protocol errors
//! belong to the unverified edges that read and write the outside world,
//! which report them with these same types.

use vstd::prelude::*;

verus! {

/// Failure of the access/refresh-token lifecycle.
#[derive(Clone, Copy, Debug, PartialEq, Eq, Structural)]
pub enum AuthError {
    /// A code or refresh exchange succeeded but handed back no refresh
    /// token; the account must support offline access.
    MissingRefreshToken,
    /// The code or refresh exchange itself failed.
    ExchangeFailed,
    /// Removing a user would leave no user to select as new current.
    NoUserLeft,
    /// The named user is not among the known users.
    UserNotFound,
}

/// Failure while resolving or moving a task's bytes.
#[derive(Clone, Copy, Debug, PartialEq, Eq, Structural)]
pub enum TransferError {
    /// The source response carries no Content-Length header.
    MissingContentLength,
    /// The Content-Length header does not parse as a decimal byte count.
    MalformedContentLength,
    /// The given address is not an http or https URL.
    NotHttpUrl,
    /// The chat media is not one of photo, document and sticker.
    UnsupportedMediaKind,
}

/// Refusal of a task-store operation; the store is left unchanged.
#[derive(Clone, Copy, Debug, PartialEq, Eq, Structural)]
pub enum StoreError {
    /// No task row carries the given id.
    TaskNotFound,
    /// The requested status change leaves the status state machine.
    InvalidTransition,
    /// The new progress offset is smaller than the recorded one.
    ProgressDecreased,
    /// The new progress offset exceeds the task's total length.
    ProgressBeyondTotal,
    /// A cancellation for the task's scope is in progress, so no task
    /// may be inserted for it.
    ScopeCancelling,
    /// A cancellation handle is already registered for the task id.
    HandleExists,
}

/// Failure of the stores that persist tasks and sessions. Raised by the
/// unverified persistence edge; always fatal to the operation in
/// progress.
#[derive(Clone, Copy, Debug, PartialEq, Eq, Structural)]
pub enum PersistenceError {
    ReadFailed,
    WriteFailed,
    NotFound,
}

/// An unexpected response shape from the chat or storage backend,
/// reported by the unverified edge that spoke to it.
#[derive(Clone, Copy, Debug, PartialEq, Eq, Structural)]
pub enum ProtocolError {
    UnexpectedResponse,
}

/// Any failure of the engine, by failure domain.
#[derive(Clone, Copy, Debug, PartialEq, Eq, Structural)]
pub enum EngineError {
    Auth(AuthError),
    Transfer(TransferError),
    Store(StoreError),
    Protocol(ProtocolError),
}

} // verus!
