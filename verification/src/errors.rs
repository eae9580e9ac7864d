//! Error taxonomy.
//!
//! [`AppError`] carries the detailed failure; [`ErrorKind`] is its semantic
//! classification, which the UI uses to decide whether to retry
//! automatically, ask the user, or give up.

use vstd::prelude::*;

verus! {

/// Semantic classification of an error.
#[derive(Debug, Clone, Copy, PartialEq, Eq, Structural)]
pub enum ErrorKind {
    /// Can retry automatically (network hiccup, temporary lock).
    Transient,
    /// Don't retry — it won't help (disk full, corrupted file).
    Permanent,
    /// Needs user action (grant permission, authenticate).
    Permission,
    /// Resource doesn't exist.
    NotFound,
    /// Application logic error; shouldn't happen in normal use.
    InvalidState,
    /// Operation was cancelled by the user.
    Cancelled,
}

/// What the application reads from an operating-system I/O error: its kind,
/// reduced to the distinctions the classification below cares about.
#[derive(Debug, Clone, Copy, PartialEq, Eq, Structural)]
pub enum IoErrorKind {
    TimedOut,
    Interrupted,
    WouldBlock,
    PermissionDenied,
    NotFound,
    Other,
}

/// Application error with context.
#[derive(Debug, Clone)]
pub enum AppError {
    Io(IoErrorKind),
    NotFound(String),
    PathInvalid(String),
    AlreadyExists(String),
    PermissionDenied(String),
    PermissionRevoked(String),
    StorageFull,
    Network(String),
    ConnectionLost(String),
    Timeout,
    Transfer(String),
    ChecksumMismatch,
    InvalidState(String),
    Cancelled(String),
    Unknown(String),
}

/// The classification of each error.
pub open spec fn spec_kind(e: AppError) -> ErrorKind {
    match e {
        AppError::Network(_) => ErrorKind::Transient,
        AppError::ConnectionLost(_) => ErrorKind::Transient,
        AppError::Timeout => ErrorKind::Transient,
        AppError::Io(k) => match k {
            IoErrorKind::TimedOut => ErrorKind::Transient,
            IoErrorKind::Interrupted => ErrorKind::Transient,
            IoErrorKind::WouldBlock => ErrorKind::Transient,
            IoErrorKind::PermissionDenied => ErrorKind::Permission,
            IoErrorKind::NotFound => ErrorKind::NotFound,
            IoErrorKind::Other => ErrorKind::Permanent,
        },
        AppError::PermissionDenied(_) => ErrorKind::Permission,
        AppError::PermissionRevoked(_) => ErrorKind::Permission,
        AppError::NotFound(_) => ErrorKind::NotFound,
        AppError::Cancelled(_) => ErrorKind::Cancelled,
        AppError::InvalidState(_) => ErrorKind::InvalidState,
        AppError::PathInvalid(_) => ErrorKind::InvalidState,
        AppError::StorageFull => ErrorKind::Permanent,
        AppError::AlreadyExists(_) => ErrorKind::Permanent,
        AppError::ChecksumMismatch => ErrorKind::Permanent,
        AppError::Transfer(_) => ErrorKind::Permanent,
        AppError::Unknown(_) => ErrorKind::Permanent,
    }
}

impl AppError {
    /// The semantic kind of this error, for UI decision making.
    pub fn kind(&self) -> (k: ErrorKind)
        ensures
            k == spec_kind(*self),
    {
        match self {
            AppError::Network(_) => ErrorKind::Transient,
            AppError::ConnectionLost(_) => ErrorKind::Transient,
            AppError::Timeout => ErrorKind::Transient,
            AppError::Io(k) => match k {
                IoErrorKind::TimedOut => ErrorKind::Transient,
                IoErrorKind::Interrupted => ErrorKind::Transient,
                IoErrorKind::WouldBlock => ErrorKind::Transient,
                IoErrorKind::PermissionDenied => ErrorKind::Permission,
                IoErrorKind::NotFound => ErrorKind::NotFound,
                IoErrorKind::Other => ErrorKind::Permanent,
            },
            AppError::PermissionDenied(_) => ErrorKind::Permission,
            AppError::PermissionRevoked(_) => ErrorKind::Permission,
            AppError::NotFound(_) => ErrorKind::NotFound,
            AppError::Cancelled(_) => ErrorKind::Cancelled,
            AppError::InvalidState(_) => ErrorKind::InvalidState,
            AppError::PathInvalid(_) => ErrorKind::InvalidState,
            AppError::StorageFull => ErrorKind::Permanent,
            AppError::AlreadyExists(_) => ErrorKind::Permanent,
            AppError::ChecksumMismatch => ErrorKind::Permanent,
            AppError::Transfer(_) => ErrorKind::Permanent,
            AppError::Unknown(_) => ErrorKind::Permanent,
        }
    }

    /// Whether the error is worth retrying automatically: exactly the
    /// transient ones.
    pub fn is_retryable(&self) -> (r: bool)
        ensures
            r == (spec_kind(*self) == ErrorKind::Transient),
    {
        self.kind() == ErrorKind::Transient
    }

    /// Whether the error needs the user to act before a retry could help.
    pub fn needs_user_action(&self) -> (r: bool)
        ensures
            r == (spec_kind(*self) == ErrorKind::Permission || spec_kind(*self)
                == ErrorKind::NotFound),
    {
        let k = self.kind();
        k == ErrorKind::Permission || k == ErrorKind::NotFound
    }

    /// Alias for [`Self::needs_user_action`], matching a common naming
    /// convention.
    pub fn is_user_action_required(&self) -> (r: bool)
        ensures
            r == (spec_kind(*self) == ErrorKind::Permission || spec_kind(*self)
                == ErrorKind::NotFound),
    {
        self.needs_user_action()
    }
}

} // verus!
