//! The failures that the bridge reports, and the host failures it reads.

use vstd::prelude::*;

verus! {

/// What the bridge reads of a host failure's cause.
#[derive(Debug, Clone, Copy, PartialEq, Eq, Structural)]
pub enum HostErrorKind {
    /// The path does not exist.
    NotFound,
    /// The path exists already.
    AlreadyExists,
    /// Any other cause.
    Other,
}

/// A failure reported by the host namespace or by an open storage resource.
#[derive(Debug, Clone, PartialEq, Eq)]
pub struct HostError {
    pub kind: HostErrorKind,
    /// The host's diagnostic text, passed through untouched.
    pub detail: String,
}

/// A failure of a bridge operation.
#[derive(Debug, Clone, PartialEq, Eq)]
pub enum FsError {
    /// The identifier is unknown or was closed.
    InvalidHandle,
    /// The path does not exist.
    NotFound,
    /// The path exists already.
    AlreadyExists,
    /// The host could not open the path.
    OpenFailed { detail: String },
    /// Any other host failure.
    IoFailure { detail: String },
}

/// The namespace operations, which differ in the failures they may report.
#[derive(Debug, Clone, Copy, PartialEq, Eq, Structural)]
pub enum NamespaceOp {
    Stat,
    Mkdir,
    Unlink,
    Rmdir,
    Rename,
    Readdir,
    Exists,
}

impl NamespaceOp {
    /// Whether the operation reports an absent path as `NotFound`.
    pub open spec fn reports_not_found(self) -> bool {
        self != NamespaceOp::Mkdir && self != NamespaceOp::Exists
    }

    /// Whether the operation reports a present path as `AlreadyExists`.
    pub open spec fn reports_already_exists(self) -> bool {
        self == NamespaceOp::Mkdir
    }
}

/// The failure of an `open` whose host call failed with `e`.
pub open spec fn open_failure(e: HostError) -> FsError {
    match e.kind {
        HostErrorKind::NotFound => FsError::NotFound,
        _ => FsError::OpenFailed { detail: e.detail },
    }
}

/// The failure of a read, write, size query or flush whose host call failed
/// with `e`.
pub open spec fn io_failure(e: HostError) -> FsError {
    FsError::IoFailure { detail: e.detail }
}

/// The failure of the namespace operation `op` whose host call failed with `e`.
pub open spec fn namespace_failure(op: NamespaceOp, e: HostError) -> FsError {
    if e.kind == HostErrorKind::NotFound && op.reports_not_found() {
        FsError::NotFound
    } else if e.kind == HostErrorKind::AlreadyExists && op.reports_already_exists() {
        FsError::AlreadyExists
    } else {
        FsError::IoFailure { detail: e.detail }
    }
}

impl FsError {
    /// The text of a failure: the host's diagnostic where there is one, and
    /// a fixed phrase for each of the others.
    pub open spec fn text(self) -> Seq<char> {
        match self {
            FsError::InvalidHandle => "Invalid FID"@,
            FsError::NotFound => "Not found"@,
            FsError::AlreadyExists => "Already exists"@,
            FsError::OpenFailed { detail } => detail@,
            FsError::IoFailure { detail } => detail@,
        }
    }

    /// The failure as text, for a caller that reports failures as strings.
    pub fn message(&self) -> (m: String)
        ensures
            m@ == self.text(),
    {
        match self {
            FsError::InvalidHandle => "Invalid FID".to_string(),
            FsError::NotFound => "Not found".to_string(),
            FsError::AlreadyExists => "Already exists".to_string(),
            FsError::OpenFailed { detail } => detail.clone(),
            FsError::IoFailure { detail } => detail.clone(),
        }
    }

    /// Maps the failure of a host open.
    pub fn from_open(e: HostError) -> (r: FsError)
        ensures
            r == open_failure(e),
    {
        match e.kind {
            HostErrorKind::NotFound => FsError::NotFound,
            _ => FsError::OpenFailed { detail: e.detail },
        }
    }

    /// Maps the failure of a host call on an open storage resource.
    pub fn from_io(e: HostError) -> (r: FsError)
        ensures
            r == io_failure(e),
    {
        FsError::IoFailure { detail: e.detail }
    }

    /// Maps the failure of a host namespace call.
    pub fn from_namespace(op: NamespaceOp, e: HostError) -> (r: FsError)
        ensures
            r == namespace_failure(op, e),
    {
        let absent = match op {
            NamespaceOp::Mkdir => false,
            NamespaceOp::Exists => false,
            _ => true,
        };
        let present = match op {
            NamespaceOp::Mkdir => true,
            _ => false,
        };
        match e.kind {
            HostErrorKind::NotFound => if absent {
                FsError::NotFound
            } else {
                FsError::IoFailure { detail: e.detail }
            },
            HostErrorKind::AlreadyExists => if present {
                FsError::AlreadyExists
            } else {
                FsError::IoFailure { detail: e.detail }
            },
            HostErrorKind::Other => FsError::IoFailure { detail: e.detail },
        }
    }
}

} // verus!
