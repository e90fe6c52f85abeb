//! The typed error of every queue operation, and how a kernel error code is
//! sorted into it.

use vstd::prelude::*;

verus! {

// Kernel error codes, with their Linux values.
pub const EPERM: i32 = 1;
pub const ENOENT: i32 = 2;
pub const EBADF: i32 = 9;
pub const EAGAIN: i32 = 11;
pub const ENOMEM: i32 = 12;
pub const EACCES: i32 = 13;
pub const EEXIST: i32 = 17;
pub const EINVAL: i32 = 22;
pub const ENFILE: i32 = 23;
pub const EMFILE: i32 = 24;
pub const ENOSPC: i32 = 28;
pub const ENAMETOOLONG: i32 = 36;
pub const EMSGSIZE: i32 = 90;

/// The queue operation during which an error arose. One kernel code can mean
/// different things to different operations.
#[derive(Clone, Copy, Debug, PartialEq, Eq, Hash, Structural)]
pub enum Operation {
    Open,
    Unlink,
    Close,
    Send,
    Receive,
    GetAttr,
    SetAttr,
}

/// What went wrong, independent of the kernel's numbering.
#[derive(Clone, Copy, Debug, PartialEq, Eq, Hash, Structural)]
pub enum ErrorKind {
    /// The name was opened without asking for creation and does not exist.
    NotFound,
    /// Exclusive creation met a name that exists already.
    AlreadyExists,
    /// A non-blocking operation could not complete at once.
    WouldBlock,
    /// The payload is larger than the queue's message size.
    MessageTooLarge,
    /// The receive buffer is smaller than the queue's message size.
    BufferTooSmall,
    /// The name is empty, holds a zero byte, or is too long.
    InvalidName,
    PermissionDenied,
    ResourceExhausted,
    /// Any other kernel error, with its code.
    Other(i32),
}

/// The error of a queue operation: its kind and the kernel's code.
#[derive(Clone, Copy, Debug, PartialEq, Eq, Hash, Structural)]
pub struct QueueError {
    pub kind: ErrorKind,
    pub raw_code: i32,
}

/// The kind that a kernel code has when it comes out of `op`.
pub open spec fn kind_of(op: Operation, raw_code: i32) -> ErrorKind {
    if raw_code == EAGAIN {
        ErrorKind::WouldBlock
    } else if raw_code == ENOENT {
        ErrorKind::NotFound
    } else if raw_code == EEXIST {
        ErrorKind::AlreadyExists
    } else if raw_code == EMSGSIZE && op == Operation::Send {
        ErrorKind::MessageTooLarge
    } else if raw_code == EMSGSIZE && op == Operation::Receive {
        ErrorKind::BufferTooSmall
    } else if raw_code == ENAMETOOLONG && (op == Operation::Open || op == Operation::Unlink) {
        ErrorKind::InvalidName
    } else if raw_code == EACCES || raw_code == EPERM {
        ErrorKind::PermissionDenied
    } else if raw_code == EMFILE || raw_code == ENFILE || raw_code == ENOMEM || raw_code
        == ENOSPC {
        ErrorKind::ResourceExhausted
    } else {
        ErrorKind::Other(raw_code)
    }
}

impl QueueError {
    /// An error is well formed when a catch-all kind repeats the raw code.
    pub open spec fn wf(&self) -> bool {
        match self.kind {
            ErrorKind::Other(code) => code == self.raw_code,
            _ => true,
        }
    }

    pub open spec fn spec_from_errno(op: Operation, raw_code: i32) -> QueueError {
        QueueError { kind: kind_of(op, raw_code), raw_code }
    }

    /// The error that stands for the kernel code `raw_code` coming out of
    /// `op`. The code is kept as it is; the kind is `kind_of(op, raw_code)`.
    pub fn from_errno(op: Operation, raw_code: i32) -> (err: QueueError)
        ensures
            err == Self::spec_from_errno(op, raw_code),
            err.wf(),
    {
        let kind = if raw_code == EAGAIN {
            ErrorKind::WouldBlock
        } else if raw_code == ENOENT {
            ErrorKind::NotFound
        } else if raw_code == EEXIST {
            ErrorKind::AlreadyExists
        } else if raw_code == EMSGSIZE && matches!(op, Operation::Send) {
            ErrorKind::MessageTooLarge
        } else if raw_code == EMSGSIZE && matches!(op, Operation::Receive) {
            ErrorKind::BufferTooSmall
        } else if raw_code == ENAMETOOLONG && matches!(op, Operation::Open | Operation::Unlink) {
            ErrorKind::InvalidName
        } else if raw_code == EACCES || raw_code == EPERM {
            ErrorKind::PermissionDenied
        } else if raw_code == EMFILE || raw_code == ENFILE || raw_code == ENOMEM || raw_code
            == ENOSPC {
            ErrorKind::ResourceExhausted
        } else {
            ErrorKind::Other(raw_code)
        };
        QueueError { kind, raw_code }
    }

    /// The error of a name that is rejected before the kernel sees it.
    pub open spec fn spec_invalid_name() -> QueueError {
        QueueError { kind: ErrorKind::InvalidName, raw_code: EINVAL }
    }

    pub fn invalid_name() -> (err: QueueError)
        ensures
            err == Self::spec_invalid_name(),
    {
        QueueError { kind: ErrorKind::InvalidName, raw_code: EINVAL }
    }

    pub fn kind(&self) -> (kind: ErrorKind)
        ensures
            kind == self.kind,
    {
        self.kind
    }

    pub fn raw_code(&self) -> (raw_code: i32)
        ensures
            raw_code == self.raw_code,
    {
        self.raw_code
    }

    pub open spec fn spec_is_would_block(&self) -> bool {
        self.kind == ErrorKind::WouldBlock
    }

    /// Whether the operation only failed for want of readiness.
    pub fn is_would_block(&self) -> (would_block: bool)
        ensures
            would_block == self.spec_is_would_block(),
    {
        matches!(self.kind, ErrorKind::WouldBlock)
    }
}

/// A kernel code is sorted as would-block exactly when it is `EAGAIN`,
/// whatever the operation.
pub proof fn lemma_would_block_iff_eagain(op: Operation, raw_code: i32)
    ensures
        QueueError::spec_from_errno(op, raw_code).spec_is_would_block() <==> raw_code == EAGAIN,
{
}

} // verus!
