//! The uniform error taxonomy. Operation drivers translate backend-native
//! failures into these kinds and never leak a native representation past
//! the driver boundary.

use vstd::prelude::*;

verus! {

/// The uniform error kinds of the layer.
#[derive(Clone, Copy, Debug, PartialEq, Eq, Structural)]
pub enum ErrorKind {
    /// The target of the operation does not exist.
    NotFound,
    /// The target of a precondition write already exists.
    AlreadyExists,
    /// The backend refused access.
    PermissionDenied,
    /// The operation or operation variant is not in the effective capability.
    Unsupported,
    /// Malformed path or invalid range.
    InvalidInput,
    /// The operation was interrupted or cancelled by the caller.
    Cancelled,
    /// An opaque, wrapped native failure.
    Backend,
    /// Build-time configuration failure.
    Config,
}

impl ErrorKind {
    /// A short stable name for the kind, for diagnostics.
    pub fn name(&self) -> (r: &'static str) {
        match self {
            ErrorKind::NotFound => "NotFound",
            ErrorKind::AlreadyExists => "AlreadyExists",
            ErrorKind::PermissionDenied => "PermissionDenied",
            ErrorKind::Unsupported => "Unsupported",
            ErrorKind::InvalidInput => "InvalidInput",
            ErrorKind::Cancelled => "Cancelled",
            ErrorKind::Backend => "Backend",
            ErrorKind::Config => "Config",
        }
    }
}

} // verus!
