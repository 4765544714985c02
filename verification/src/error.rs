//! The error taxonomy of the binding.  Every failure is terminal: a broken
//! graphics binding cannot be worked around, so no variant carries a retry
//! hint.

use vstd::prelude::*;

verus! {

/// A terminal failure of the binding layer.
#[derive(Debug, Clone, PartialEq, Eq)]
pub enum Error {
    /// No candidate library name could be opened.
    LoadError,
    /// A required function name resolved to a null pointer.
    SymbolNotFound,
    /// The display system handed back a null connection handle.
    DisplayUnavailable,
    /// The display connection could not be initialized.
    InitializeFailed,
    /// No frame-buffer configuration matched the requested attributes.
    NoMatchingConfig,
    /// The client rendering API could not be selected.
    ApiBindFailed,
    /// The rendering context came back null.
    ContextCreationFailed,
    /// The chosen configuration reported no native visual identifier.
    VisualUnavailable,
    /// The window surface came back null, or the chosen on-screen format
    /// could not be applied to the window.
    SurfaceBindFailed,
    /// The (surface, context) pair could not be made current.
    MakeCurrentFailed,
    /// A bootstrap step was attempted out of order.
    PhaseOrder,
    /// A shader stage was rejected; carries the compiler's diagnostic text.
    ShaderCompileError(Vec<u8>),
    /// A named parameter slot does not exist in the program (legacy path).
    LookupError,
    /// An identifier reported as freshly generated is already tracked as a
    /// live object; an object may be shared only by duplicating a handle.
    AlreadyLive,
    /// The object behind a handle is no longer tracked as live, or its
    /// share count cannot be raised further.
    NotLive,
}

/// A fault category reported by the underlying API's error state, as read
/// back by the optional validation path.
#[derive(Debug, Clone, Copy, PartialEq, Eq, Structural)]
pub enum ApiFault {
    InvalidEnum,
    InvalidValue,
    InvalidOperation,
    StackOverflow,
    StackUnderflow,
    OutOfMemory,
    Unknown,
}

/// The category that a raw error code of the underlying API falls under.
/// Zero means no error; every other value is a fault.
pub open spec fn fault_of(code: u32) -> Option<ApiFault> {
    if code == 0 {
        None
    } else if code == 0x0500 {
        Some(ApiFault::InvalidEnum)
    } else if code == 0x0501 {
        Some(ApiFault::InvalidValue)
    } else if code == 0x0502 {
        Some(ApiFault::InvalidOperation)
    } else if code == 0x0503 {
        Some(ApiFault::StackOverflow)
    } else if code == 0x0504 {
        Some(ApiFault::StackUnderflow)
    } else if code == 0x0505 {
        Some(ApiFault::OutOfMemory)
    } else {
        Some(ApiFault::Unknown)
    }
}

/// Converts a raw error code read from the underlying API's error state into
/// its fault category.  Returns `None` exactly when the code reports no
/// error.
pub fn error_category(code: u32) -> (r: Option<ApiFault>)
    ensures
        r == fault_of(code),
{
    if code == 0 {
        None
    } else if code == 0x0500 {
        Some(ApiFault::InvalidEnum)
    } else if code == 0x0501 {
        Some(ApiFault::InvalidValue)
    } else if code == 0x0502 {
        Some(ApiFault::InvalidOperation)
    } else if code == 0x0503 {
        Some(ApiFault::StackOverflow)
    } else if code == 0x0504 {
        Some(ApiFault::StackUnderflow)
    } else if code == 0x0505 {
        Some(ApiFault::OutOfMemory)
    } else {
        Some(ApiFault::Unknown)
    }
}

} // verus!
