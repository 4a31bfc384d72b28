use vstd::prelude::*;
use crate::error::Error;
use vstd::string::StringExecFns;

verus! {

/// An error of an OpenGL surface, such as an invalid or lost context.
#[derive(Debug)]
pub enum SurfaceError {
    /// The surface has no valid OpenGL context, or the context was lost.
    InvalidContext,
    /// An internal error.
    Internal(String),
}

/// The kind of a message sent to the OpenGL debug callback.
#[derive(Debug, Clone, Copy, PartialEq, Eq, Hash, Structural)]
pub enum DebugMessage {
    /// An error.
    Error,
    /// Deprecated functionality was used.
    Deprecated,
    /// Undefined behavior was detected.
    UndefinedBehavior,
    /// A performance issue.
    Performance,
    /// A portability issue.
    Portability,
    /// A marker in the command stream.
    Marker,
    /// Any other message.
    Other,
}

/// `GL_DEBUG_TYPE_ERROR`.
pub const DEBUG_TYPE_ERROR: u32 = 0x824C;
/// `GL_DEBUG_TYPE_DEPRECATED_BEHAVIOR`.
pub const DEBUG_TYPE_DEPRECATED_BEHAVIOR: u32 = 0x824D;
/// `GL_DEBUG_TYPE_UNDEFINED_BEHAVIOR`.
pub const DEBUG_TYPE_UNDEFINED_BEHAVIOR: u32 = 0x824E;
/// `GL_DEBUG_TYPE_PORTABILITY`.
pub const DEBUG_TYPE_PORTABILITY: u32 = 0x824F;
/// `GL_DEBUG_TYPE_PERFORMANCE`.
pub const DEBUG_TYPE_PERFORMANCE: u32 = 0x8250;
/// `GL_DEBUG_TYPE_MARKER`.
pub const DEBUG_TYPE_MARKER: u32 = 0x8268;

/// The kind of a debug message of the given `GL_DEBUG_TYPE_*` type; a type without a
/// kind of its own (other, push and pop group) is `Other`.
pub open spec fn spec_debug_message_kind(gl_type: u32) -> DebugMessage {
    if gl_type == DEBUG_TYPE_ERROR {
        DebugMessage::Error
    } else if gl_type == DEBUG_TYPE_DEPRECATED_BEHAVIOR {
        DebugMessage::Deprecated
    } else if gl_type == DEBUG_TYPE_UNDEFINED_BEHAVIOR {
        DebugMessage::UndefinedBehavior
    } else if gl_type == DEBUG_TYPE_PORTABILITY {
        DebugMessage::Portability
    } else if gl_type == DEBUG_TYPE_PERFORMANCE {
        DebugMessage::Performance
    } else if gl_type == DEBUG_TYPE_MARKER {
        DebugMessage::Marker
    } else {
        DebugMessage::Other
    }
}

/// Classifies a message that the debug callback receives by its `GL_DEBUG_TYPE_*` type.
pub fn debug_message_kind(gl_type: u32) -> (r: DebugMessage)
    ensures
        r == spec_debug_message_kind(gl_type),
{
    if gl_type == DEBUG_TYPE_ERROR {
        DebugMessage::Error
    } else if gl_type == DEBUG_TYPE_DEPRECATED_BEHAVIOR {
        DebugMessage::Deprecated
    } else if gl_type == DEBUG_TYPE_UNDEFINED_BEHAVIOR {
        DebugMessage::UndefinedBehavior
    } else if gl_type == DEBUG_TYPE_PORTABILITY {
        DebugMessage::Portability
    } else if gl_type == DEBUG_TYPE_PERFORMANCE {
        DebugMessage::Performance
    } else if gl_type == DEBUG_TYPE_MARKER {
        DebugMessage::Marker
    } else {
        DebugMessage::Other
    }
}

impl SurfaceError {
    /// The message that describes the error.
    pub open spec fn spec_message(&self) -> Seq<char> {
        match self {
            SurfaceError::InvalidContext => "invalid opengl context"@,
            SurfaceError::Internal(msg) => msg@,
        }
    }

    /// Describes the error in words.
    pub fn message(&self) -> (r: String)
        ensures
            r@ == self.spec_message(),
    {
        match self {
            SurfaceError::InvalidContext => String::from_str("invalid opengl context"),
            SurfaceError::Internal(msg) => String::from_str(msg.as_str()),
        }
    }
}

/// The error of a context that a surface error becomes.
pub open spec fn spec_surface_error(value: SurfaceError) -> Error {
    match value {
        SurfaceError::InvalidContext => Error::InvalidContext,
        SurfaceError::Internal(msg) => Error::Internal(msg),
    }
}

impl From<SurfaceError> for Error {
    /// A lost or invalid context is an invalid context; an internal error stays internal
    /// with its message.
    fn from(value: SurfaceError) -> (r: Self) {
        match value {
            SurfaceError::InvalidContext => Error::InvalidContext,
            SurfaceError::Internal(msg) => Error::Internal(msg),
        }
    }
}

impl vstd::std_specs::convert::FromSpecImpl<SurfaceError> for Error {
    open spec fn obeys_from_spec() -> bool {
        true
    }

    open spec fn from_spec(value: SurfaceError) -> Self {
        spec_surface_error(value)
    }
}


/// A function address is usable: not one of the small or all-ones values that loaders
/// return for missing functions.
pub open spec fn spec_address_usable(addr: usize) -> bool {
    addr >= 8 && addr != usize::MAX
}

/// Whether a function address that a loader returned is usable.
pub fn address_usable(addr: usize) -> (r: bool)
    ensures
        r == spec_address_usable(addr),
{
    addr >= 8 && addr != usize::MAX
}


/// Law: a loader address is usable exactly when it is neither one of the values 0 to 7
/// nor all ones, which loaders return for a missing function.
pub proof fn law_usable_addresses(addr: usize)
    ensures
        spec_address_usable(addr) <==> (addr > 7 && addr != usize::MAX),
{
}

} // verus!
