use vstd::prelude::*;
use crate::shader::{CompileStage, ShaderFormat};
use vstd::string::StringExecFns;

verus! {

/// The capabilities of the GPU: supported features and resource limits.
#[derive(Debug, Clone, Copy)]
pub struct Capabilities {
    /// The shader format used by the backend.
    pub shader_format: ShaderFormat,
    /// Maximum width/height of a framebuffer.
    pub framebuffer_size: u32,
    /// Maximum MSAA sample count of a framebuffer, 0 if MSAA is not supported.
    pub framebuffer_msaa: u32,
    /// Maximum number of color attachments of a framebuffer.
    pub framebuffer_outputs: u32,
    /// Maximum width/height of a texture.
    pub texture_size: u32,
    /// Maximum number of texture/framebuffer bindings per draw call.
    pub texture_bindings: u32,
    /// Maximum size in bytes of a uniform buffer.
    pub uniform_buffer_size: u64,
    /// Alignment in bytes of uniform buffer offsets.
    pub uniform_buffer_alignment: u32,
    /// Maximum number of uniform buffer bindings per draw call.
    pub uniform_buffer_bindings: u32,
    /// Maximum size in bytes of a storage buffer.
    pub storage_buffer_size: u64,
    /// Alignment in bytes of storage buffer offsets.
    pub storage_buffer_alignment: u32,
    /// Maximum number of storage buffer bindings per draw call.
    pub storage_buffer_bindings: u32,
}

/// The error of every operation of a context.
#[derive(Debug, Clone)]
#[non_exhaustive]
pub enum Error {
    /// The requested size is larger than what is supported.
    UnsupportedSize,
    /// The requested format is not supported.
    UnsupportedFormat,
    /// The requested feature is not supported.
    UnsupportedFeature,
    /// The pipeline binding with the given index is not supported.
    UnsupportedBinding(usize),
    /// A region is out of bounds for a resource, or the regions of a copy within one buffer
    /// overlap.
    InvalidBounds,
    /// The operation is not valid in the current state.
    InvalidOperation,
    /// A resource does not belong to this context.
    InvalidResource,
    /// The backend state is not a valid context.
    InvalidContext,
    /// The binding with the given index does not match the pipeline.
    BindingMismatch(usize, &'static str),
    /// The draw target is also bound as a resource.
    FramebufferInUse,
    /// Shader compilation failed in the given stage, with the given log.
    Compile(CompileStage, String),
    /// An internal error that is not the fault of the user.
    Internal(String),
}


/// The decimal digit `d` as a character.
pub open spec fn digit_char(d: nat) -> char {
    if d == 0 { '0' } else if d == 1 { '1' } else if d == 2 { '2' } else if d == 3 { '3' } else if d == 4 {
        '4'
    } else if d == 5 { '5' } else if d == 6 { '6' } else if d == 7 { '7' } else if d == 8 { '8' } else {
        '9'
    }
}

/// The decimal representation of `n`, without leading zeros.
pub open spec fn decimal(n: nat) -> Seq<char>
    decreases n,
{
    if n < 10 {
        seq![digit_char(n)]
    } else {
        decimal(n / 10) + seq![digit_char(n % 10)]
    }
}

fn digit_str(d: usize) -> (r: &'static str)
    requires
        d < 10,
    ensures
        r@ == seq![digit_char(d as nat)],
{
    if d == 0 {
        proof { reveal_strlit("0"); }
        "0"
    } else if d == 1 {
        proof { reveal_strlit("1"); }
        "1"
    } else if d == 2 {
        proof { reveal_strlit("2"); }
        "2"
    } else if d == 3 {
        proof { reveal_strlit("3"); }
        "3"
    } else if d == 4 {
        proof { reveal_strlit("4"); }
        "4"
    } else if d == 5 {
        proof { reveal_strlit("5"); }
        "5"
    } else if d == 6 {
        proof { reveal_strlit("6"); }
        "6"
    } else if d == 7 {
        proof { reveal_strlit("7"); }
        "7"
    } else if d == 8 {
        proof { reveal_strlit("8"); }
        "8"
    } else {
        proof { reveal_strlit("9"); }
        "9"
    }
}

/// Writes `n` in decimal.
pub fn decimal_string(n: usize) -> (r: String)
    ensures
        r@ == decimal(n as nat),
    decreases n,
{
    if n < 10 {
        String::from_str(digit_str(n))
    } else {
        let mut s = decimal_string(n / 10);
        s.append(digit_str(n % 10));
        s
    }
}

impl Error {
    /// The message that describes the error.
    pub open spec fn spec_message(&self) -> Seq<char> {
        match self {
            Error::UnsupportedSize => "requested size is not supported by the backend"@,
            Error::UnsupportedFormat => "requested format is not supported by the backend"@,
            Error::UnsupportedFeature => "requested feature is not supported by the backend"@,
            Error::UnsupportedBinding(i) => "unsupported binding in pipeline (index "@ + decimal(*i as nat) + ")"@,
            Error::InvalidContext => "invalid context"@,
            Error::InvalidBounds => "invalid bounds for a resource update"@,
            Error::InvalidResource => "resource does not belong to this context"@,
            Error::InvalidOperation => "operation is not valid in the current state"@,
            Error::BindingMismatch(i, msg) => "binding does not match the pipeline (index "@ + decimal(*i as nat)
                + "): "@ + msg@,
            Error::FramebufferInUse => "framebuffer already in use"@,
            Error::Compile(CompileStage::Fragment, log) => "fragment shader compilation error: "@ + log@,
            Error::Compile(CompileStage::Vertex, log) => "vertex shader compilation error: "@ + log@,
            Error::Compile(CompileStage::Linking, log) => "shader linking error: "@ + log@,
            Error::Internal(msg) => "internal error: "@ + msg@,
        }
    }

    /// Describes the error in words.
    pub fn message(&self) -> (r: String)
        ensures
            r@ == self.spec_message(),
    {
        match self {
            Error::UnsupportedSize => String::from_str("requested size is not supported by the backend"),
            Error::UnsupportedFormat => String::from_str("requested format is not supported by the backend"),
            Error::UnsupportedFeature => String::from_str("requested feature is not supported by the backend"),
            Error::UnsupportedBinding(i) => {
                let mut s = String::from_str("unsupported binding in pipeline (index ");
                s.append(decimal_string(*i).as_str());
                s.append(")");
                s
            },
            Error::InvalidContext => String::from_str("invalid context"),
            Error::InvalidBounds => String::from_str("invalid bounds for a resource update"),
            Error::InvalidResource => String::from_str("resource does not belong to this context"),
            Error::InvalidOperation => String::from_str("operation is not valid in the current state"),
            Error::BindingMismatch(i, msg) => {
                let mut s = String::from_str("binding does not match the pipeline (index ");
                s.append(decimal_string(*i).as_str());
                s.append("): ");
                s.append(msg);
                s
            },
            Error::FramebufferInUse => String::from_str("framebuffer already in use"),
            Error::Compile(stage, log) => {
                let mut s = match stage {
                    CompileStage::Fragment => String::from_str("fragment shader compilation error: "),
                    CompileStage::Vertex => String::from_str("vertex shader compilation error: "),
                    CompileStage::Linking => String::from_str("shader linking error: "),
                };
                s.append(log.as_str());
                s
            },
            Error::Internal(msg) => {
                let mut s = String::from_str("internal error: ");
                s.append(msg.as_str());
                s
            },
        }
    }
}

} // verus!
