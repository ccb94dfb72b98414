//! The platform's error kinds.

use vstd::prelude::*;

verus! {

/// Error kinds of K1 operations.
#[derive(Clone, Copy, Debug, PartialEq, Eq, Structural)]
pub enum K1Error {
    OutOfMemory,
    InvalidParameter,
    NotSupported,
    DeviceLost,
    SurfaceLost,
    ShaderCompileError,
    OutOfBounds,
    NotInitialized,
    AlreadyInitialized,
}

/// The human-readable text of an error kind.
pub open spec fn k1_error_text(e: K1Error) -> Seq<char> {
    match e {
        K1Error::OutOfMemory => "Out of memory"@,
        K1Error::InvalidParameter => "Invalid parameter"@,
        K1Error::NotSupported => "Not supported"@,
        K1Error::DeviceLost => "Device lost"@,
        K1Error::SurfaceLost => "Surface lost"@,
        K1Error::ShaderCompileError => "Shader compile error"@,
        K1Error::OutOfBounds => "Out of bounds"@,
        K1Error::NotInitialized => "Not initialized"@,
        K1Error::AlreadyInitialized => "Already initialized"@,
    }
}

impl K1Error {
    /// The human-readable text of this error, as it is displayed.
    pub fn message(&self) -> (s: &'static str)
        ensures
            s@ == k1_error_text(*self),
    {
        match self {
            K1Error::OutOfMemory => "Out of memory",
            K1Error::InvalidParameter => "Invalid parameter",
            K1Error::NotSupported => "Not supported",
            K1Error::DeviceLost => "Device lost",
            K1Error::SurfaceLost => "Surface lost",
            K1Error::ShaderCompileError => "Shader compile error",
            K1Error::OutOfBounds => "Out of bounds",
            K1Error::NotInitialized => "Not initialized",
            K1Error::AlreadyInitialized => "Already initialized",
        }
    }
}

} // verus!
