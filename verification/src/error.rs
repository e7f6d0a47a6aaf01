//! Errors of the emulator handle.

use vstd::prelude::*;

verus! {

/// Errors that can occur when using the GBA core.
#[derive(Debug, Clone, Copy, PartialEq, Eq, Structural)]
#[non_exhaustive]
pub enum CoreError {
    /// Failed to allocate the GBA core.
    CreateFailed,
    /// Core initialization returned false.
    InitFailed,
    /// The provided path is not valid UTF-8 or contains a null byte.
    InvalidPath,
    /// libmgba could not load the ROM file.
    RomLoadFailed,
    /// A required vtable function pointer was null.
    MissingFunction,
}

/// The human-readable message of an error.
pub open spec fn error_message(e: CoreError) -> Seq<char> {
    match e {
        CoreError::CreateFailed => "failed to create GBA core"@,
        CoreError::InitFailed => "failed to initialize GBA core"@,
        CoreError::InvalidPath => "invalid ROM path"@,
        CoreError::RomLoadFailed => "failed to load ROM"@,
        CoreError::MissingFunction => "missing core vtable function"@,
    }
}

impl CoreError {
    /// The human-readable message of this error.
    pub fn message(self) -> (s: &'static str)
        ensures
            s@ == error_message(self),
            self == CoreError::CreateFailed ==> s@ == "failed to create GBA core"@,
            self == CoreError::InitFailed ==> s@ == "failed to initialize GBA core"@,
            self == CoreError::InvalidPath ==> s@ == "invalid ROM path"@,
            self == CoreError::RomLoadFailed ==> s@ == "failed to load ROM"@,
            self == CoreError::MissingFunction ==> s@ == "missing core vtable function"@,
    {
        match self {
            CoreError::CreateFailed => "failed to create GBA core",
            CoreError::InitFailed => "failed to initialize GBA core",
            CoreError::InvalidPath => "invalid ROM path",
            CoreError::RomLoadFailed => "failed to load ROM",
            CoreError::MissingFunction => "missing core vtable function",
        }
    }
}

} // verus!
