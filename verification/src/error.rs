//! The errors that handle and invoker operations report.

use vstd::prelude::*;

verus! {

/// Why an operation on a module handle failed.
///
/// The variants that stem from the platform's loader carry the loader's own
/// description of the failure.
#[derive(Debug, PartialEq, Eq)]
pub enum LibraryError {
    /// The module could not be mapped into the process.
    Load(String),
    /// The lock that guards a shared handle is poisoned: a holder panicked
    /// while it had the lock.
    Lock,
    /// No module is held: it was never loaded, or it was unloaded already.
    NotLoaded,
    /// The entry point is not exported by the held module.
    SymbolNotFound(String),
    /// The platform failed to release the module. The handle has let go of it
    /// all the same.
    Unload(String),
    /// The callback bridge could not hand the payload on.
    CallbackChannel,
}

/// Whether `text` is the loader's own description of `cause`.
pub open spec fn describes(cause: libloading::Error, text: String) -> bool {
    vstd::string::to_string_from_display_ensures::<libloading::Error>(&cause, text)
}

impl LibraryError {
    /// The error for a module that the loader could not map, with the
    /// loader's description of why.
    pub fn load_failed(cause: &libloading::Error) -> (error: LibraryError)
        ensures
            error matches LibraryError::Load(detail) && describes(*cause, detail),
    {
        LibraryError::Load(cause.to_string())
    }

    /// The error for an entry point that the loader could not resolve, with
    /// the loader's description of why.
    pub fn symbol_missing(cause: &libloading::Error) -> (error: LibraryError)
        ensures
            error matches LibraryError::SymbolNotFound(detail) && describes(*cause, detail),
    {
        LibraryError::SymbolNotFound(cause.to_string())
    }

    /// The error for a module that the platform failed to release, with the
    /// loader's description of why.
    pub fn unload_failed(cause: &libloading::Error) -> (error: LibraryError)
        ensures
            error matches LibraryError::Unload(detail) && describes(*cause, detail),
    {
        LibraryError::Unload(cause.to_string())
    }

    /// The text of a human-readable message for this error.
    pub open spec fn message_text(self) -> Seq<char> {
        match self {
            LibraryError::Load(detail) => detail@,
            LibraryError::Lock => "lock error"@,
            LibraryError::NotLoaded => "library not loaded"@,
            LibraryError::SymbolNotFound(detail) => detail@,
            LibraryError::Unload(detail) => detail@,
            LibraryError::CallbackChannel => "callback channel unavailable"@,
        }
    }

    /// A human-readable message for this error.
    pub fn message(&self) -> (text: String)
        ensures
            text@ == self.message_text(),
    {
        match self {
            LibraryError::Load(detail) => detail.clone(),
            LibraryError::Lock => "lock error".to_owned(),
            LibraryError::NotLoaded => "library not loaded".to_owned(),
            LibraryError::SymbolNotFound(detail) => detail.clone(),
            LibraryError::Unload(detail) => detail.clone(),
            LibraryError::CallbackChannel => "callback channel unavailable".to_owned(),
        }
    }
}

} // verus!
