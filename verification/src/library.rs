//! The handle to a loaded module and its lifecycle.
//!
//! A [`DynamicLibrary`] holds at most one module. It starts out holding the
//! module that a load produced, gives it up exactly once, and is never
//! refilled.
//!
//! Queries, reads and invocations borrow the handle shared, so any number
//! of them may run side by side; unloading borrows it exclusively, so it
//! cannot run while one of them does, and none of them sees a module that
//! is on its way out. To share a handle between threads, a program keeps it
//! behind a reader-writer lock and calls each operation with what the lock
//! lends; a poisoned lock is then reported as [`LibraryError::Lock`].

use vstd::prelude::*;
use libloading::Library;
use crate::error::{describes, LibraryError};

verus! {

/// The name of the one entry point that a module is expected to export.
pub const ENTRY_POINT: &'static str = "async_process";

/// A handle to at most one loaded module.
pub struct DynamicLibrary {
    module: Option<Library>,
}

/// What a handle reports for the loader's verdict on releasing a module.
pub open spec fn release_report(
    verdict: Result<(), libloading::Error>,
    res: Result<(), LibraryError>,
) -> bool {
    match verdict {
        Ok(_) => res is Ok,
        Err(cause) => res matches Err(LibraryError::Unload(detail)) && describes(cause, detail),
    }
}

/// What a handle reports for the outcome of resolving and calling the entry
/// point.
pub open spec fn dispatch_report(
    outcome: Result<(), libloading::Error>,
    res: Result<(), LibraryError>,
) -> bool {
    match outcome {
        Ok(_) => res is Ok,
        Err(cause) => res matches Err(LibraryError::SymbolNotFound(detail)) && describes(
            cause,
            detail,
        ),
    }
}

/// Turns the loader's verdict on releasing a module into this library's
/// result.
pub fn released(verdict: Result<(), libloading::Error>) -> (res: Result<(), LibraryError>)
    ensures
        release_report(verdict, res),
{
    match verdict {
        Ok(_) => Ok(()),
        Err(cause) => Err(LibraryError::unload_failed(&cause)),
    }
}

/// Turns the outcome of resolving and calling the entry point into this
/// library's result.
pub fn dispatched(outcome: Result<(), libloading::Error>) -> (res: Result<(), LibraryError>)
    ensures
        dispatch_report(outcome, res),
{
    match outcome {
        Ok(_) => Ok(()),
        Err(cause) => Err(LibraryError::symbol_missing(&cause)),
    }
}

impl DynamicLibrary {
    /// The module that the handle holds, if it holds one.
    pub closed spec fn module(self) -> Option<Library> {
        self.module
    }

    /// Whether the handle holds a module.
    pub open spec fn loaded(self) -> bool {
        self.module() is Some
    }

    /// Making a handle from `outcome` gives `res`: a handle that holds the
    /// module that was loaded, or no handle and the loader's description of
    /// the failure.
    pub open spec fn loads(
        outcome: Result<Library, libloading::Error>,
        res: Result<DynamicLibrary, LibraryError>,
    ) -> bool {
        match outcome {
            Ok(module) => res matches Ok(handle) && handle.module() == Some(module),
            Err(cause) => res matches Err(LibraryError::Load(detail)) && describes(cause, detail),
        }
    }

    /// Unloading takes `self` to `post` and reports `res`: afterwards the
    /// handle is empty whatever happened; a handle that was empty before
    /// reports that nothing is loaded, and one that held a module reports
    /// what the loader said of its release.
    pub open spec fn unloads(self, post: DynamicLibrary, res: Result<(), LibraryError>) -> bool {
        &&& post.module() is None
        &&& match self.module() {
            Some(_) => exists|verdict: Result<(), libloading::Error>|
                #[trigger] release_report(verdict, res),
            None => res == Err::<(), LibraryError>(LibraryError::NotLoaded),
        }
    }

    /// Reading the handle through `f` gives `res`: what `f` returns on the
    /// held module, or the report that nothing is loaded.
    pub open spec fn reads<F, R>(self, f: F, res: Result<R, LibraryError>) -> bool where
        F: FnOnce(&Library) -> Result<R, LibraryError>,
     {
        match self.module() {
            Some(module) => f.ensures((&module,), res),
            None => res == Err::<R, LibraryError>(LibraryError::NotLoaded),
        }
    }

    /// Invoking the entry point through `dispatch` gives `res`: the report on
    /// what `dispatch` returns for the held module and the entry point's
    /// name, or the report that nothing is loaded.
    pub open spec fn invokes<F>(self, dispatch: F, res: Result<(), LibraryError>) -> bool where
        F: FnOnce(&Library, &str) -> Result<(), libloading::Error>,
     {
        match self.module() {
            Some(module) => exists|outcome: Result<(), libloading::Error>|
                dispatch.ensures((&module, ENTRY_POINT), outcome) && #[trigger] dispatch_report(
                    outcome,
                    res,
                ),
            None => res == Err::<(), LibraryError>(LibraryError::NotLoaded),
        }
    }

    /// A handle made from what an attempt to load a module produced: the
    /// handle holds the module if there is one, and there is no handle if
    /// there is none.
    pub fn new(outcome: Result<Library, libloading::Error>) -> (res: Result<Self, LibraryError>)
        ensures
            Self::loads(outcome, res),
    {
        match outcome {
            Ok(module) => Ok(DynamicLibrary { module: Some(module) }),
            Err(cause) => Err(LibraryError::load_failed(&cause)),
        }
    }

    /// Whether the handle holds a module.
    pub fn is_loaded(&self) -> (held: bool)
        ensures
            held == self.loaded(),
    {
        self.module.is_some()
    }

    /// Takes the module out of the handle and gives it back to the platform.
    /// The handle is empty afterwards, also where the platform refuses the
    /// release. An empty handle is an error.
    pub fn clear_lib(&mut self) -> (res: Result<(), LibraryError>)
        ensures
            old(self).unloads(*final(self), res),
    {
        match self.module.take() {
            Some(module) => {
                let verdict = module.close();
                released(verdict)
            },
            None => Err(LibraryError::NotLoaded),
        }
    }

    /// Lends the held module to `f` and returns what `f` returns. Nothing is
    /// asked of `f` where the handle is empty, for `f` is not called then.
    pub fn with_lib<F, R>(&self, f: F) -> (res: Result<R, LibraryError>) where
        F: FnOnce(&Library) -> Result<R, LibraryError>,

        requires
            self.module() matches Some(module) ==> f.requires((&module,)),
        ensures
            self.reads(f, res),
    {
        match &self.module {
            Some(module) => f(module),
            None => Err(LibraryError::NotLoaded),
        }
    }

    /// Hands the held module and the entry point's name to `dispatch`, which
    /// resolves the entry point and calls it, and reports a failure to
    /// resolve it as a missing symbol. Nothing is asked of `dispatch` where
    /// the handle is empty, for no native call is attempted then.
    pub fn callback<F>(&self, dispatch: F) -> (res: Result<(), LibraryError>) where
        F: FnOnce(&Library, &str) -> Result<(), libloading::Error>,

        requires
            self.module() matches Some(module) ==> dispatch.requires((&module, ENTRY_POINT)),
        ensures
            self.invokes(dispatch, res),
    {
        match &self.module {
            Some(module) => {
                let outcome = dispatch(module, ENTRY_POINT);
                dispatched(outcome)
            },
            None => Err(LibraryError::NotLoaded),
        }
    }
}

/// A load that produced a module gives a handle that reports itself loaded; a
/// load that failed gives a load error and no handle.
pub proof fn load_decides_handle(
    outcome: Result<Library, libloading::Error>,
    res: Result<DynamicLibrary, LibraryError>,
)
    requires
        DynamicLibrary::loads(outcome, res),
    ensures
        outcome is Ok ==> (res matches Ok(handle) && handle.loaded()),
        outcome is Err ==> res matches Err(LibraryError::Load(_)),
{
}

/// After a handle was unloaded it holds nothing, whether or not the platform
/// accepted the release; unloading it once more reports that nothing is
/// loaded and leaves it empty.
pub proof fn unload_happens_once(
    before: DynamicLibrary,
    between: DynamicLibrary,
    after: DynamicLibrary,
    first: Result<(), LibraryError>,
    second: Result<(), LibraryError>,
)
    requires
        before.unloads(between, first),
        between.unloads(after, second),
    ensures
        !between.loaded(),
        second == Err::<(), LibraryError>(LibraryError::NotLoaded),
        !after.loaded(),
{
}

/// A handle that held a module reports an unload as done or as a release
/// that the platform refused, never as a module that was not loaded, and
/// holds nothing afterwards.
pub proof fn unload_of_held_module(
    before: DynamicLibrary,
    after: DynamicLibrary,
    res: Result<(), LibraryError>,
)
    requires
        before.loaded(),
        before.unloads(after, res),
    ensures
        res is Ok || res matches Err(LibraryError::Unload(_)),
        !after.loaded(),
{
}

/// On an empty handle an invocation reports that nothing is loaded, whatever
/// the dispatcher would have done.
pub proof fn invoke_needs_module<F>(
    handle: DynamicLibrary,
    dispatch: F,
    res: Result<(), LibraryError>,
)
    where F: FnOnce(&Library, &str) -> Result<(), libloading::Error>
    requires
        !handle.loaded(),
        handle.invokes(dispatch, res),
    ensures
        res == Err::<(), LibraryError>(LibraryError::NotLoaded),
{
}

/// On an empty handle a read reports that nothing is loaded, whatever the
/// reader would have returned.
pub proof fn read_needs_module<F, R>(handle: DynamicLibrary, f: F, res: Result<R, LibraryError>)
    where F: FnOnce(&Library) -> Result<R, LibraryError>
    requires
        !handle.loaded(),
        handle.reads(f, res),
    ensures
        res == Err::<R, LibraryError>(LibraryError::NotLoaded),
{
}

/// Where the dispatcher cannot resolve the entry point in the held module,
/// the invocation reports a missing symbol.
pub proof fn unresolved_entry_point<F>(
    handle: DynamicLibrary,
    dispatch: F,
    res: Result<(), LibraryError>,
)
    where F: FnOnce(&Library, &str) -> Result<(), libloading::Error>
    requires
        handle.module() matches Some(module) && forall|outcome: Result<(), libloading::Error>|
            #[trigger] dispatch.ensures((&module, ENTRY_POINT), outcome) ==> outcome is Err,
        handle.invokes(dispatch, res),
    ensures
        res matches Err(LibraryError::SymbolNotFound(_)),
{
}

/// Where the dispatcher resolves and calls the entry point in the held
/// module, the invocation succeeds.
pub proof fn resolved_entry_point<F>(
    handle: DynamicLibrary,
    dispatch: F,
    res: Result<(), LibraryError>,
)
    where F: FnOnce(&Library, &str) -> Result<(), libloading::Error>
    requires
        handle.module() matches Some(module) && forall|outcome: Result<(), libloading::Error>|
            #[trigger] dispatch.ensures((&module, ENTRY_POINT), outcome) ==> outcome is Ok,
        handle.invokes(dispatch, res),
    ensures
        res is Ok,
{
}

} // verus!
