//! The ways in which a run fails. Each of them is fatal: nothing is retried,
//! and a run that has failed stays failed.

use vstd::prelude::*;

verus! {

/// Why no module could be acquired.
#[derive(Clone, Copy, Debug, PartialEq, Eq, Structural)]
pub enum LoadFailure {
    /// There is no file at the module's path.
    NotFound,
    /// The file is not a module that this host can load.
    NotLoadable,
    /// The module lacks one of the four exports: the init routine, the
    /// execution routine, the memory base or the heap base.
    MissingSymbol,
    /// Work was reported on a module, and none was loaded.
    NotLoaded,
    /// A load was reported while the module of the cycle was still loaded.
    AlreadyLoaded,
}

/// A fatal error of a run.
#[derive(Clone, Copy, Debug, PartialEq, Eq, Structural)]
pub enum HarnessError {
    /// The module could not be loaded.
    LoadError(LoadFailure),
    /// The module's init routine failed, did not run before the module was
    /// used, or left a memory layout that has no host address.
    InitializationError,
    /// The module's execution routine failed, or returned a region that has
    /// no host address.
    ExecutionFault,
    /// The bytes that the module returned are not a validation result.
    DecodeError,
}

} // verus!
