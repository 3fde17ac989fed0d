//! Errors of container creation.
use vstd::prelude::*;

verus! {

/// A required section of the runtime specification is absent.
#[derive(Clone, Copy, Debug, PartialEq, Eq, Structural)]
pub enum MissingSpecError {
    Linux,
    Process,
}

/// One failure of a setup or rollback step.
#[derive(Clone, Debug, PartialEq, Eq)]
pub enum LibcontainerError {
    MissingSpec(MissingSpecError),
    /// The notify listener could not be created.
    NotifyListener(String),
    /// Writing the OOM tunable, the pid file, or removing the container root failed.
    OtherIO(String),
    Other(String),
    /// The process launcher failed.
    MainProcess(String),
    /// A cgroup manager could not be built or removed.
    Cgroups(String),
    /// The container's state could not be persisted.
    State(String),
    /// A lifecycle hook failed.
    Hooks(String),
}

/// A failed creation: the failure of the setup, and the failure of the
/// rollback that followed it, if any.
#[derive(Clone, Debug, PartialEq, Eq)]
pub struct CreateContainerError {
    pub outer: LibcontainerError,
    pub cleanup: Option<LibcontainerError>,
}

} // verus!
