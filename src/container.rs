//! The persisted record of one container.
use vstd::prelude::*;

verus! {

/// Lifecycle status of a container.
#[derive(Clone, Copy, Debug, PartialEq, Eq, Structural)]
pub enum ContainerStatus {
    Creating,
    Created,
    Running,
    Stopped,
    Paused,
}

/// Persisted state of one container.
#[derive(Clone, Debug)]
pub struct Container {
    pub id: String,
    /// Directory that holds the container's state.
    pub root: String,
    pub status: ContainerStatus,
    /// Effective user id of the process that created the container.
    pub creator: Option<u32>,
    /// Process id of the container's init process.
    pub pid: Option<i32>,
    /// Whether an Intel RDT resource-control subdirectory must be removed.
    pub clean_up_intel_rdt_subdirectory: Option<bool>,
}

impl Container {
    /// A record of a container that is being created.
    pub fn new(id: String, root: String) -> (r: Container)
        ensures
            r.id == id,
            r.root == root,
            r.status == ContainerStatus::Creating,
            r.creator is None,
            r.pid is None,
            r.clean_up_intel_rdt_subdirectory is None,
    {
        Container {
            id,
            root,
            status: ContainerStatus::Creating,
            creator: None,
            pid: None,
            clean_up_intel_rdt_subdirectory: None,
        }
    }

    /// Whether the record asks for removal of a resource-control subdirectory.
    pub open spec fn needs_rdt_cleanup(&self) -> bool {
        self.clean_up_intel_rdt_subdirectory == Some(true)
    }

    /// Records a successful creation: status, creator, pid and the
    /// resource-control flag change together, all else stays.
    pub fn mark_created(&mut self, creator: u32, pid: i32, clean_up_intel_rdt: bool)
        ensures
            final(self).id == old(self).id,
            final(self).root == old(self).root,
            final(self).status == ContainerStatus::Created,
            final(self).creator == Some(creator),
            final(self).pid == Some(pid),
            final(self).clean_up_intel_rdt_subdirectory == Some(clean_up_intel_rdt),
    {
        self.status = ContainerStatus::Created;
        self.creator = Some(creator);
        self.pid = Some(pid);
        self.clean_up_intel_rdt_subdirectory = Some(clean_up_intel_rdt);
    }
}

} // verus!
