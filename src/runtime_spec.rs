//! The parts of a container's runtime specification that orchestration reads.
use vstd::prelude::*;

verus! {

/// The Linux section of a runtime specification.
#[derive(Clone, Debug)]
pub struct LinuxConfig {
    /// Cgroup path requested by the specification, if any.
    pub cgroups_path: Option<String>,
    /// Number of namespaces the specification declares.
    pub namespaces: usize,
}

/// The process section of a runtime specification.
#[derive(Clone, Debug)]
pub struct ProcessConfig {
    /// OOM score adjustment to apply to the container's processes, if any.
    pub oom_score_adj: Option<i32>,
}

/// A container's runtime specification, as far as orchestration reads it.
#[derive(Clone, Debug)]
pub struct RuntimeSpec {
    pub linux: Option<LinuxConfig>,
    pub process: Option<ProcessConfig>,
    /// Whether the specification declares lifecycle hooks.
    pub has_hooks: bool,
}

} // verus!
