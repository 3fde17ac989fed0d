//! The order of the setup and rollback steps, as a transition relation over
//! the facts that decide it.
use vstd::prelude::*;

verus! {

/// The step whose outcome the orchestrator waits for.
#[derive(Clone, Copy, Debug, PartialEq, Eq, Structural)]
pub enum Stage {
    /// Nothing has been attempted yet.
    Start,
    CreateNotifyListener,
    WriteOomScoreAdj,
    SetNonDumpable,
    LaunchMainProcess,
    WritePidFile,
    ReadEffectiveUid,
    SaveContainer,
    RunCreateRuntimeHooks,
    CreateCgroupManager,
    RemoveCgroup,
    DeleteResctrlSubdirectory,
    RemoveContainerRoot,
    /// The outcome has been reported; nothing more is done.
    Finished,
}

/// Position of a stage in the run: every transition moves to a later one.
pub open spec fn rank(s: Stage) -> int {
    match s {
        Stage::Start => 0,
        Stage::CreateNotifyListener => 1,
        Stage::WriteOomScoreAdj => 2,
        Stage::SetNonDumpable => 3,
        Stage::LaunchMainProcess => 4,
        Stage::WritePidFile => 5,
        Stage::ReadEffectiveUid => 6,
        Stage::SaveContainer => 7,
        Stage::RunCreateRuntimeHooks => 8,
        Stage::CreateCgroupManager => 9,
        Stage::RemoveCgroup => 10,
        Stage::DeleteResctrlSubdirectory => 11,
        Stage::RemoveContainerRoot => 12,
        Stage::Finished => 13,
    }
}

/// Stages of the setup sequence.
pub open spec fn is_setup(s: Stage) -> bool {
    rank(s) <= 8
}

/// Stages of the rollback sequence.
pub open spec fn is_rollback(s: Stage) -> bool {
    9 <= rank(s) <= 12
}

/// What decides the next step: the stage, and facts of the configuration
/// and of the outcomes seen so far.
#[derive(Clone, Copy, Debug, PartialEq, Eq, Structural)]
pub struct Control {
    pub stage: Stage,
    /// The run creates a new container (else it joins a running one).
    pub init: bool,
    pub has_linux: bool,
    pub has_process: bool,
    pub has_oom_score_adj: bool,
    /// The specification declares at least one namespace.
    pub namespaced: bool,
    pub has_pid_file: bool,
    pub has_container: bool,
    pub has_hooks: bool,
    /// The launcher reported a resource-control subdirectory.
    pub rdt_reported: bool,
    /// The container record asks for removal of that subdirectory.
    pub rdt_recorded: bool,
}

/// What the orchestrator learns of a step: whether it succeeded, and the
/// launcher's resource-control flag.
pub struct Outcome {
    pub ok: bool,
    pub rdt: bool,
}

/// The setup step performed after `s` succeeded; steps that the
/// configuration does not ask for are skipped.
pub open spec fn stage_after(c: Control, s: Stage) -> Stage {
    match s {
        Stage::Start => Stage::CreateNotifyListener,
        Stage::CreateNotifyListener => if c.has_oom_score_adj {
            Stage::WriteOomScoreAdj
        } else if c.namespaced {
            Stage::SetNonDumpable
        } else {
            Stage::LaunchMainProcess
        },
        Stage::WriteOomScoreAdj => if c.namespaced {
            Stage::SetNonDumpable
        } else {
            Stage::LaunchMainProcess
        },
        Stage::SetNonDumpable => Stage::LaunchMainProcess,
        Stage::LaunchMainProcess => if c.has_pid_file {
            Stage::WritePidFile
        } else {
            after_pid_file(c)
        },
        Stage::WritePidFile => after_pid_file(c),
        Stage::ReadEffectiveUid => Stage::SaveContainer,
        Stage::SaveContainer => after_save(c),
        _ => Stage::Finished,
    }
}

/// The setup step after the pid file: the record update, or what follows it.
pub open spec fn after_pid_file(c: Control) -> Stage {
    if c.has_container {
        Stage::ReadEffectiveUid
    } else {
        after_save(c)
    }
}

/// The hooks run only for a new container that declares them.
pub open spec fn after_save(c: Control) -> Stage {
    if c.init && c.has_hooks {
        Stage::RunCreateRuntimeHooks
    } else {
        Stage::Finished
    }
}

/// First rollback step; without a Linux section rollback fails at once.
pub open spec fn rollback_start(c: Control) -> Stage {
    if c.has_linux {
        Stage::CreateCgroupManager
    } else {
        Stage::Finished
    }
}

/// Where a failed setup step leads: rollback for a new container, the end
/// for a process that joins a running one.
pub open spec fn after_setup_failure(c: Control) -> Stage {
    if c.init {
        rollback_start(c)
    } else {
        Stage::Finished
    }
}

/// The rollback step after the cgroup removal, whatever its outcome.
pub open spec fn after_cgroup_removal(c: Control) -> Stage {
    if c.has_container && c.rdt_recorded {
        Stage::DeleteResctrlSubdirectory
    } else if c.has_container {
        Stage::RemoveContainerRoot
    } else {
        Stage::Finished
    }
}

/// One transition of the orchestrator.
pub open spec fn next_control(c: Control, o: Outcome) -> Control {
    match c.stage {
        Stage::Start => if c.has_linux && c.has_process {
            Control { stage: Stage::CreateNotifyListener, ..c }
        } else {
            Control { stage: after_setup_failure(c), ..c }
        },
        Stage::LaunchMainProcess => if o.ok {
            Control { stage: stage_after(c, c.stage), rdt_reported: o.rdt, ..c }
        } else {
            Control { stage: after_setup_failure(c), ..c }
        },
        Stage::ReadEffectiveUid => if o.ok {
            Control { stage: Stage::SaveContainer, rdt_recorded: c.rdt_reported, ..c }
        } else {
            Control { stage: after_setup_failure(c), ..c }
        },
        Stage::CreateCgroupManager => if o.ok {
            Control { stage: Stage::RemoveCgroup, ..c }
        } else {
            Control { stage: Stage::Finished, ..c }
        },
        Stage::RemoveCgroup => Control { stage: after_cgroup_removal(c), ..c },
        Stage::DeleteResctrlSubdirectory => if c.has_container {
            Control { stage: Stage::RemoveContainerRoot, ..c }
        } else {
            Control { stage: Stage::Finished, ..c }
        },
        Stage::RemoveContainerRoot => Control { stage: Stage::Finished, ..c },
        Stage::Finished => c,
        _ => if o.ok {
            Control { stage: stage_after(c, c.stage), ..c }
        } else {
            Control { stage: after_setup_failure(c), ..c }
        },
    }
}

} // verus!
