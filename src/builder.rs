//! The orchestrator: which step comes next, what it is handed, and what is
//! reported when the run ends.
use vstd::prelude::*;

use crate::container::{Container, ContainerStatus};
use crate::decimal::{decimal_of, decimal_text};
use crate::error::{CreateContainerError, LibcontainerError, MissingSpecError};
use crate::messages::{join_messages, joined, texts};
use crate::runtime_spec::RuntimeSpec;
use crate::sequence::{
    after_setup_failure, is_rollback, is_setup, next_control, stage_after, Control, Outcome, Stage,
};

verus! {

/// Whether this run creates a brand-new container or joins a running one.
#[derive(Clone, Copy, Debug, PartialEq, Eq, Structural)]
pub enum ContainerType {
    InitContainer,
    TenantContainer,
}

/// The cgroup configuration handed to the launcher and to the cgroup manager.
#[derive(Debug)]
pub struct CgroupConfig {
    pub cgroup_path: String,
    /// Whether systemd manages the cgroup.
    pub systemd_cgroup: bool,
    pub container_name: String,
}

/// The outcome of the step last asked for.
#[derive(Debug)]
pub enum Event {
    /// The step succeeded (or, first of all, the run begins).
    Done,
    /// The step failed, with the cause.
    Failed(String),
    /// The launcher created the process.
    Launched { pid: i32, clean_up_intel_rdt: bool },
    /// The effective user id of the orchestrating process.
    EffectiveUid(u32),
}

/// The step to perform next, with what it needs.
#[derive(Debug)]
pub enum Action {
    CreateNotifyListener,
    /// Write these bytes to the process's OOM score tunable.
    WriteOomScoreAdj(Vec<u8>),
    SetNonDumpable,
    LaunchMainProcess(CgroupConfig),
    /// Write these bytes to the configured pid file.
    WritePidFile(Vec<u8>),
    ReadEffectiveUid,
    /// Persist the builder's container record.
    SaveContainer,
    /// Run the create-runtime hooks with the builder's container record.
    RunCreateRuntimeHooks,
    CreateCgroupManager(CgroupConfig),
    RemoveCgroup,
    /// Delete the resource-control subdirectory of this container id.
    DeleteResctrlSubdirectory(String),
    /// Remove this container root directory, if it exists.
    RemoveContainerRoot(String),
    /// The run is over: the new process id, or the failure.
    Finish(Result<i32, CreateContainerError>),
}

/// True exactly for the run that originates a new container.
pub open spec fn is_init(t: ContainerType) -> bool {
    t == ContainerType::InitContainer
}

/// What the transition relation learns of an event.
pub open spec fn outcome(e: Event) -> Outcome {
    Outcome {
        ok: !(e is Failed),
        rdt: e matches Event::Launched { clean_up_intel_rdt, .. } && clean_up_intel_rdt,
    }
}

/// The events that can report the outcome of the step at `s`.
pub open spec fn expects(s: Stage, e: Event) -> bool {
    match s {
        Stage::Start => e is Done,
        Stage::LaunchMainProcess => e is Launched || e is Failed,
        Stage::ReadEffectiveUid => e is EffectiveUid,
        Stage::Finished => false,
        _ => e is Done || e is Failed,
    }
}

/// Prefix of the error raised when the process cannot be made non-dumpable.
pub open spec fn dumpable_prefix() -> Seq<char> {
    "error in setting dumpable to false : "@
}

/// Text of the error that joins the rollback failures.
pub open spec fn cleanup_message(errors: Seq<String>) -> Seq<char> {
    "failed to cleanup container: "@ + joined(texts(errors))
}

/// The error a failed setup step at `s` is reported as, for cause `m`.
pub open spec fn step_error(s: Stage, m: String) -> LibcontainerError {
    match s {
        Stage::CreateNotifyListener => LibcontainerError::NotifyListener(m),
        Stage::WriteOomScoreAdj => LibcontainerError::OtherIO(m),
        Stage::LaunchMainProcess => LibcontainerError::MainProcess(m),
        Stage::WritePidFile => LibcontainerError::OtherIO(m),
        Stage::SaveContainer => LibcontainerError::State(m),
        Stage::RunCreateRuntimeHooks => LibcontainerError::Hooks(m),
        _ => LibcontainerError::Other(m),
    }
}

/// The rollback error for the recorded failures: none when there are none.
pub open spec fn rollback_error_fits(errors: Seq<String>, c: Option<LibcontainerError>) -> bool {
    if errors.len() == 0 {
        c is None
    } else {
        c matches Some(LibcontainerError::Other(t)) && t@ == cleanup_message(errors)
    }
}

/// The orchestrator of one container creation.
pub struct ContainerBuilderImpl {
    /// Whether a new container is created or a process joins a running one.
    pub container_type: ContainerType,
    /// Whether systemd should manage the cgroup.
    pub use_systemd: bool,
    pub container_id: String,
    pub spec: RuntimeSpec,
    /// Whether a new user namespace is configured.
    pub user_namespace: bool,
    /// File that receives the new process id.
    pub pid_file: Option<String>,
    /// The persisted record of the container, when one is tracked.
    pub container: Option<Container>,
    /// The step whose outcome is awaited.
    pub stage: Stage,
    /// Process id reported by the launcher.
    pub init_pid: i32,
    /// Whether the launcher reported a resource-control subdirectory.
    pub clean_up_intel_rdt: bool,
    /// The setup failure that rollback is running for.
    pub failure: Option<LibcontainerError>,
    /// Causes of the rollback steps that failed, in step order.
    pub cleanup_errors: Vec<String>,
}

impl ContainerBuilderImpl {
    /// The facts that decide the next step.
    pub open spec fn control(&self) -> Control {
        Control {
            stage: self.stage,
            init: is_init(self.container_type),
            has_linux: self.spec.linux is Some,
            has_process: self.spec.process is Some,
            has_oom_score_adj: self.spec.process is Some && self.spec.process->0.oom_score_adj is Some,
            namespaced: self.spec.linux is Some && self.spec.linux->0.namespaces > 0,
            has_pid_file: self.pid_file is Some,
            has_container: self.container is Some,
            has_hooks: self.spec.has_hooks,
            rdt_reported: self.clean_up_intel_rdt,
            rdt_recorded: self.container is Some && self.container->0.needs_rdt_cleanup(),
        }
    }

    /// Rollback always runs on behalf of a recorded setup failure, and the
    /// record update is awaited only where there is a record.
    pub open spec fn wf(&self) -> bool {
        &&& is_rollback(self.stage) ==> self.failure is Some
        &&& self.stage == Stage::ReadEffectiveUid ==> self.container is Some
    }

    /// The OOM score adjustment that the specification declares.
    pub open spec fn oom_score_adj(&self) -> int {
        self.spec.process->0.oom_score_adj->0 as int
    }

    /// The cgroup path: the one the specification gives, else the container id.
    pub open spec fn cgroup_path(&self) -> Seq<char> {
        if self.spec.linux is Some && self.spec.linux->0.cgroups_path is Some {
            self.spec.linux->0.cgroups_path->0@
        } else {
            self.container_id@
        }
    }

    /// The cgroup configuration this builder derives.
    pub open spec fn cgroup_config_fits(&self, cfg: CgroupConfig) -> bool {
        &&& cfg.cgroup_path@ == self.cgroup_path()
        &&& cfg.systemd_cgroup == (self.use_systemd || self.user_namespace)
        &&& cfg.container_name@ == self.container_id@
    }

    /// The configuration stays as it was built.
    pub open spec fn same_config(&self, other: &Self) -> bool {
        &&& other.container_type == self.container_type
        &&& other.use_systemd == self.use_systemd
        &&& other.container_id == self.container_id
        &&& other.spec == self.spec
        &&& other.user_namespace == self.user_namespace
        &&& other.pid_file == self.pid_file
    }

    /// Whether the step at this stage failed, on this event.
    pub open spec fn setup_failed(&self, e: Event) -> bool {
        if self.stage == Stage::Start {
            !(self.spec.linux is Some && self.spec.process is Some)
        } else {
            e is Failed
        }
    }

    /// The error a failed setup step is reported as.
    pub open spec fn setup_error_fits(&self, e: Event, err: LibcontainerError) -> bool {
        match self.stage {
            Stage::Start => err == LibcontainerError::MissingSpec(
                if self.spec.linux is None {
                    MissingSpecError::Linux
                } else {
                    MissingSpecError::Process
                },
            ),
            Stage::SetNonDumpable => e matches Event::Failed(m) && err matches LibcontainerError::Other(
                t,
            ) && t@ == dumpable_prefix() + m@,
            _ => e matches Event::Failed(m) && err == step_error(self.stage, m),
        }
    }

    /// How the recorded data change in one transition.
    pub open spec fn data_fits(&self, post: &Self, e: Event) -> bool {
        &&& if self.stage == Stage::ReadEffectiveUid {
            post.container == Some(
                Container {
                    status: ContainerStatus::Created,
                    creator: Some(e->EffectiveUid_0),
                    pid: Some(self.init_pid),
                    clean_up_intel_rdt_subdirectory: Some(self.clean_up_intel_rdt),
                    ..self.container->0
                },
            )
        } else {
            post.container == self.container
        }
        &&& if self.stage == Stage::LaunchMainProcess && e is Launched {
            post.init_pid == e->pid && post.clean_up_intel_rdt == e->clean_up_intel_rdt
        } else {
            post.init_pid == self.init_pid && post.clean_up_intel_rdt == self.clean_up_intel_rdt
        }
        &&& is_setup(self.stage) && is_rollback(post.stage) ==> {
            &&& post.failure is Some
            &&& self.setup_error_fits(e, post.failure->0)
            &&& post.cleanup_errors@.len() == 0
        }
        &&& is_rollback(self.stage) && is_rollback(post.stage) ==> post.failure == self.failure
        &&& is_rollback(self.stage) && self.stage != Stage::CreateCgroupManager ==> {
            post.cleanup_errors@ == match e {
                Event::Failed(m) => self.cleanup_errors@.push(m),
                _ => self.cleanup_errors@,
            }
        }
    }

    /// What is reported when the run ends.
    pub open spec fn finish_fits(
        &self,
        post: &Self,
        e: Event,
        r: Result<i32, CreateContainerError>,
    ) -> bool {
        if is_setup(self.stage) && !self.setup_failed(e) {
            r == Ok::<i32, CreateContainerError>(post.init_pid)
        } else if is_setup(self.stage) {
            r matches Err(err) && self.setup_error_fits(e, err.outer) && err.cleanup == if is_init(
                self.container_type,
            ) {
                Some(LibcontainerError::MissingSpec(MissingSpecError::Linux))
            } else {
                None
            }
        } else if self.stage == Stage::CreateCgroupManager {
            r matches Err(err) && self.failure == Some(err.outer) && (e matches Event::Failed(m)
                && err.cleanup == Some(LibcontainerError::Cgroups(m)))
        } else {
            r matches Err(err) && self.failure == Some(err.outer) && rollback_error_fits(
                post.cleanup_errors@,
                err.cleanup,
            )
        }
    }

    /// The action that enters this builder's stage, one that the run goes on from.
    pub open spec fn entry_action_fits(&self, a: Action) -> bool {
        match self.stage {
            Stage::CreateNotifyListener => a is CreateNotifyListener,
            Stage::WriteOomScoreAdj => a matches Action::WriteOomScoreAdj(v) && v@ == decimal_of(
                self.oom_score_adj(),
            ),
            Stage::SetNonDumpable => a is SetNonDumpable,
            Stage::LaunchMainProcess => a matches Action::LaunchMainProcess(cfg)
                && self.cgroup_config_fits(cfg),
            Stage::WritePidFile => a matches Action::WritePidFile(v) && v@ == decimal_of(
                self.init_pid as int,
            ),
            Stage::ReadEffectiveUid => a is ReadEffectiveUid,
            Stage::SaveContainer => a is SaveContainer,
            Stage::RunCreateRuntimeHooks => a is RunCreateRuntimeHooks,
            Stage::CreateCgroupManager => a matches Action::CreateCgroupManager(cfg)
                && self.cgroup_config_fits(cfg),
            Stage::RemoveCgroup => a is RemoveCgroup,
            Stage::DeleteResctrlSubdirectory => a matches Action::DeleteResctrlSubdirectory(id)
                && id@ == self.container->0.id@,
            Stage::RemoveContainerRoot => a matches Action::RemoveContainerRoot(root) && root@
                == self.container->0.root@,
            _ => false,
        }
    }

    /// The action that enters the new stage.
    pub open spec fn action_fits(&self, post: &Self, e: Event, a: Action) -> bool {
        if post.stage == Stage::Finished {
            a matches Action::Finish(r) && self.finish_fits(post, e, r)
        } else {
            post.entry_action_fits(a)
        }
    }

    /// Nothing but the stage, the recorded failure and the rollback causes changed.
    pub open spec fn same_but_progress(&self, other: &Self) -> bool {
        &&& self.same_config(other)
        &&& other.container == self.container
        &&& other.init_pid == self.init_pid
        &&& other.clean_up_intel_rdt == self.clean_up_intel_rdt
    }

    /// One step of the orchestrator, in full.
    pub open spec fn transition(&self, post: &Self, e: Event, a: Action) -> bool {
        &&& post.control() == next_control(self.control(), outcome(e))
        &&& self.same_config(post)
        &&& post.wf()
        &&& self.data_fits(post, e)
        &&& self.action_fits(post, e, a)
    }
}

impl ContainerBuilderImpl {
    /// A builder that has attempted nothing yet.
    pub fn new(
        container_type: ContainerType,
        use_systemd: bool,
        container_id: String,
        spec: RuntimeSpec,
        user_namespace: bool,
        pid_file: Option<String>,
        container: Option<Container>,
    ) -> (r: Self)
        ensures
            r.container_type == container_type,
            r.use_systemd == use_systemd,
            r.container_id == container_id,
            r.spec == spec,
            r.user_namespace == user_namespace,
            r.pid_file == pid_file,
            r.container == container,
            r.stage == Stage::Start,
            r.init_pid == 0,
            !r.clean_up_intel_rdt,
            r.failure is None,
            r.cleanup_errors@.len() == 0,
            r.wf(),
    {
        ContainerBuilderImpl {
            container_type,
            use_systemd,
            container_id,
            spec,
            user_namespace,
            pid_file,
            container,
            stage: Stage::Start,
            init_pid: 0,
            clean_up_intel_rdt: false,
            failure: None,
            cleanup_errors: Vec::new(),
        }
    }

    /// True exactly when this run creates a new container.
    pub fn is_init_container(&self) -> (r: bool)
        ensures
            r == is_init(self.container_type),
    {
        matches!(self.container_type, ContainerType::InitContainer)
    }

    /// Whether the run is over.
    pub fn is_finished(&self) -> (r: bool)
        ensures
            r == (self.stage == Stage::Finished),
    {
        matches!(self.stage, Stage::Finished)
    }

    /// Whether `e` can report the outcome of the awaited step.
    pub fn accepts(&self, e: &Event) -> (r: bool)
        ensures
            r == expects(self.stage, *e),
    {
        match self.stage {
            Stage::Start => matches!(e, Event::Done),
            Stage::LaunchMainProcess => matches!(e, Event::Launched { .. } | Event::Failed(_)),
            Stage::ReadEffectiveUid => matches!(e, Event::EffectiveUid(_)),
            Stage::Finished => false,
            _ => matches!(e, Event::Done | Event::Failed(_)),
        }
    }

    /// The cgroup configuration of this container.
    pub fn cgroup_config(&self) -> (cfg: CgroupConfig)
        ensures
            self.cgroup_config_fits(cfg),
    {
        let cgroup_path = match &self.spec.linux {
            Some(linux) => match &linux.cgroups_path {
                Some(p) => p.clone(),
                None => self.container_id.clone(),
            },
            None => self.container_id.clone(),
        };
        CgroupConfig {
            cgroup_path,
            systemd_cgroup: self.use_systemd || self.user_namespace,
            container_name: self.container_id.clone(),
        }
    }

    /// The setup step after the current one succeeded.
    fn next_setup_stage(&self) -> (s: Stage)
        ensures
            s == stage_after(self.control(), self.stage),
    {
        let has_oom = match &self.spec.process {
            Some(p) => p.oom_score_adj.is_some(),
            None => false,
        };
        let namespaced = match &self.spec.linux {
            Some(l) => l.namespaces > 0,
            None => false,
        };
        let hooks = self.is_init_container() && self.spec.has_hooks;
        let after_save = if hooks {
            Stage::RunCreateRuntimeHooks
        } else {
            Stage::Finished
        };
        let after_pid_file = if self.container.is_some() {
            Stage::ReadEffectiveUid
        } else {
            after_save
        };
        let after_oom = if namespaced {
            Stage::SetNonDumpable
        } else {
            Stage::LaunchMainProcess
        };
        match self.stage {
            Stage::Start => Stage::CreateNotifyListener,
            Stage::CreateNotifyListener => if has_oom {
                Stage::WriteOomScoreAdj
            } else {
                after_oom
            },
            Stage::WriteOomScoreAdj => after_oom,
            Stage::SetNonDumpable => Stage::LaunchMainProcess,
            Stage::LaunchMainProcess => if self.pid_file.is_some() {
                Stage::WritePidFile
            } else {
                after_pid_file
            },
            Stage::WritePidFile => after_pid_file,
            Stage::ReadEffectiveUid => Stage::SaveContainer,
            Stage::SaveContainer => after_save,
            _ => Stage::Finished,
        }
    }

    /// The action that enters the current stage.
    fn entry_action(&self) -> (a: Action)
        requires
            self.stage != Stage::Start,
            self.stage != Stage::Finished,
            self.stage == Stage::WriteOomScoreAdj ==> self.control().has_oom_score_adj,
            self.stage == Stage::DeleteResctrlSubdirectory ==> self.container is Some,
            self.stage == Stage::RemoveContainerRoot ==> self.container is Some,
        ensures
            self.entry_action_fits(a),
    {
        match self.stage {
            Stage::CreateNotifyListener => Action::CreateNotifyListener,
            Stage::WriteOomScoreAdj => {
                let v: i32 = match &self.spec.process {
                    Some(p) => match p.oom_score_adj {
                        Some(v) => v,
                        None => 0,
                    },
                    None => 0,
                };
                Action::WriteOomScoreAdj(decimal_text(v))
            },
            Stage::SetNonDumpable => Action::SetNonDumpable,
            Stage::LaunchMainProcess => Action::LaunchMainProcess(self.cgroup_config()),
            Stage::WritePidFile => Action::WritePidFile(decimal_text(self.init_pid)),
            Stage::ReadEffectiveUid => Action::ReadEffectiveUid,
            Stage::SaveContainer => Action::SaveContainer,
            Stage::RunCreateRuntimeHooks => Action::RunCreateRuntimeHooks,
            Stage::CreateCgroupManager => Action::CreateCgroupManager(self.cgroup_config()),
            Stage::RemoveCgroup => Action::RemoveCgroup,
            Stage::DeleteResctrlSubdirectory => match &self.container {
                Some(c) => Action::DeleteResctrlSubdirectory(c.id.clone()),
                None => Action::RemoveCgroup,  // excluded by the precondition
            },
            Stage::RemoveContainerRoot => match &self.container {
                Some(c) => Action::RemoveContainerRoot(c.root.clone()),
                None => Action::RemoveCgroup,  // excluded by the precondition
            },
            _ => Action::RemoveCgroup,  // excluded by the precondition
        }
    }
}

impl ContainerBuilderImpl {
    /// A setup step failed with `err`: a new container rolls back, a joining
    /// process reports the failure as it is.
    fn fail_setup(&mut self, err: LibcontainerError) -> (a: Action)
        requires
            is_setup(old(self).stage),
        ensures
            old(self).same_but_progress(final(self)),
            final(self).stage == after_setup_failure(old(self).control()),
            final(self).wf(),
            is_rollback(final(self).stage) ==> {
                &&& final(self).failure == Some(err)
                &&& final(self).cleanup_errors@.len() == 0
                &&& final(self).entry_action_fits(a)
            },
            final(self).stage == Stage::Finished ==> a == Action::Finish(
                Err(
                    CreateContainerError {
                        outer: err,
                        cleanup: if is_init(old(self).container_type) {
                            Some(LibcontainerError::MissingSpec(MissingSpecError::Linux))
                        } else {
                            None
                        },
                    },
                ),
            ),
    {
        if !self.is_init_container() {
            self.stage = Stage::Finished;
            return Action::Finish(Err(CreateContainerError { outer: err, cleanup: None }));
        }
        if self.spec.linux.is_none() {
            self.stage = Stage::Finished;
            return Action::Finish(
                Err(
                    CreateContainerError {
                        outer: err,
                        cleanup: Some(LibcontainerError::MissingSpec(MissingSpecError::Linux)),
                    },
                ),
            );
        }
        self.stage = Stage::CreateCgroupManager;
        self.failure = Some(err);
        self.cleanup_errors = Vec::new();
        self.entry_action()
    }

    /// Rollback is over: report the setup failure with what rollback met.
    fn finish_rollback(&mut self) -> (a: Action)
        requires
            is_rollback(old(self).stage),
            old(self).failure is Some,
        ensures
            old(self).same_but_progress(final(self)),
            final(self).stage == Stage::Finished,
            final(self).cleanup_errors == old(self).cleanup_errors,
            a matches Action::Finish(Err(err)) && old(self).failure == Some(err.outer)
                && rollback_error_fits(old(self).cleanup_errors@, err.cleanup),
    {
        let cleanup = if self.cleanup_errors.len() == 0 {
            None
        } else {
            let mut message = String::from_str("failed to cleanup container: ");
            let joined_errors = join_messages(&self.cleanup_errors);
            message.append(joined_errors.as_str());
            Some(LibcontainerError::Other(message))
        };
        self.stage = Stage::Finished;
        let outer = match self.failure.take() {
            Some(e) => e,
            None => LibcontainerError::Other(String::new()),  // excluded by the precondition
        };
        Action::Finish(Err(CreateContainerError { outer, cleanup }))
    }

    /// A setup step succeeded: go on to the next one, or report the process id.
    fn advance(&mut self) -> (a: Action)
        requires
            is_setup(old(self).stage),
        ensures
            old(self).same_but_progress(final(self)),
            final(self).failure == old(self).failure,
            final(self).stage == stage_after(old(self).control(), old(self).stage),
            final(self).stage == Stage::Finished ==> a == Action::Finish(
                Ok::<i32, CreateContainerError>(old(self).init_pid),
            ),
            final(self).stage != Stage::Finished ==> final(self).entry_action_fits(a),
    {
        let next = self.next_setup_stage();
        self.stage = next;
        if matches!(next, Stage::Finished) {
            Action::Finish(Ok(self.init_pid))
        } else {
            self.entry_action()
        }
    }
}

impl ContainerBuilderImpl {
    /// Feeds the outcome of the awaited step and returns the next step to
    /// perform; `Action::Finish` ends the run.
    pub fn step(&mut self, event: Event) -> (a: Action)
        requires
            old(self).wf(),
            expects(old(self).stage, event),
        ensures
            old(self).transition(final(self), event, a),
    {
        if matches!(self.stage, Stage::CreateCgroupManager | Stage::RemoveCgroup
            | Stage::DeleteResctrlSubdirectory | Stage::RemoveContainerRoot) {
            self.cleanup_container_step(event)
        } else {
            self.run_container_step(event)
        }
    }

    /// One step of the setup sequence.
    fn run_container_step(&mut self, event: Event) -> (a: Action)
        requires
            old(self).wf(),
            is_setup(old(self).stage),
            expects(old(self).stage, event),
        ensures
            old(self).transition(final(self), event, a),
    {
        match self.stage {
            Stage::Start => {
                if self.spec.linux.is_none() {
                    self.fail_setup(LibcontainerError::MissingSpec(MissingSpecError::Linux))
                } else if self.spec.process.is_none() {
                    self.fail_setup(LibcontainerError::MissingSpec(MissingSpecError::Process))
                } else {
                    self.advance()
                }
            },
            Stage::LaunchMainProcess => match event {
                Event::Launched { pid, clean_up_intel_rdt } => {
                    self.init_pid = pid;
                    self.clean_up_intel_rdt = clean_up_intel_rdt;
                    self.advance()
                },
                Event::Failed(m) => self.fail_setup(LibcontainerError::MainProcess(m)),
                _ => Action::RemoveCgroup,  // excluded by `expects`
            },
            Stage::ReadEffectiveUid => match event {
                Event::EffectiveUid(uid) => {
                    let pid = self.init_pid;
                    let rdt = self.clean_up_intel_rdt;
                    match self.container.take() {
                        Some(mut c) => {
                            c.mark_created(uid, pid, rdt);
                            self.container = Some(c);
                        },
                        None => {},
                    }
                    self.advance()
                },
                _ => Action::RemoveCgroup,  // excluded by `expects`
            },
            Stage::SetNonDumpable => match event {
                Event::Failed(m) => {
                    let mut t = String::from_str("error in setting dumpable to false : ");
                    t.append(m.as_str());
                    self.fail_setup(LibcontainerError::Other(t))
                },
                _ => self.advance(),
            },
            _ => match event {
                Event::Failed(m) => {
                    let err = match self.stage {
                        Stage::CreateNotifyListener => LibcontainerError::NotifyListener(m),
                        Stage::WriteOomScoreAdj => LibcontainerError::OtherIO(m),
                        Stage::WritePidFile => LibcontainerError::OtherIO(m),
                        Stage::SaveContainer => LibcontainerError::State(m),
                        Stage::RunCreateRuntimeHooks => LibcontainerError::Hooks(m),
                        _ => LibcontainerError::Other(m),
                    };
                    self.fail_setup(err)
                },
                _ => self.advance(),
            },
        }
    }

    /// One step of the rollback sequence: a failure is recorded and the
    /// next step still runs; only a cgroup manager that cannot be built ends
    /// rollback at once.
    fn cleanup_container_step(&mut self, event: Event) -> (a: Action)
        requires
            old(self).wf(),
            is_rollback(old(self).stage),
            expects(old(self).stage, event),
        ensures
            old(self).transition(final(self), event, a),
    {
        match self.stage {
            Stage::CreateCgroupManager => match event {
                Event::Failed(m) => {
                    self.stage = Stage::Finished;
                    let outer = match self.failure.take() {
                        Some(e) => e,
                        None => LibcontainerError::Other(String::new()),  // excluded by well-formedness
                    };
                    Action::Finish(
                        Err(
                            CreateContainerError {
                                outer,
                                cleanup: Some(LibcontainerError::Cgroups(m)),
                            },
                        ),
                    )
                },
                _ => {
                    self.stage = Stage::RemoveCgroup;
                    self.entry_action()
                },
            },
            _ => {
                match event {
                    Event::Failed(m) => self.cleanup_errors.push(m),
                    _ => {},
                }
                let has_container = self.container.is_some();
                let rdt_recorded = match &self.container {
                    Some(c) => matches!(c.clean_up_intel_rdt_subdirectory, Some(true)),
                    None => false,
                };
                let next = match self.stage {
                    Stage::RemoveCgroup => if has_container && rdt_recorded {
                        Stage::DeleteResctrlSubdirectory
                    } else if has_container {
                        Stage::RemoveContainerRoot
                    } else {
                        Stage::Finished
                    },
                    Stage::DeleteResctrlSubdirectory => if has_container {
                        Stage::RemoveContainerRoot
                    } else {
                        Stage::Finished
                    },
                    _ => Stage::Finished,
                };
                if matches!(next, Stage::Finished) {
                    self.finish_rollback()
                } else {
                    self.stage = next;
                    self.entry_action()
                }
            },
        }
    }
}

} // verus!
