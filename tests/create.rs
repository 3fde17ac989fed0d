use container_builder::builder::{Action, ContainerBuilderImpl, ContainerType, Event};
use container_builder::container::{Container, ContainerStatus};
use container_builder::decimal::decimal_text;
use container_builder::error::{CreateContainerError, LibcontainerError, MissingSpecError};
use container_builder::messages::join_messages;
use container_builder::runtime_spec::{LinuxConfig, ProcessConfig, RuntimeSpec};
use container_builder::sequence::Stage;

fn spec(namespaces: usize, oom: Option<i32>, hooks: bool) -> RuntimeSpec {
    RuntimeSpec {
        linux: Some(LinuxConfig { cgroups_path: None, namespaces }),
        process: Some(ProcessConfig { oom_score_adj: oom }),
        has_hooks: hooks,
    }
}

fn record(rdt: Option<bool>) -> Container {
    let mut c = Container::new("box".to_string(), "/run/box".to_string());
    c.clean_up_intel_rdt_subdirectory = rdt;
    c
}

fn builder(
    t: ContainerType,
    spec: RuntimeSpec,
    pid_file: bool,
    container: Option<Container>,
) -> ContainerBuilderImpl {
    let pid_file = if pid_file { Some("/run/box.pid".to_string()) } else { None };
    ContainerBuilderImpl::new(t, false, "box".to_string(), spec, false, pid_file, container)
}

fn kind(a: &Action) -> &'static str {
    match a {
        Action::CreateNotifyListener => "listener",
        Action::WriteOomScoreAdj(_) => "oom",
        Action::SetNonDumpable => "dumpable",
        Action::LaunchMainProcess(_) => "launch",
        Action::WritePidFile(_) => "pidfile",
        Action::ReadEffectiveUid => "euid",
        Action::SaveContainer => "save",
        Action::RunCreateRuntimeHooks => "hooks",
        Action::CreateCgroupManager(_) => "cgroup_manager",
        Action::RemoveCgroup => "remove_cgroup",
        Action::DeleteResctrlSubdirectory(_) => "resctrl",
        Action::RemoveContainerRoot(_) => "root",
        Action::Finish(_) => "finish",
    }
}

/// Runs the builder, answering every step with success, and returns the
/// kinds of the actions asked for, with the last action.
fn run_ok(b: &mut ContainerBuilderImpl, pid: i32) -> (Vec<&'static str>, Action) {
    let mut kinds = Vec::new();
    let mut a = b.step(Event::Done);
    loop {
        kinds.push(kind(&a));
        let ev = match &a {
            Action::Finish(_) => return (kinds, a),
            Action::LaunchMainProcess(_) => Event::Launched { pid, clean_up_intel_rdt: true },
            Action::ReadEffectiveUid => Event::EffectiveUid(1000),
            _ => Event::Done,
        };
        a = b.step(ev);
    }
}

fn finish_err(a: Action) -> CreateContainerError {
    match a {
        Action::Finish(Err(e)) => e,
        other => panic!("expected a failure, got {:?}", other),
    }
}

#[test]
fn missing_linux_section_fails_before_launch() {
    let mut s = spec(1, None, false);
    s.linux = None;
    let mut b = builder(ContainerType::InitContainer, s, true, Some(record(None)));
    let e = finish_err(b.step(Event::Done));
    assert_eq!(e.outer, LibcontainerError::MissingSpec(MissingSpecError::Linux));
    assert_eq!(e.cleanup, Some(LibcontainerError::MissingSpec(MissingSpecError::Linux)));
    assert_eq!(b.container.as_ref().unwrap().status, ContainerStatus::Creating);
    assert!(b.container.as_ref().unwrap().pid.is_none());
}

#[test]
fn missing_process_section_tenant_fails_as_is() {
    let mut s = spec(1, None, false);
    s.process = None;
    let mut b = builder(ContainerType::TenantContainer, s, true, None);
    let e = finish_err(b.step(Event::Done));
    assert_eq!(e.outer, LibcontainerError::MissingSpec(MissingSpecError::Process));
    assert_eq!(e.cleanup, None);
}

#[test]
fn missing_process_section_init_rolls_back_without_launch() {
    let mut s = spec(1, None, false);
    s.process = None;
    let mut b = builder(ContainerType::InitContainer, s, false, None);
    let a = b.step(Event::Done);
    assert_eq!(kind(&a), "cgroup_manager");
    assert_eq!(kind(&b.step(Event::Done)), "remove_cgroup");
    let e = finish_err(b.step(Event::Done));
    assert_eq!(e.outer, LibcontainerError::MissingSpec(MissingSpecError::Process));
    assert_eq!(e.cleanup, None);
}

#[test]
fn full_init_run_orders_every_step() {
    let mut b = builder(ContainerType::InitContainer, spec(2, Some(-500), true), true, Some(record(None)));
    let (kinds, last) = run_ok(&mut b, 4242);
    assert_eq!(
        kinds,
        vec!["listener", "oom", "dumpable", "launch", "pidfile", "euid", "save", "hooks", "finish"]
    );
    assert!(matches!(last, Action::Finish(Ok(4242))));
    assert!(b.is_finished());
}

#[test]
fn oom_text_is_the_declared_value() {
    let mut b = builder(ContainerType::InitContainer, spec(1, Some(-500), false), false, None);
    b.step(Event::Done);
    match b.step(Event::Done) {
        Action::WriteOomScoreAdj(v) => assert_eq!(v, b"-500".to_vec()),
        other => panic!("unexpected {:?}", other),
    }
}

#[test]
fn zero_namespaces_skip_non_dumpable() {
    let mut b = builder(ContainerType::InitContainer, spec(0, Some(10), false), false, None);
    let (kinds, _) = run_ok(&mut b, 7);
    assert_eq!(kinds, vec!["listener", "oom", "launch", "finish"]);
}

#[test]
fn namespaces_make_non_dumpable_once_after_oom() {
    let mut b = builder(ContainerType::TenantContainer, spec(3, Some(10), false), false, None);
    let (kinds, _) = run_ok(&mut b, 7);
    assert_eq!(kinds.iter().filter(|k| **k == "dumpable").count(), 1);
    let oom = kinds.iter().position(|k| *k == "oom").unwrap();
    let dump = kinds.iter().position(|k| *k == "dumpable").unwrap();
    assert!(oom < dump);
}

#[test]
fn non_dumpable_failure_names_the_cause() {
    let mut b = builder(ContainerType::TenantContainer, spec(1, None, false), false, None);
    b.step(Event::Done);
    assert_eq!(kind(&b.step(Event::Done)), "dumpable");
    let e = finish_err(b.step(Event::Failed("EPERM: Operation not permitted".to_string())));
    assert_eq!(
        e.outer,
        LibcontainerError::Other(
            "error in setting dumpable to false : EPERM: Operation not permitted".to_string()
        )
    );
}

#[test]
fn record_updated_in_one_save() {
    let mut b = builder(ContainerType::InitContainer, spec(1, None, false), false, Some(record(None)));
    b.step(Event::Done);
    b.step(Event::Done);
    assert_eq!(kind(&b.step(Event::Done)), "launch");
    assert_eq!(kind(&b.step(Event::Launched { pid: 99, clean_up_intel_rdt: true })), "euid");
    assert_eq!(b.container.as_ref().unwrap().status, ContainerStatus::Creating);
    assert!(b.container.as_ref().unwrap().pid.is_none());
    assert_eq!(kind(&b.step(Event::EffectiveUid(1000))), "save");
    let c = b.container.as_ref().unwrap();
    assert_eq!(c.status, ContainerStatus::Created);
    assert_eq!(c.creator, Some(1000));
    assert_eq!(c.pid, Some(99));
    assert_eq!(c.clean_up_intel_rdt_subdirectory, Some(true));
    assert_eq!(c.id, "box");
    assert_eq!(c.root, "/run/box");
}

#[test]
fn pid_file_round_trip() {
    let mut b = builder(ContainerType::TenantContainer, spec(0, None, false), true, None);
    b.step(Event::Done);
    assert_eq!(kind(&b.step(Event::Done)), "launch");
    match b.step(Event::Launched { pid: 31337, clean_up_intel_rdt: false }) {
        Action::WritePidFile(v) => {
            let text = String::from_utf8(v).unwrap();
            assert_eq!(text, "31337");
            assert_eq!(text.parse::<i32>().unwrap(), 31337);
        }
        other => panic!("unexpected {:?}", other),
    }
    assert!(matches!(b.step(Event::Done), Action::Finish(Ok(31337))));
}

#[test]
fn decimal_text_edges() {
    assert_eq!(decimal_text(0), b"0".to_vec());
    assert_eq!(decimal_text(9), b"9".to_vec());
    assert_eq!(decimal_text(10), b"10".to_vec());
    assert_eq!(decimal_text(-1000), b"-1000".to_vec());
    assert_eq!(decimal_text(i32::MAX), i32::MAX.to_string().into_bytes());
    assert_eq!(decimal_text(i32::MIN), i32::MIN.to_string().into_bytes());
}

#[test]
fn init_launch_failure_rolls_back_and_keeps_cause() {
    let mut b = builder(ContainerType::InitContainer, spec(0, None, true), true, Some(record(None)));
    b.step(Event::Done);
    assert_eq!(kind(&b.step(Event::Done)), "launch");
    match b.step(Event::Failed("clone failed".to_string())) {
        Action::CreateCgroupManager(cfg) => {
            assert_eq!(cfg.cgroup_path, "box");
            assert_eq!(cfg.container_name, "box");
            assert!(!cfg.systemd_cgroup);
        }
        other => panic!("unexpected {:?}", other),
    }
    assert_eq!(kind(&b.step(Event::Done)), "remove_cgroup");
    match b.step(Event::Done) {
        Action::RemoveContainerRoot(root) => assert_eq!(root, "/run/box"),
        other => panic!("unexpected {:?}", other),
    }
    let e = finish_err(b.step(Event::Failed("busy".to_string())));
    assert_eq!(e.outer, LibcontainerError::MainProcess("clone failed".to_string()));
    assert_eq!(
        e.cleanup,
        Some(LibcontainerError::Other("failed to cleanup container: busy".to_string()))
    );
}

#[test]
fn tenant_failure_never_rolls_back() {
    let mut b = builder(ContainerType::TenantContainer, spec(1, None, true), true, Some(record(Some(true))));
    b.step(Event::Done);
    b.step(Event::Done);
    assert_eq!(kind(&b.step(Event::Done)), "launch");
    assert_eq!(kind(&b.step(Event::Launched { pid: 5, clean_up_intel_rdt: true })), "pidfile");
    let e = finish_err(b.step(Event::Failed("disk full".to_string())));
    assert_eq!(e.outer, LibcontainerError::OtherIO("disk full".to_string()));
    assert_eq!(e.cleanup, None);
    assert!(b.is_finished());
}

#[test]
fn rollback_reports_three_causes_in_order() {
    let mut b = builder(ContainerType::InitContainer, spec(0, None, false), false, Some(record(Some(true))));
    b.step(Event::Done);
    let a = b.step(Event::Failed("no socket".to_string()));
    assert_eq!(kind(&a), "cgroup_manager");
    assert_eq!(kind(&b.step(Event::Done)), "remove_cgroup");
    match b.step(Event::Failed("cgroup busy".to_string())) {
        Action::DeleteResctrlSubdirectory(id) => assert_eq!(id, "box"),
        other => panic!("unexpected {:?}", other),
    }
    assert_eq!(kind(&b.step(Event::Failed("resctrl gone".to_string()))), "root");
    let e = finish_err(b.step(Event::Failed("root busy".to_string())));
    assert_eq!(e.outer, LibcontainerError::NotifyListener("no socket".to_string()));
    assert_eq!(
        e.cleanup,
        Some(LibcontainerError::Other(
            "failed to cleanup container: cgroup busy;resctrl gone;root busy".to_string()
        ))
    );
}

#[test]
fn cgroup_manager_failure_ends_rollback() {
    let mut b = builder(ContainerType::InitContainer, spec(0, None, false), false, Some(record(None)));
    b.step(Event::Done);
    b.step(Event::Done);
    assert_eq!(kind(&b.step(Event::Failed("launch".to_string()))), "cgroup_manager");
    let e = finish_err(b.step(Event::Failed("no cgroupfs".to_string())));
    assert_eq!(e.outer, LibcontainerError::MainProcess("launch".to_string()));
    assert_eq!(e.cleanup, Some(LibcontainerError::Cgroups("no cgroupfs".to_string())));
}

#[test]
fn hooks_run_for_init_only() {
    let mut init = builder(ContainerType::InitContainer, spec(0, None, true), false, None);
    let (kinds, _) = run_ok(&mut init, 1);
    assert_eq!(kinds.iter().filter(|k| **k == "hooks").count(), 1);
    let mut tenant = builder(ContainerType::TenantContainer, spec(0, None, true), false, None);
    let (kinds, _) = run_ok(&mut tenant, 1);
    assert_eq!(kinds.iter().filter(|k| **k == "hooks").count(), 0);
    let mut none = builder(ContainerType::InitContainer, spec(0, None, false), false, None);
    let (kinds, _) = run_ok(&mut none, 1);
    assert_eq!(kinds.iter().filter(|k| **k == "hooks").count(), 0);
}

#[test]
fn hook_failure_rolls_back() {
    let mut b = builder(ContainerType::InitContainer, spec(0, None, true), false, None);
    b.step(Event::Done);
    b.step(Event::Done);
    assert_eq!(kind(&b.step(Event::Launched { pid: 3, clean_up_intel_rdt: false })), "hooks");
    assert_eq!(kind(&b.step(Event::Failed("hook exited 1".to_string()))), "cgroup_manager");
    assert_eq!(kind(&b.step(Event::Done)), "remove_cgroup");
    let e = finish_err(b.step(Event::Done));
    assert_eq!(e.outer, LibcontainerError::Hooks("hook exited 1".to_string()));
    assert_eq!(e.cleanup, None);
}

#[test]
fn cgroup_config_from_spec_and_user_namespace() {
    let mut s = spec(0, None, false);
    s.linux.as_mut().unwrap().cgroups_path = Some("/kubepods/box".to_string());
    let b = ContainerBuilderImpl::new(
        ContainerType::InitContainer, false, "box".to_string(), s, true, None, None,
    );
    let cfg = b.cgroup_config();
    assert_eq!(cfg.cgroup_path, "/kubepods/box");
    assert!(cfg.systemd_cgroup);
    assert_eq!(cfg.container_name, "box");
    assert!(b.is_init_container());
}

#[test]
fn accepts_only_fitting_events() {
    let mut b = builder(ContainerType::InitContainer, spec(0, None, false), false, None);
    assert_eq!(b.stage, Stage::Start);
    assert!(b.accepts(&Event::Done));
    assert!(!b.accepts(&Event::Failed("x".to_string())));
    b.step(Event::Done);
    b.step(Event::Done);
    assert!(!b.accepts(&Event::Done));
    assert!(b.accepts(&Event::Launched { pid: 1, clean_up_intel_rdt: false }));
}

#[test]
fn join_messages_uses_semicolons() {
    assert_eq!(join_messages(&vec![]), "");
    assert_eq!(join_messages(&vec!["a".to_string()]), "a");
    assert_eq!(join_messages(&vec!["a".to_string(), "b".to_string(), "c".to_string()]), "a;b;c");
}
