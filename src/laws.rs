//! Properties of whole runs of the orchestrator.
use vstd::prelude::*;

use crate::builder::{cleanup_message, is_init, outcome, Action, ContainerBuilderImpl, Event};
use crate::container::ContainerStatus;
use crate::error::{LibcontainerError, MissingSpecError};
use crate::messages::{lemma_three_failures_joined, texts};
use crate::sequence::{is_rollback, is_setup, next_control, rank, Control, Outcome, Stage};

verus! {

/// How often a run from `c` through the outcomes `outs` is at stage `x`.
pub open spec fn visits(c: Control, outs: Seq<Outcome>, x: Stage) -> nat
    decreases outs.len(),
{
    (if c.stage == x {
        1nat
    } else {
        0nat
    }) + if outs.len() == 0 {
        0nat
    } else {
        visits(next_control(c, outs[0]), outs.drop_first(), x)
    }
}

/// Every transition moves to a later stage, but at the end; the
/// configuration facts never change.
pub proof fn lemma_stage_advances(c: Control, o: Outcome)
    ensures
        c.stage != Stage::Finished ==> rank(next_control(c, o).stage) > rank(c.stage),
        c.stage == Stage::Finished ==> next_control(c, o) == c,
        next_control(c, o).init == c.init,
        next_control(c, o).namespaced == c.namespaced,
        next_control(c, o).has_linux == c.has_linux,
        next_control(c, o).has_process == c.has_process,
        next_control(c, o).has_oom_score_adj == c.has_oom_score_adj,
        next_control(c, o).has_hooks == c.has_hooks,
        next_control(c, o).has_container == c.has_container,
{
}

/// A run never comes back to a stage it has passed.
pub proof fn lemma_passed_stage_not_visited(c: Control, outs: Seq<Outcome>, x: Stage)
    requires
        rank(c.stage) > rank(x),
    ensures
        visits(c, outs, x) == 0,
    decreases outs.len(),
{
    if outs.len() > 0 {
        lemma_stage_advances(c, outs[0]);
        lemma_passed_stage_not_visited(next_control(c, outs[0]), outs.drop_first(), x);
    }
}

/// Every step but the end is performed at most once in a run.
pub proof fn lemma_step_at_most_once(c: Control, outs: Seq<Outcome>, x: Stage)
    requires
        x != Stage::Finished,
    ensures
        visits(c, outs, x) <= 1,
    decreases outs.len(),
{
    if outs.len() > 0 {
        let n = next_control(c, outs[0]);
        lemma_stage_advances(c, outs[0]);
        if c.stage == x {
            lemma_passed_stage_not_visited(n, outs.drop_first(), x);
        } else {
            lemma_step_at_most_once(n, outs.drop_first(), x);
        }
    }
}

/// Without a Linux or process section, the run fails at once: no setup step
/// is performed, in particular no process is launched, no pid file written
/// and no record saved.
pub proof fn lemma_missing_section_performs_no_setup(c: Control, outs: Seq<Outcome>, x: Stage)
    requires
        c.stage == Stage::Start,
        !(c.has_linux && c.has_process),
        is_setup(x),
        x != Stage::Start,
    ensures
        visits(c, outs, x) == 0,
{
    if outs.len() > 0 {
        let n = next_control(c, outs[0]);
        lemma_passed_stage_not_visited(n, outs.drop_first(), x);
    }
}

/// The first step of a builder without a Linux or process section reports
/// the missing section as the setup failure.
pub proof fn lemma_missing_section_reported(
    b: ContainerBuilderImpl,
    post: ContainerBuilderImpl,
    a: Action,
)
    requires
        b.stage == Stage::Start,
        b.spec.linux is None || b.spec.process is None,
        b.transition(&post, Event::Done, a),
    ensures
        post.stage == Stage::Finished || post.stage == Stage::CreateCgroupManager,
        post.stage == Stage::CreateCgroupManager ==> post.failure == Some(
            LibcontainerError::MissingSpec(MissingSpecError::Process),
        ),
        post.stage == Stage::Finished ==> (a matches Action::Finish(Err(err)) && err.outer
            == LibcontainerError::MissingSpec(
            if b.spec.linux is None {
                MissingSpecError::Linux
            } else {
                MissingSpecError::Process
            },
        )),
{
}

/// A process that joins a running container never rolls back: no cgroup
/// removal, resource-control deletion or root removal is ever asked for.
pub proof fn lemma_tenant_never_rolls_back(c: Control, outs: Seq<Outcome>, x: Stage)
    requires
        !c.init,
        !is_rollback(c.stage),
        is_rollback(x),
    ensures
        visits(c, outs, x) == 0,
    decreases outs.len(),
{
    if outs.len() > 0 {
        lemma_stage_advances(c, outs[0]);
        lemma_tenant_never_rolls_back(next_control(c, outs[0]), outs.drop_first(), x);
    }
}

/// A setup step of a new container that fails once the Linux section is
/// known starts rollback, on behalf of that failure.
pub proof fn lemma_init_failure_rolls_back(
    b: ContainerBuilderImpl,
    post: ContainerBuilderImpl,
    m: String,
    a: Action,
)
    requires
        is_init(b.container_type),
        b.spec.linux is Some,
        is_setup(b.stage),
        b.stage != Stage::Start,
        b.transition(&post, Event::Failed(m), a),
    ensures
        post.stage == Stage::CreateCgroupManager,
        a is CreateCgroupManager,
        post.failure is Some,
        b.setup_error_fits(Event::Failed(m), post.failure->0),
{
}

/// Rollback keeps the setup failure, and the end of rollback reports it
/// together with what rollback met: a rollback error never stands alone.
pub proof fn lemma_rollback_keeps_failure(
    b: ContainerBuilderImpl,
    post: ContainerBuilderImpl,
    e: Event,
    a: Action,
)
    requires
        is_rollback(b.stage),
        b.transition(&post, e, a),
    ensures
        is_rollback(post.stage) ==> post.failure == b.failure,
        post.stage == Stage::Finished ==> (a matches Action::Finish(Err(err)) && b.failure
            == Some(err.outer)),
{
    lemma_stage_advances(b.control(), outcome(e));
}

/// With no namespace declared the process is never made non-dumpable.
pub proof fn lemma_no_namespaces_stays_dumpable(c: Control, outs: Seq<Outcome>)
    requires
        !c.namespaced,
        c.stage != Stage::SetNonDumpable,
    ensures
        visits(c, outs, Stage::SetNonDumpable) == 0,
    decreases outs.len(),
{
    if outs.len() > 0 {
        lemma_stage_advances(c, outs[0]);
        lemma_no_namespaces_stays_dumpable(next_control(c, outs[0]), outs.drop_first());
    }
}

/// The process is made non-dumpable only with a namespace declared, only
/// once the OOM score write (if one is declared) has succeeded, and at most
/// once in a run.
pub proof fn lemma_non_dumpable_after_oom(c: Control, o: Outcome, outs: Seq<Outcome>)
    requires
        c.stage != Stage::SetNonDumpable,
        next_control(c, o).stage == Stage::SetNonDumpable,
    ensures
        c.namespaced,
        o.ok,
        c.has_oom_score_adj ==> c.stage == Stage::WriteOomScoreAdj,
        c.stage == Stage::WriteOomScoreAdj || c.stage == Stage::CreateNotifyListener,
        visits(c, outs, Stage::SetNonDumpable) <= 1,
{
    lemma_step_at_most_once(c, outs, Stage::SetNonDumpable);
}

/// With a namespace declared the process is launched only right after it
/// was made non-dumpable.
pub proof fn lemma_namespaced_launch_follows_non_dumpable(c: Control, o: Outcome)
    requires
        c.namespaced,
        c.stage != Stage::LaunchMainProcess,
        next_control(c, o).stage == Stage::LaunchMainProcess,
    ensures
        c.stage == Stage::SetNonDumpable,
        o.ok,
{
}

/// The record is published in one transition, right after the launcher
/// produced the process: status, creator, pid and the resource-control flag
/// change together, and exactly one save is asked for.
pub proof fn lemma_record_published_at_once(
    b: ContainerBuilderImpl,
    post: ContainerBuilderImpl,
    e: Event,
    a: Action,
)
    requires
        b.stage != Stage::SaveContainer,
        b.transition(&post, e, a),
        post.stage == Stage::SaveContainer,
    ensures
        a is SaveContainer,
        b.stage == Stage::ReadEffectiveUid,
        rank(b.stage) > rank(Stage::LaunchMainProcess),
        post.container is Some,
        post.container->0.status == ContainerStatus::Created,
        post.container->0.creator == Some(e->EffectiveUid_0),
        post.container->0.pid == Some(b.init_pid),
        post.container->0.clean_up_intel_rdt_subdirectory == Some(b.clean_up_intel_rdt),
{
}

/// A record is saved at most once in a run.
pub proof fn lemma_single_save(c: Control, outs: Seq<Outcome>)
    ensures
        visits(c, outs, Stage::SaveContainer) <= 1,
{
    lemma_step_at_most_once(c, outs, Stage::SaveContainer);
}

/// Create-runtime hooks run at most once, and never for a process that
/// joins a running container.
pub proof fn lemma_hooks_at_most_once(c: Control, outs: Seq<Outcome>)
    ensures
        visits(c, outs, Stage::RunCreateRuntimeHooks) <= 1,
        !c.init && c.stage != Stage::RunCreateRuntimeHooks ==> visits(
            c,
            outs,
            Stage::RunCreateRuntimeHooks,
        ) == 0,
{
    lemma_step_at_most_once(c, outs, Stage::RunCreateRuntimeHooks);
    if !c.init && c.stage != Stage::RunCreateRuntimeHooks {
        lemma_tenant_skips_hooks(c, outs);
    }
}

proof fn lemma_tenant_skips_hooks(c: Control, outs: Seq<Outcome>)
    requires
        !c.init,
        c.stage != Stage::RunCreateRuntimeHooks,
    ensures
        visits(c, outs, Stage::RunCreateRuntimeHooks) == 0,
    decreases outs.len(),
{
    if outs.len() > 0 {
        lemma_stage_advances(c, outs[0]);
        lemma_tenant_skips_hooks(next_control(c, outs[0]), outs.drop_first());
    }
}

/// When the cgroup removal, the resource-control deletion and the root
/// removal all fail, the reported rollback error names the three causes,
/// in that order, beside the setup failure.
pub proof fn lemma_rollback_reports_every_failure(
    b0: ContainerBuilderImpl,
    b1: ContainerBuilderImpl,
    b2: ContainerBuilderImpl,
    b3: ContainerBuilderImpl,
    m1: String,
    m2: String,
    m3: String,
    a1: Action,
    a2: Action,
    a3: Action,
)
    requires
        b0.stage == Stage::RemoveCgroup,
        b0.cleanup_errors@.len() == 0,
        b0.container is Some,
        b0.container->0.needs_rdt_cleanup(),
        b0.transition(&b1, Event::Failed(m1), a1),
        b1.transition(&b2, Event::Failed(m2), a2),
        b2.transition(&b3, Event::Failed(m3), a3),
    ensures
        a3 matches Action::Finish(Err(err)) && b0.failure == Some(err.outer) && (
        err.cleanup matches Some(LibcontainerError::Other(t)) && t@ == "failed to cleanup container: "@
            + m1@ + seq![';'] + m2@ + seq![';'] + m3@),
{
    assert(b1.stage == Stage::DeleteResctrlSubdirectory);
    assert(b2.stage == Stage::RemoveContainerRoot);
    assert(b3.stage == Stage::Finished);
    assert(b3.cleanup_errors@ == seq![m1, m2, m3]);
    assert(texts(seq![m1, m2, m3]) =~= seq![m1@, m2@, m3@]);
    lemma_three_failures_joined(m1@, m2@, m3@);
    assert(cleanup_message(b3.cleanup_errors@) == "failed to cleanup container: "@ + (m1@ + seq![
        ';',
    ] + m2@ + seq![';'] + m3@));
    assert("failed to cleanup container: "@ + (m1@ + seq![';'] + m2@ + seq![';'] + m3@)
        =~= "failed to cleanup container: "@ + m1@ + seq![';'] + m2@ + seq![';'] + m3@);
}

/// `bs` are the successive builders of a run of `step`, fed the events
/// `es` and answering with the actions `acts`.
pub open spec fn is_run(bs: Seq<ContainerBuilderImpl>, es: Seq<Event>, acts: Seq<Action>) -> bool {
    &&& bs.len() == es.len() + 1
    &&& acts.len() == es.len()
    &&& forall|i: int|
        0 <= i < es.len() ==> bs[i].transition(&bs[i + 1], #[trigger] es[i], acts[i])
}

/// How many builders of a run wait at stage `x`.
pub open spec fn times_at(bs: Seq<ContainerBuilderImpl>, x: Stage) -> nat
    decreases bs.len(),
{
    if bs.len() == 0 {
        0
    } else {
        (if bs[0].stage == x {
            1nat
        } else {
            0nat
        }) + times_at(bs.drop_first(), x)
    }
}

/// A run of `step` visits the stages that the transition relation gives.
pub proof fn lemma_run_follows_relation(
    bs: Seq<ContainerBuilderImpl>,
    es: Seq<Event>,
    acts: Seq<Action>,
    x: Stage,
)
    requires
        is_run(bs, es, acts),
    ensures
        times_at(bs, x) == visits(bs[0].control(), es.map_values(|e: Event| outcome(e)), x),
    decreases es.len(),
{
    let outs = es.map_values(|e: Event| outcome(e));
    if es.len() > 0 {
        let e0 = es[0];
        assert(bs[0].transition(&bs[1], e0, acts[0]));
        let rest = bs.drop_first();
        assert(is_run(rest, es.drop_first(), acts.drop_first())) by {
            assert forall|i: int| 0 <= i < es.drop_first().len() implies rest[i].transition(
                &rest[i + 1],
                #[trigger] es.drop_first()[i],
                acts.drop_first()[i],
            ) by {
                let ei = es[i + 1];
                assert(bs[i + 1].transition(&bs[i + 2], ei, acts[i + 1]));
            }
        }
        assert(rest[0] == bs[1]);
        assert(outs[0] == outcome(es[0]));
        lemma_run_follows_relation(rest, es.drop_first(), acts.drop_first(), x);
        assert(es.drop_first().map_values(|e: Event| outcome(e)) =~= outs.drop_first());
        assert(bs[1].control() == next_control(bs[0].control(), outs[0]));
    } else {
        assert(bs.drop_first().len() == 0);
        assert(times_at(bs.drop_first(), x) == 0);
    }
}

/// In any run of `step`: the process is made non-dumpable at most once, and
/// never without a declared namespace; create-runtime hooks run at most
/// once, and never for a process that joins a running container.
pub proof fn lemma_run_performs_guarded_steps_once(
    bs: Seq<ContainerBuilderImpl>,
    es: Seq<Event>,
    acts: Seq<Action>,
)
    requires
        is_run(bs, es, acts),
        bs[0].stage == Stage::Start,
    ensures
        times_at(bs, Stage::SetNonDumpable) <= 1,
        bs[0].control().namespaced == false ==> times_at(bs, Stage::SetNonDumpable) == 0,
        times_at(bs, Stage::RunCreateRuntimeHooks) <= 1,
        !is_init(bs[0].container_type) ==> times_at(bs, Stage::RunCreateRuntimeHooks) == 0,
        !is_init(bs[0].container_type) ==> times_at(bs, Stage::RemoveCgroup) == 0
            && times_at(bs, Stage::RemoveContainerRoot) == 0 && times_at(
            bs,
            Stage::DeleteResctrlSubdirectory,
        ) == 0,
{
    let c = bs[0].control();
    let outs = es.map_values(|e: Event| outcome(e));
    lemma_run_follows_relation(bs, es, acts, Stage::SetNonDumpable);
    lemma_run_follows_relation(bs, es, acts, Stage::RunCreateRuntimeHooks);
    lemma_run_follows_relation(bs, es, acts, Stage::RemoveCgroup);
    lemma_run_follows_relation(bs, es, acts, Stage::RemoveContainerRoot);
    lemma_run_follows_relation(bs, es, acts, Stage::DeleteResctrlSubdirectory);
    lemma_step_at_most_once(c, outs, Stage::SetNonDumpable);
    if !c.namespaced {
        lemma_no_namespaces_stays_dumpable(c, outs);
    }
    lemma_hooks_at_most_once(c, outs);
    if !c.init {
        lemma_tenant_never_rolls_back(c, outs, Stage::RemoveCgroup);
        lemma_tenant_never_rolls_back(c, outs, Stage::RemoveContainerRoot);
        lemma_tenant_never_rolls_back(c, outs, Stage::DeleteResctrlSubdirectory);
    }
}

} // verus!
