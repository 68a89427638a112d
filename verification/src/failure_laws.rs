//! Why runs and cancellations of jobs fail on a store that refuses nothing without cause.
use vstd::prelude::*;

use crate::domain::{
    AuditRecordModel, JobEvent, JobEventModel, JobRecord, JobRecordModel, JobStatus,
    JobStatusTransitionError, LedgerTimestamp, PolicyDecisionModel, ToolInvocationModel,
    ToolResultModel,
};
use crate::ids::{
    AuditRecordId, JobEventId, JobId, PolicyDecisionId, ToolInvocationId, ToolResultId,
};
use crate::job_lifecycle;
use crate::job_run;
use crate::job_run::{JobRunModel, Told};
use crate::output_handling;
use crate::policy::{DefaultPolicyEngine, PolicyEngine, PolicyInputModel};
use crate::requests::{
    CancelJobReceiptModel, RuntimeErrorModel, RuntimeHost, RuntimeJobReceiptModel,
    RuntimeJobRequestModel, RuntimeTool,
};
use crate::runtime;
use crate::runtime_laws;
use crate::store::StoreErrorModel;
use crate::store_model::StoreModel;
use crate::tool_output::RenderedToolOutputModel;

verus! {

/// An event of this identifier is there already.
pub open spec fn duplicate_event(id: Seq<char>) -> StoreErrorModel {
    StoreErrorModel::DuplicateId { collection: "job_events"@, id: JobEventId::debug_form(id) }
}

/// The error names an identifier under which a record is stored.
pub open spec fn names_stored_identifier(store: StoreModel, error: StoreErrorModel) -> bool {
    ||| exists|id: Seq<char>| #[trigger]
        store.event(id) is Some && error == duplicate_event(id)
    ||| exists|id: Seq<char>| #[trigger]
        store.job(id) is Some && error == (StoreErrorModel::DuplicateId {
            collection: "jobs"@,
            id: JobId::debug_form(id),
        })
    ||| exists|id: Seq<char>| #[trigger]
        store.policy_decision(id) is Some && error == (StoreErrorModel::DuplicateId {
            collection: "policy_decisions"@,
            id: PolicyDecisionId::debug_form(id),
        })
    ||| exists|id: Seq<char>| #[trigger]
        store.tool_invocation(id) is Some && error == (StoreErrorModel::DuplicateId {
            collection: "tool_invocations"@,
            id: ToolInvocationId::debug_form(id),
        })
    ||| exists|id: Seq<char>| #[trigger]
        store.tool_result(id) is Some && error == (StoreErrorModel::DuplicateId {
            collection: "tool_results"@,
            id: ToolResultId::debug_form(id),
        })
    ||| exists|id: Seq<char>| #[trigger]
        store.audit_record(id) is Some && error == (StoreErrorModel::DuplicateId {
            collection: "audit_records"@,
            id: AuditRecordId::debug_form(id),
        })
}

/// The error names an identifier that was drawn for two events that go together.
pub open spec fn names_shared_identifier(error: StoreErrorModel) -> bool {
    exists|id: Seq<char>| #[trigger]
        crate::ids::is_id_text("evt_"@, id) && error == duplicate_event(id)
}

/// The clock stood before the last thing that happened to the job.
pub open spec fn clock_stood_back(job: JobRecordModel, problem: JobStatusTransitionError) -> bool {
    match problem {
        JobStatusTransitionError::NonMonotonicTimestamp { at, latest } => {
            &&& 0 <= at.unix_millis < latest.unix_millis
            &&& latest == job.latest_time()
        },
        JobStatusTransitionError::InvalidTransition { .. } => false,
    }
}

/// The job came to an end, and not to a failure: it can no longer be marked failed.
pub open spec fn ended_otherwise(job: JobRecordModel, problem: JobStatusTransitionError) -> bool {
    &&& job.status is Succeeded || job.status is Canceled
    &&& problem == (JobStatusTransitionError::InvalidTransition {
        from: job.status,
        to: JobStatus::Failed,
    })
}

/// What the engine decides is about the repository that it was asked about.
pub open spec fn keeps_to_the_repository<P: PolicyEngine>(engine: &P) -> bool {
    forall|input: PolicyInputModel, decision: PolicyDecisionModel| #[trigger]
        runtime::decides(engine, input, decision) ==> decision.repository_id == input.repository_id
}

/// The built-in policy decides about the repository that it was asked about.
pub proof fn law_default_policy_keeps_to_the_repository()
    ensures
        keeps_to_the_repository(&DefaultPolicyEngine),
{
}

proof fn lemma_update_with_taken_event(
    store: StoreModel,
    job: JobRecordModel,
    event: JobEventModel,
)
    requires
        store.job(job.id) is Some,
        store.job(job.id)->0.repository_id == job.repository_id,
        store.event(event.id) is Some,
    ensures
        store.update_job(job, event) == Err::<(StoreModel, JobEventModel), StoreErrorModel>(
            duplicate_event(event.id),
        ),
{
    reveal(StoreModel::event_problem);
}

/// An update that a store refuses names an identifier that is taken.
proof fn lemma_update_names_taken(
    run: JobRunModel,
    before: StoreModel,
    now: StoreModel,
    job: JobRecordModel,
    told: Told,
    error: RuntimeErrorModel,
)
    requires
        run.leads(before, now),
        now.valid(),
        runtime_laws::of_one_repository(run),
        job.id == run.job.id,
        job.repository_id == run.job.repository_id,
        forall|draft: JobEventModel| #[trigger]
            job_run::tells(draft, told) ==> runtime_laws::speaks_of(run, draft),
        now.last_sequence < u64::MAX,
        job_run::update_refused(now, job, told, error),
    ensures
        names_stored_identifier(now, error->Store_0),
{
    let draft = choose|draft: JobEventModel|
        {
            &&& #[trigger] now.update_job(job, draft) == Err::<
                (StoreModel, JobEventModel),
                StoreErrorModel,
            >(error->Store_0)
            &&& job_run::tells(draft, told)
        };
    if now.event(draft.id) is None {
        runtime_laws::law_stores_take_every_step(run, before, now, job, draft);
    } else {
        runtime_laws::lemma_run_is_stored(run, before, now);
        lemma_update_with_taken_event(now, job, draft);
    }
}

/// A move that is refused to a job that may be moved names an identifier that is taken, or
/// came before its time.
proof fn lemma_move_fails_for_a_reason(
    run: JobRunModel,
    before: StoreModel,
    now: StoreModel,
    status: JobStatus,
    told: Told,
    error: RuntimeErrorModel,
)
    requires
        run.leads(before, now),
        now.valid(),
        runtime_laws::of_one_repository(run),
        run.job.status.allows(status),
        forall|draft: JobEventModel| #[trigger]
            job_run::tells(draft, told) ==> runtime_laws::speaks_of(run, draft),
        now.last_sequence < u64::MAX,
        job_run::move_refused(now, run.job, status, told, error, true),
    ensures
        match error {
            RuntimeErrorModel::Store(problem) => names_stored_identifier(now, problem),
            RuntimeErrorModel::JobStatusTransition(problem) => clock_stood_back(run.job, problem),
            _ => false,
        },
{
    let at = choose|at: LedgerTimestamp|
        at.unix_millis >= 0 && #[trigger] job_run::move_refused_at(
            now,
            run.job,
            status,
            at,
            told,
            error,
            true,
        );
    if run.job.refusal(status, at) is None {
        lemma_update_names_taken(run, before, now, run.job.moved_to(status, at), told, error);
    }
}

/// A result that a store refuses, or the audit record on it, names an identifier that is
/// taken.
proof fn lemma_conclusion_names_taken(
    run: JobRunModel,
    before: StoreModel,
    now: StoreModel,
    request: RuntimeJobRequestModel,
    capability: Seq<char>,
    result: ToolResultModel,
    audit: AuditRecordModel,
    error: RuntimeErrorModel,
)
    requires
        before.valid(),
        now.valid(),
        run.leads(before, now),
        runtime_laws::of_one_repository(run),
        runtime::is_job_for(run.job, request),
        run.policy_decision is Some,
        run.tool_invocation is Some,
        runtime::without_result(run),
        run.tool_invocation->0.policy_decision_id == run.policy_decision->0.id,
        output_handling::result_problem(run.tool_invocation->0, result) is None,
        crate::ids::is_id_text("res_"@, result.id),
        runtime::is_audit_for(
            audit,
            JobRunModel { tool_result: Some(result), ..run },
            request,
            capability,
        ),
        now.last_sequence + 2 <= u64::MAX,
        job_run::conclusion_refused(now, run, result, audit, error),
    ensures
        names_stored_identifier(now, error->Store_0) || names_shared_identifier(error->Store_0),
{
    let (first, second) = choose|first: JobEventModel, second: JobEventModel|
        {
            &&& #[trigger] now.record_result_and_audit(run.job, result, first, audit, second)
                == Err::<(StoreModel, (JobEventModel, JobEventModel)), StoreErrorModel>(
                error->Store_0,
            )
            &&& job_run::tells(
                first,
                job_run::result_told(
                    run.job,
                    run.policy_decision->0,
                    run.tool_invocation->0,
                    result,
                ),
            )
            &&& job_run::tells(
                second,
                job_run::audit_told(
                    run.job,
                    run.policy_decision->0,
                    run.tool_invocation->0,
                    result,
                    audit,
                ),
            )
        };
    runtime_laws::lemma_run_is_stored(run, before, now);
    runtime_laws::lemma_result_fits(run, before, now, result);
    if now.tool_result(result.id) is None {
        let (with_result, _) = now.create_tool_result(result)->Ok_0;
        crate::store_laws::law_create_tool_result_keeps_validity(now, result, with_result);
        assert(with_result.event(first.id) == now.event(first.id));
        if now.event(first.id) is Some {
            lemma_update_with_taken_event(with_result, run.job, first);
        } else {
            let run1 = JobRunModel { tool_result: Some(result), ..run };
            assert(with_result =~= run1.state_from(before));
            runtime_laws::law_stores_take_every_step(run1, before, with_result, run.job, first);
            let (between, stored) = with_result.update_job(run.job, first)->Ok_0;
            crate::store_laws::law_update_job_keeps_validity(
                with_result,
                run.job,
                first,
                between,
                stored,
            );
            assert(between.audit_problem(audit) is None) by {
                reveal(StoreModel::audit_problem);
            }
            assert(between.audit_record(audit.id) == now.audit_record(audit.id));
            if now.audit_record(audit.id) is None {
                let (with_audit, _) = between.create_audit_record(audit)->Ok_0;
                crate::table::lemma_lookup_push::<JobEvent>(now.events, stored, second.id);
                assert(with_audit.event(second.id) == between.event(second.id));
                if now.event(second.id) is None && second.id != first.id {
                    runtime_laws::law_stores_take_results(
                        run,
                        before,
                        now,
                        request,
                        capability,
                        result,
                        first,
                        audit,
                        second,
                    );
                } else {
                    lemma_update_with_taken_event(with_audit, run.job, second);
                }
            }
        }
    }
}

/// What a run has written, up to the invocation of its tool, is about one repository.
proof fn lemma_judged_is_of_one_repository<T: RuntimeTool, P: PolicyEngine>(
    run: JobRunModel,
    before: StoreModel,
    request: RuntimeJobRequestModel,
    tool: &T,
    engine: &P,
    capability: Seq<char>,
)
    requires
        keeps_to_the_repository(engine),
        runtime::judged(run, before, request, tool, engine, capability),
        run.tool_invocation is Some ==> runtime::is_invocation_for(
            run.tool_invocation->0,
            run,
            request,
            tool,
            capability,
        ),
        run.tool_result is Some ==> {
            &&& run.tool_invocation is Some
            &&& run.tool_result->0.invocation_id == run.tool_invocation->0.id
            &&& crate::ids::is_id_text("res_"@, run.tool_result->0.id)
        },
        run.audit_record is Some ==> runtime::is_audit_for(
            run.audit_record->0,
            run,
            request,
            capability,
        ),
    ensures
        runtime_laws::of_one_repository(run),
{
}

/// Where a reliable store knows the repository of a request and has numbers left, and the
/// policy decides about that repository, a run fails with an error of the store only where
/// an identifier that was drawn for it is taken, and on a move of its job only where the
/// clock stood before the job's own time, or where the job had ended and its result could
/// not be rendered again. All that is left is what the tool and the host answered, and hints
/// that are not in order.
pub proof fn law_runs_fail_for_a_reason<T: RuntimeTool, P: PolicyEngine, H: RuntimeHost>(
    before: StoreModel,
    now: StoreModel,
    request: RuntimeJobRequestModel,
    tool: &T,
    engine: &P,
    host: &H,
    outcome: Result<RuntimeJobReceiptModel, RuntimeErrorModel>,
)
    requires
        before.valid(),
        now.valid(),
        before.last_sequence + 8 <= u64::MAX,
        before.repository(request.repository_id) is Some,
        keeps_to_the_repository(engine),
        runtime::ran(before, now, request, tool, engine, host, outcome, true),
    ensures
        match outcome {
            Err(RuntimeErrorModel::Store(problem)) => {
                ||| names_stored_identifier(now, problem)
                ||| names_shared_identifier(problem)
            },
            Err(RuntimeErrorModel::JobStatusTransition(problem)) => {
                &&& now.jobs.len() == before.jobs.len() + 1
                &&& {
                    ||| clock_stood_back(now.jobs.last(), problem)
                    ||| {
                        &&& ended_otherwise(now.jobs.last(), problem)
                        &&& now.tool_results.len() == before.tool_results.len() + 1
                    }
                }
            },
            _ => true,
        },
{
    if outcome is Err {
        let error = outcome->Err_0;
        if now == before && runtime::turned_down(before, request, tool, error, true) {
            if error is Store {
                lemma_submission_names_taken(before, request, error);
            }
        } else {
            let run = choose|run: JobRunModel|
                {
                    &&& #[trigger] run.leads(before, now)
                    &&& runtime::broke_off(
                        run,
                        before,
                        now,
                        request,
                        tool,
                        engine,
                        host,
                        error,
                        true,
                    )
                };
            assert(now.jobs.last() == run.job);
            if runtime::decision_refused(run, before, now, request, tool, engine, error, true) {
                lemma_decision_names_taken(run, before, now, request, tool, engine, error);
            } else {
                let capability = choose|capability: Seq<char>|
                    {
                        &&& #[trigger] runtime::judged(
                            run,
                            before,
                            request,
                            tool,
                            engine,
                            capability,
                        )
                        &&& breaks_off_judged(
                            run,
                            now,
                            request,
                            tool,
                            host,
                            capability,
                            error,
                        )
                    };
                lemma_judged_fails_for_a_reason(
                    run,
                    before,
                    now,
                    request,
                    tool,
                    engine,
                    host,
                    capability,
                    error,
                );
            }
        }
    }
}

/// How a run on a reliable store breaks off once the policy has decided.
spec fn breaks_off_judged<T: RuntimeTool, H: RuntimeHost>(
    run: JobRunModel,
    now: StoreModel,
    request: RuntimeJobRequestModel,
    tool: &T,
    host: &H,
    capability: Seq<char>,
    error: RuntimeErrorModel,
) -> bool {
    ||| runtime::stop_refused(run, now, error, true)
    ||| runtime::start_refused(run, now, request, tool, capability, error, true)
    ||| {
        &&& runtime::working(run, request, tool, capability)
        &&& {
            ||| runtime::failed(run, error) && runtime::undelivered(
                run,
                request,
                tool,
                host,
                error,
            )
            ||| runtime::failing_refused(run, now, request, tool, host, error, true)
            ||| runtime::delivery_refused(
                run,
                now,
                request,
                tool,
                host,
                capability,
                error,
                true,
            )
            ||| {
                &&& runtime::finished(run, request, capability)
                &&& runtime::not_rendered_again(run, now, request, tool, host, error, true)
            }
        }
    }
}

proof fn lemma_submission_names_taken(
    store: StoreModel,
    request: RuntimeJobRequestModel,
    error: RuntimeErrorModel,
)
    requires
        store.valid(),
        store.last_sequence < u64::MAX,
        store.repository(request.repository_id) is Some,
        job_run::submission_refused(store, request, error),
    ensures
        names_stored_identifier(store, error->Store_0),
{
    let (job, draft) = choose|job: JobRecordModel, draft: JobEventModel|
        {
            &&& #[trigger] store.create_job(job, draft) == Err::<
                (StoreModel, JobEventModel),
                StoreErrorModel,
            >(error->Store_0)
            &&& job_run::is_new_job(job, request)
            &&& job_run::tells(draft, job_run::submission(job))
        };
    if store.job(job.id) is None {
        if store.event(draft.id) is None {
            runtime_laws::law_stores_take_new_jobs(store, request, job, draft);
        } else {
            reveal(StoreModel::event_problem);
        }
    }
}

proof fn lemma_decision_names_taken<T: RuntimeTool, P: PolicyEngine>(
    run: JobRunModel,
    before: StoreModel,
    now: StoreModel,
    request: RuntimeJobRequestModel,
    tool: &T,
    engine: &P,
    error: RuntimeErrorModel,
)
    requires
        now.valid(),
        now.last_sequence < u64::MAX,
        keeps_to_the_repository(engine),
        run.leads(before, now),
        runtime::opened(run, request),
        runtime::decision_refused(run, before, now, request, tool, engine, error, true),
    ensures
        error is Store,
        names_stored_identifier(now, error->Store_0),
{
    let (capability, decision) = choose|capability: Seq<char>, decision: PolicyDecisionModel|
        {
            &&& #[trigger] runtime::decided_for(
                before,
                request,
                tool,
                engine,
                capability,
                decision,
            )
            &&& {
                ||| {
                    &&& run.policy_decision is None
                    &&& now.create_policy_decision(decision) == Err::<
                        (StoreModel, ()),
                        StoreErrorModel,
                    >(error->Store_0)
                }
                ||| {
                    &&& run.policy_decision == Some(decision)
                    &&& crate::ids::is_id_text("pol_"@, decision.id)
                    &&& job_run::update_refused(
                        now,
                        JobRecordModel {
                            policy_summary: Some(job_run::summary_of(decision)),
                            ..run.job
                        },
                        job_run::decided(run.job, decision),
                        error,
                    )
                }
            }
        };
    assert(decision.repository_id == run.job.repository_id);
    if run.policy_decision is None {
        if now.policy_decision(decision.id) is None {
            runtime_laws::law_stores_take_decisions(run, before, now, decision);
        } else {
            runtime_laws::lemma_run_is_stored(run, before, now);
        }
    } else {
        let job = JobRecordModel {
            policy_summary: Some(job_run::summary_of(decision)),
            ..run.job
        };
        lemma_update_names_taken(
            run,
            before,
            now,
            job,
            job_run::decided(run.job, decision),
            error,
        );
    }
}

proof fn lemma_start_fails_for_a_reason<T: RuntimeTool, P: PolicyEngine>(
    run: JobRunModel,
    before: StoreModel,
    now: StoreModel,
    request: RuntimeJobRequestModel,
    tool: &T,
    engine: &P,
    capability: Seq<char>,
    error: RuntimeErrorModel,
)
    requires
        now.valid(),
        now.last_sequence < u64::MAX,
        keeps_to_the_repository(engine),
        run.leads(before, now),
        runtime::judged(run, before, request, tool, engine, capability),
        runtime::start_refused(run, now, request, tool, capability, error, true),
    ensures
        match error {
            RuntimeErrorModel::Store(problem) => names_stored_identifier(now, problem),
            RuntimeErrorModel::JobStatusTransition(problem) => clock_stood_back(run.job, problem),
            _ => false,
        },
{
    if run.events.len() == 2 {
        lemma_judged_is_of_one_repository(run, before, request, tool, engine, capability);
        lemma_move_fails_for_a_reason(
            run,
            before,
            now,
            JobStatus::Running,
            runtime::start_told(run),
            error,
        );
    } else {
        let invocation = choose|invocation: ToolInvocationModel|
            {
                &&& #[trigger] runtime::is_invocation_for(
                    invocation,
                    run,
                    request,
                    tool,
                    capability,
                )
                &&& {
                    ||| {
                        &&& run.tool_invocation is None
                        &&& now.create_tool_invocation(invocation) == Err::<
                            (StoreModel, ()),
                            StoreErrorModel,
                        >(error->Store_0)
                    }
                    ||| {
                        &&& run.tool_invocation == Some(invocation)
                        &&& job_run::update_refused(
                            now,
                            run.job,
                            job_run::invoked(run.job, run.policy_decision->0, invocation),
                            error,
                        )
                    }
                }
            };
        lemma_judged_is_of_one_repository(run, before, request, tool, engine, capability);
        if run.tool_invocation is None {
            if now.tool_invocation(invocation.id) is None {
                runtime_laws::law_stores_take_invocations(
                    run,
                    before,
                    now,
                    request,
                    tool,
                    capability,
                    invocation,
                );
            } else {
                runtime_laws::lemma_run_is_stored(run, before, now);
                reveal(StoreModel::invocation_problem);
            }
        } else {
            lemma_update_names_taken(
                run,
                before,
                now,
                run.job,
                job_run::invoked(run.job, run.policy_decision->0, invocation),
                error,
            );
        }
    }
}

proof fn lemma_delivery_fails_for_a_reason<T: RuntimeTool, P: PolicyEngine, H: RuntimeHost>(
    run: JobRunModel,
    before: StoreModel,
    now: StoreModel,
    request: RuntimeJobRequestModel,
    tool: &T,
    engine: &P,
    host: &H,
    capability: Seq<char>,
    error: RuntimeErrorModel,
)
    requires
        before.valid(),
        now.valid(),
        before.last_sequence + 8 <= u64::MAX,
        keeps_to_the_repository(engine),
        run.leads(before, now),
        runtime::judged(run, before, request, tool, engine, capability),
        runtime::working(run, request, tool, capability),
        runtime::delivery_refused(run, now, request, tool, host, capability, error, true),
    ensures
        match error {
            RuntimeErrorModel::Store(problem) => names_stored_identifier(now, problem)
                || names_shared_identifier(problem),
            RuntimeErrorModel::JobStatusTransition(problem) => clock_stood_back(run.job, problem),
            _ => false,
        },
{
    let (raw, settled, first, changed) = choose|
        raw: ToolResultModel,
        settled: ToolResultModel,
        first: RenderedToolOutputModel,
        changed: bool,
    |
        {
            &&& runtime::results_in(tool, run.tool_invocation->0, request, raw)
            &&& #[trigger] output_handling::handled(
                host,
                request,
                run.tool_invocation->0,
                raw,
                settled,
                first,
                changed,
            )
            &&& runtime::finish_refused(run, now, request, capability, settled, error, true)
        };
    runtime_laws::lemma_fitting_keeps_identity(host, request, raw, settled, changed);
    lemma_judged_is_of_one_repository(run, before, request, tool, engine, capability);
    if run.events.len() == 4 {
        let audit = choose|audit: AuditRecordModel|
            {
                &&& #[trigger] runtime::is_audit_for(
                    audit,
                    JobRunModel { tool_result: Some(settled), ..run },
                    request,
                    capability,
                )
                &&& job_run::conclusion_refused(now, run, settled, audit, error)
            };
        lemma_conclusion_names_taken(
            run,
            before,
            now,
            request,
            capability,
            settled,
            audit,
            error,
        );
    } else {
        lemma_move_fails_for_a_reason(
            run,
            before,
            now,
            job_run::final_status(settled.status),
            runtime::end_told(run),
            error,
        );
    }
}

proof fn lemma_judged_fails_for_a_reason<T: RuntimeTool, P: PolicyEngine, H: RuntimeHost>(
    run: JobRunModel,
    before: StoreModel,
    now: StoreModel,
    request: RuntimeJobRequestModel,
    tool: &T,
    engine: &P,
    host: &H,
    capability: Seq<char>,
    error: RuntimeErrorModel,
)
    requires
        before.valid(),
        now.valid(),
        before.last_sequence + 8 <= u64::MAX,
        keeps_to_the_repository(engine),
        run.leads(before, now),
        runtime::judged(run, before, request, tool, engine, capability),
        breaks_off_judged(run, now, request, tool, host, capability, error),
    ensures
        match error {
            RuntimeErrorModel::Store(problem) => names_stored_identifier(now, problem)
                || names_shared_identifier(problem),
            RuntimeErrorModel::JobStatusTransition(problem) => {
                ||| clock_stood_back(run.job, problem)
                ||| ended_otherwise(run.job, problem) && run.tool_result is Some
            },
            _ => true,
        },
{
    if runtime::stop_refused(run, now, error, true) {
        lemma_judged_is_of_one_repository(run, before, request, tool, engine, capability);
        lemma_move_fails_for_a_reason(
            run,
            before,
            now,
            JobStatus::Blocked,
            runtime::stop_told(run),
            error,
        );
    } else if runtime::start_refused(run, now, request, tool, capability, error, true) {
        lemma_start_fails_for_a_reason(
            run,
            before,
            now,
            request,
            tool,
            engine,
            capability,
            error,
        );
    } else if runtime::failing_refused(run, now, request, tool, host, error, true) {
        let problem = choose|problem: RuntimeErrorModel|
            {
                &&& #[trigger] runtime::undelivered(run, request, tool, host, problem)
                &&& job_run::move_refused(
                    now,
                    run.job,
                    JobStatus::Failed,
                    runtime::failure_told(
                        run,
                        JobStatus::Running,
                        output_handling::failure_message(problem),
                    ),
                    error,
                    true,
                )
            };
        lemma_judged_is_of_one_repository(run, before, request, tool, engine, capability);
        lemma_move_fails_for_a_reason(
            run,
            before,
            now,
            JobStatus::Failed,
            runtime::failure_told(
                run,
                JobStatus::Running,
                output_handling::failure_message(problem),
            ),
            error,
        );
    } else if runtime::delivery_refused(
        run,
        now,
        request,
        tool,
        host,
        capability,
        error,
        true,
    ) {
        lemma_delivery_fails_for_a_reason(
            run,
            before,
            now,
            request,
            tool,
            engine,
            host,
            capability,
            error,
        );
    } else if run.events.len() == 7 {
        lemma_second_rendering_fails_for_a_reason(
            run,
            before,
            now,
            request,
            tool,
            engine,
            host,
            capability,
            error,
        );
    }
}

proof fn lemma_second_rendering_fails_for_a_reason<
    T: RuntimeTool,
    P: PolicyEngine,
    H: RuntimeHost,
>(
    run: JobRunModel,
    before: StoreModel,
    now: StoreModel,
    request: RuntimeJobRequestModel,
    tool: &T,
    engine: &P,
    host: &H,
    capability: Seq<char>,
    error: RuntimeErrorModel,
)
    requires
        now.valid(),
        before.last_sequence + 8 <= u64::MAX,
        keeps_to_the_repository(engine),
        run.leads(before, now),
        runtime::judged(run, before, request, tool, engine, capability),
        runtime::working(run, request, tool, capability),
        runtime::finished(run, request, capability),
        run.events.len() == 7,
        runtime::not_rendered_again(run, now, request, tool, host, error, true),
    ensures
        match error {
            RuntimeErrorModel::Store(problem) => names_stored_identifier(now, problem),
            RuntimeErrorModel::JobStatusTransition(problem) => {
                ||| clock_stood_back(run.job, problem)
                ||| ended_otherwise(run.job, problem)
            },
            _ => false,
        },
{
    let told = runtime::failure_told(
        run,
        run.job.status,
        "tool output rendering failed"@,
    );
    let problem = choose|problem: RuntimeErrorModel|
        {
            &&& #[trigger] runtime::delivered(run, request, tool, host, Err(problem))
            &&& job_run::move_refused(now, run.job, JobStatus::Failed, told, error, true)
        };
    let (raw, first, changed) = choose|
        raw: ToolResultModel,
        first: RenderedToolOutputModel,
        changed: bool,
    |
        runtime::results_in(tool, run.tool_invocation->0, request, raw)
            && #[trigger] output_handling::handled(
            host,
            request,
            run.tool_invocation->0,
            raw,
            run.tool_result->0,
            first,
            changed,
        );
    runtime_laws::lemma_fitting_keeps_identity(host, request, raw, run.tool_result->0, changed);
    lemma_judged_is_of_one_repository(run, before, request, tool, engine, capability);
    if run.job.status is Failed {
        lemma_move_fails_for_a_reason(run, before, now, JobStatus::Failed, told, error);
    }
}

/// Where a reliable store holds a job that can be cancelled and has two numbers left, its
/// cancellation fails with an error of the store only where an identifier that was drawn for
/// it is taken, and otherwise exactly where the time that it is to happen at lies before the
/// job's own.
pub proof fn law_cancellations_fail_for_a_reason(
    before: StoreModel,
    now: StoreModel,
    id: Seq<char>,
    reason: Seq<char>,
    at: LedgerTimestamp,
    outcome: Result<CancelJobReceiptModel, RuntimeErrorModel>,
)
    requires
        before.valid(),
        before.last_sequence + 2 <= u64::MAX,
        crate::ids::is_id_text("job_"@, id),
        before.job(id) is Some,
        job_lifecycle::cancellable(before.job(id)->0.status),
        job_lifecycle::cancel_outcome(before, now, id, reason, at, outcome, true),
    ensures
        ({
            let latest = before.job(id)->0.latest_time();
            if at.unix_millis < latest.unix_millis {
                outcome == Err::<CancelJobReceiptModel, RuntimeErrorModel>(
                    RuntimeErrorModel::JobStatusTransition(
                        JobStatusTransitionError::NonMonotonicTimestamp { at, latest },
                    ),
                )
            } else {
                outcome is Err ==> {
                    let error = outcome->Err_0;
                    &&& error is Store
                    &&& names_stored_identifier(before, error->Store_0)
                        || names_shared_identifier(error->Store_0)
                }
            }
        }),
{
    let job = before.job(id)->0;
    crate::table::lemma_index_of::<JobRecord>(before.jobs, id);
    if at.unix_millis >= job.latest_time().unix_millis && outcome is Err {
        let error = outcome->Err_0;
        let (first, second) = choose|first: JobEventModel, second: JobEventModel|
            {
                &&& #[trigger] before.update_job_twice(
                    job_lifecycle::requested(job, job.latest_event_id),
                    first,
                    job_lifecycle::requested(job, Some(first.id)).moved_to(
                        JobStatus::Canceled,
                        at,
                    ),
                    second,
                ) == Err::<(StoreModel, (JobEventModel, JobEventModel)), StoreErrorModel>(
                    error->Store_0,
                )
                &&& job_run::tells(first, job_lifecycle::cancellation(job, reason))
                &&& job_run::tells(second, job_lifecycle::cancelled(job))
            };
        let first_job = job_lifecycle::requested(job, job.latest_event_id);
        let second_job = job_lifecycle::requested(job, Some(first.id)).moved_to(
            JobStatus::Canceled,
            at,
        );
        if before.event(first.id) is Some {
            lemma_update_with_taken_event(before, first_job, first);
        } else if before.update_job(first_job, first) is Ok {
            let (between, stored) = before.update_job(first_job, first)->Ok_0;
            crate::store_laws::law_update_job_keeps_validity(
                before,
                first_job,
                first,
                between,
                stored,
            );
            crate::table::lemma_lookup_push::<JobEvent>(before.events, stored, second.id);
            if before.event(second.id) is None && second.id != first.id {
                runtime_laws::law_stores_take_cancellations(
                    before,
                    job,
                    reason,
                    first,
                    second,
                    at,
                );
            } else {
                lemma_update_with_taken_event(between, second_job, second);
            }
        } else {
            let place = crate::table::index_of::<JobRecord>(before.jobs, job.id);
            assert(before.job_fits(before.jobs[place]));
            reveal(StoreModel::event_problem);
            assert(before.event_problem(first, None) is None);
        }
    }
}

} // verus!
