//! What holds of every job, whatever its steps report.

use vstd::prelude::*;
use crate::task::{JobAction, JobEvent, JobPhase, JobState, TaskParams, job_next, queued, wants_callback};

verus! {

/// The state of a job after its steps have reported `events`, and the steps
/// it has asked for, one for each event.
pub open spec fn job_run(params: TaskParams, events: Seq<JobEvent>) -> (JobState, Seq<JobAction>)
    decreases events.len(),
{
    if events.len() == 0 {
        (queued(), Seq::<JobAction>::empty())
    } else {
        let before = job_run(params, events.drop_last());
        let step = job_next(params, before.0, events.last());
        (step.0, before.1.push(step.1))
    }
}

/// Whether `action` is among `actions`.
pub open spec fn asked(actions: Seq<JobAction>, action: JobAction) -> bool
    decreases actions.len(),
{
    if actions.len() == 0 {
        false
    } else {
        asked(actions.drop_last(), action) || actions.last() == action
    }
}

/// Whether a callback is among `actions`.
pub open spec fn callback_posted(actions: Seq<JobAction>) -> bool
    decreases actions.len(),
{
    if actions.len() == 0 {
        false
    } else {
        callback_posted(actions.drop_last()) || actions.last() is PostCallback
    }
}

spec fn cleaned_so_far(params: TaskParams, state: JobState, actions: Seq<JobAction>) -> bool {
    let input = asked(actions, JobAction::RemoveInput);
    let output = asked(actions, JobAction::RemoveOutput);
    let callback = wants_callback(params) ==> callback_posted(actions);
    match state.phase {
        JobPhase::Queued => state.failure is None,
        JobPhase::Fetching => state.failure is None,
        JobPhase::Transcoding => state.failure is None,
        JobPhase::RemovingInput => input,
        JobPhase::PostingCallback => input && callback && (state.failure is Some ==> output),
        JobPhase::RemovingOutput => input && output && (state.failure is None ==> callback),
        JobPhase::Succeeded => input && output && callback && state.failure is None,
        JobPhase::Failed => input && output && callback && state.failure is Some,
    }
}

proof fn lemma_cleaned_so_far(params: TaskParams, events: Seq<JobEvent>)
    ensures
        cleaned_so_far(params, job_run(params, events).0, job_run(params, events).1),
    decreases events.len(),
{
    if events.len() > 0 {
        lemma_cleaned_so_far(params, events.drop_last());
        let before = job_run(params, events.drop_last());
        let step = job_next(params, before.0, events.last());
        assert(before.1.push(step.1).drop_last() =~= before.1);
    }
}

/// No job ends with its files left behind or its end unreported. Whatever
/// the steps of a job report, once the job is over the deletion of its staged
/// input and of its staged output have both been asked for, and so has the
/// callback where the job wants one.
pub proof fn ended_job_is_cleaned_up(params: TaskParams, events: Seq<JobEvent>)
    requires
        job_run(params, events).0.phase is Succeeded || job_run(params, events).0.phase is Failed,
    ensures
        asked(job_run(params, events).1, JobAction::RemoveInput),
        asked(job_run(params, events).1, JobAction::RemoveOutput),
        wants_callback(params) ==> callback_posted(job_run(params, events).1),
{
    lemma_cleaned_so_far(params, events);
}

/// A job succeeds only without a failure, and fails only with one.
pub proof fn outcome_matches_failure(params: TaskParams, events: Seq<JobEvent>)
    ensures
        job_run(params, events).0.phase is Succeeded ==> job_run(params, events).0.failure is None,
        job_run(params, events).0.phase is Failed ==> job_run(params, events).0.failure is Some,
{
    lemma_cleaned_so_far(params, events);
}

/// The error of the work is preserved: the callback reports the failure that
/// the job holds, cleaning up does not change it, and the job ends with it.
pub proof fn failure_is_preserved(params: TaskParams, state: JobState, event: JobEvent)
    requires
        !(state.phase is Queued || state.phase is Fetching || state.phase is Transcoding),
    ensures
        job_next(params, state, event).0.failure == state.failure,
        job_next(params, state, event).1 matches JobAction::PostCallback(reported) ==> reported
            == state.failure,
        job_next(params, state, event).1 matches JobAction::Fail(failure) ==> (state.failure
            is Some ==> state.failure == Some(failure)),
{
}

/// A step that fails ends the work at once: the next thing the job asks for
/// is the deletion of its staged input, and it holds the failure.
pub proof fn failure_skips_to_cleanup(params: TaskParams, state: JobState, failure: crate::error::Failure)
    requires
        state.phase is Fetching || state.phase is Transcoding,
    ensures
        job_next(params, state, JobEvent::Failed(failure)) == (
            JobState { phase: JobPhase::RemovingInput, failure: Some(failure) },
            JobAction::RemoveInput,
        ),
{
}

/// A job that is over stays over.
pub proof fn ended_job_stays_ended(params: TaskParams, state: JobState, event: JobEvent)
    requires
        state.phase is Succeeded || state.phase is Failed,
    ensures
        job_next(params, state, event).0 == state,
{
}

} // verus!
