//! The job registry: the single slot a running job holds, how it is
//! cancelled, and the finished jobs whose artifacts stay addressable.

use vstd::prelude::*;
use std::collections::HashMap;
use crate::artifact::Artifacts;
use crate::error::AppError;

verus! {

broadcast use vstd::std_specs::hash::group_hash_axioms;

/// A job's identity, the 128 bits of its UUID.
pub type JobId = u128;

/// The job holding the slot, and whether its cancellation was requested.
#[derive(Debug, Clone, Copy, PartialEq, Eq, Structural)]
pub struct ActiveJob {
    pub id: JobId,
    pub cancel_requested: bool,
}

/// Proof that a job holds the slot; it is given back through `finish`.
#[derive(Debug, Clone, Copy, PartialEq, Eq, Structural)]
pub struct JobGuard {
    pub id: JobId,
}

impl JobGuard {
    pub fn id(&self) -> (id: JobId)
        ensures
            id == self.id,
    {
        self.id
    }
}

#[derive(Debug)]
pub struct JobRegistry {
    active: Option<ActiveJob>,
    artifacts: HashMap<JobId, Artifacts>,
}

/// A copy of a set of artifacts, field by field.
pub fn copy_artifacts(a: &Artifacts) -> (copy: Artifacts)
    ensures
        copy == *a,
{
    Artifacts {
        srt: a.srt.clone(),
        txt: a.txt.clone(),
        checkpoint: a.checkpoint.clone(),
        minutes: a.minutes.clone(),
        output_directory: a.output_directory.clone(),
        source_audio: a.source_audio.clone(),
    }
}

/// The slot after a claim: taken by `id` when it was free and `id` names no
/// finished job, unchanged otherwise.
pub open spec fn claim_next(active: Option<ActiveJob>, results: Map<JobId, Artifacts>, id: JobId) -> Option<ActiveJob> {
    if active.is_none() && !results.contains_key(id) {
        Some(ActiveJob { id, cancel_requested: false })
    } else {
        active
    }
}

/// Why a claim is refused: another job runs, or the id is already used.
pub open spec fn claim_refusal(active: Option<ActiveJob>, results: Map<JobId, Artifacts>, id: JobId) -> Option<Seq<char>> {
    if active.is_some() {
        Some("BUSY"@)
    } else if results.contains_key(id) {
        Some("JOB_ID_CONFLICT"@)
    } else {
        None
    }
}

/// The slot after `id` finishes: freed when `id` held it.
pub open spec fn finish_next(active: Option<ActiveJob>, id: JobId) -> Option<ActiveJob> {
    match active {
        Some(job) => if job.id == id {
            None
        } else {
            active
        },
        None => None,
    }
}

/// Why a cancellation is refused: no such running job, or it is already
/// being cancelled.
pub open spec fn cancel_refusal(active: Option<ActiveJob>, id: JobId) -> Option<Seq<char>> {
    match active {
        Some(job) => if job.id != id {
            Some("JOB_NOT_FOUND"@)
        } else if job.cancel_requested {
            Some("ALREADY_CANCELLING"@)
        } else {
            None
        },
        None => Some("JOB_NOT_FOUND"@),
    }
}

/// The slot after a cancellation request.
pub open spec fn cancel_next(active: Option<ActiveJob>, id: JobId) -> Option<ActiveJob> {
    if cancel_refusal(active, id).is_none() {
        Some(ActiveJob { id, cancel_requested: true })
    } else {
        active
    }
}

/// A result that is `Ok` exactly when there is no refusal, and otherwise
/// carries the refusal's code.
pub open spec fn answers<T>(result: Result<T, AppError>, refusal: Option<Seq<char>>) -> bool {
    match refusal {
        None => result is Ok,
        Some(code) => result matches Err(e) && e.code@ == code,
    }
}

impl JobRegistry {
    /// The job holding the slot.
    pub closed spec fn active_job(&self) -> Option<ActiveJob> {
        self.active
    }

    /// The artifacts of every finished job, by job id.
    pub closed spec fn results(&self) -> Map<JobId, Artifacts> {
        self.artifacts@
    }

    pub fn new() -> (registry: Self)
        ensures
            registry.active_job().is_none(),
            registry.results() == Map::<JobId, Artifacts>::empty(),
    {
        JobRegistry { active: None, artifacts: HashMap::new() }
    }

    /// Take the slot for a new job. Only one job runs at a time, and an id
    /// that already names a finished job cannot be reused.
    pub fn claim_with_id(&mut self, id: JobId) -> (claimed: Result<JobGuard, AppError>)
        ensures
            final(self).results() == old(self).results(),
            answers(claimed, claim_refusal(old(self).active_job(), old(self).results(), id)),
            claimed is Ok ==> claimed == Ok::<JobGuard, AppError>(JobGuard { id }),
            final(self).active_job() == claim_next(old(self).active_job(), old(self).results(), id),
    {
        if self.active.is_some() {
            return Err(AppError::new("BUSY", "이미 실행 중인 작업이 있습니다."));
        }
        if self.artifacts.contains_key(&id) {
            return Err(AppError::new("JOB_ID_CONFLICT", "이미 사용된 작업 ID입니다."));
        }
        self.active = Some(ActiveJob { id, cancel_requested: false });
        Ok(JobGuard { id })
    }

    /// Release the slot if this job holds it; anything else is left alone.
    pub fn finish(&mut self, id: JobId)
        ensures
            final(self).results() == old(self).results(),
            final(self).active_job() == finish_next(old(self).active_job(), id),
    {
        let holds = match &self.active {
            Some(job) => job.id == id,
            None => false,
        };
        if holds {
            self.active = None;
        }
    }

    /// Ask the running job to stop. Only the job holding the slot can be
    /// cancelled, and only once; the caller then delivers the request.
    pub fn cancel(&mut self, id: JobId) -> (cancelled: Result<(), AppError>)
        ensures
            final(self).results() == old(self).results(),
            answers(cancelled, cancel_refusal(old(self).active_job(), id)),
            final(self).active_job() == cancel_next(old(self).active_job(), id),
    {
        match self.active {
            Some(job) => {
                if job.id != id {
                    Err(AppError::new("JOB_NOT_FOUND", "취소할 작업을 찾지 못했습니다."))
                } else if job.cancel_requested {
                    Err(AppError::new("ALREADY_CANCELLING", "이미 취소 중입니다."))
                } else {
                    self.active = Some(ActiveJob { id, cancel_requested: true });
                    Ok(())
                }
            },
            None => Err(AppError::new("JOB_NOT_FOUND", "취소할 작업을 찾지 못했습니다.")),
        }
    }

    /// Keep a finished job's artifacts addressable by its id.
    pub fn register(&mut self, id: JobId, artifacts: Artifacts)
        ensures
            final(self).results() == old(self).results().insert(id, artifacts),
            final(self).active_job() == old(self).active_job(),
    {
        let _previous = self.artifacts.insert(id, artifacts);
    }

    /// Record the minutes refined from a finished job.
    pub fn register_minutes(&mut self, id: JobId, minutes: String) -> (registered: Result<(), AppError>)
        ensures
            final(self).active_job() == old(self).active_job(),
            old(self).results().contains_key(id) ==> registered is Ok && final(self).results()
                == old(self).results().insert(
                id,
                Artifacts { minutes: Some(minutes), ..old(self).results()[id] },
            ),
            !old(self).results().contains_key(id) ==> (registered matches Err(e) && e.code@
                == "ARTIFACT_NOT_FOUND"@) && final(self).results() == old(self).results(),
    {
        match self.artifacts.remove(&id) {
            Some(found) => {
                let updated = Artifacts { minutes: Some(minutes), ..found };
                let _previous = self.artifacts.insert(id, updated);
                proof {
                    assert(self.artifacts@ =~= old(self).artifacts@.insert(id, updated));
                }
                Ok(())
            },
            None => Err(AppError::new("ARTIFACT_NOT_FOUND", "완료된 결과를 찾지 못했습니다.")),
        }
    }

    /// The artifacts of a finished job.
    pub fn artifacts(&self, id: JobId) -> (found: Result<Artifacts, AppError>)
        ensures
            self.results().contains_key(id) ==> found == Ok::<Artifacts, AppError>(self.results()[id]),
            !self.results().contains_key(id) ==> (found matches Err(e) && e.code@ == "ARTIFACT_NOT_FOUND"@),
    {
        match self.artifacts.get(&id) {
            Some(a) => Ok(copy_artifacts(a)),
            None => Err(AppError::new("ARTIFACT_NOT_FOUND", "완료된 결과를 찾지 못했습니다.")),
        }
    }
}

/// Only one job runs at a time: while a job holds the slot, every claim is
/// refused as busy and the slot stays with the running job.
pub proof fn law_one_job_at_a_time(active: Option<ActiveJob>, results: Map<JobId, Artifacts>, id: JobId)
    requires
        active.is_some(),
    ensures
        claim_refusal(active, results, id) == Some("BUSY"@),
        claim_next(active, results, id) == active,
{
}

/// A job that ends frees the slot, however it ended: after a claim and the
/// finish of the same job, the next job with a fresh id is accepted.
pub proof fn law_finished_job_frees_the_slot(results: Map<JobId, Artifacts>, id: JobId, next: JobId)
    requires
        !results.contains_key(id),
        !results.contains_key(next),
    ensures
        claim_refusal(None, results, id).is_none(),
        finish_next(claim_next(None, results, id), id).is_none(),
        claim_refusal(finish_next(claim_next(None, results, id), id), results, next).is_none(),
{
}

/// The end of some other job never releases the running one.
pub proof fn law_finish_of_another_job_keeps_the_slot(job: ActiveJob, id: JobId)
    requires
        job.id != id,
    ensures
        finish_next(Some(job), id) == Some(job),
{
}

/// A running job can be cancelled once; asking again reports that it is
/// already stopping, and asking for any other id reports it as not found.
pub proof fn law_cancel_is_accepted_once(results: Map<JobId, Artifacts>, id: JobId, other: JobId)
    requires
        !results.contains_key(id),
        other != id,
    ensures
        cancel_refusal(claim_next(None, results, id), id).is_none(),
        cancel_refusal(cancel_next(claim_next(None, results, id), id), id) == Some("ALREADY_CANCELLING"@),
        cancel_refusal(claim_next(None, results, id), other) == Some("JOB_NOT_FOUND"@),
{
}

/// Artifacts read back are the artifacts registered, and the id that named
/// them can never start another job.
pub proof fn law_registered_artifacts_are_found(results: Map<JobId, Artifacts>, id: JobId, artifacts: Artifacts)
    ensures
        results.insert(id, artifacts).contains_key(id),
        results.insert(id, artifacts)[id] == artifacts,
        claim_refusal(None, results.insert(id, artifacts), id) == Some("JOB_ID_CONFLICT"@),
{
}

/// Registering minutes changes nothing of a finished job but its minutes.
pub proof fn law_minutes_only_add_minutes(results: Map<JobId, Artifacts>, id: JobId, minutes: String)
    requires
        results.contains_key(id),
    ensures
        ({
            let updated = results.insert(id, Artifacts { minutes: Some(minutes), ..results[id] })[id];
            &&& updated.minutes == Some(minutes)
            &&& updated.txt == results[id].txt
            &&& updated.srt == results[id].srt
            &&& updated.checkpoint == results[id].checkpoint
            &&& updated.output_directory == results[id].output_directory
            &&& updated.source_audio == results[id].source_audio
        }),
{
}

} // verus!
