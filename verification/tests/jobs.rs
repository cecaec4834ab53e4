use galpi::artifact::Artifacts;
use galpi::jobs::JobRegistry;

fn fresh_id() -> u128 {
    uuid::Uuid::now_v7().as_u128()
}

fn artifacts(dir: &str) -> Artifacts {
    Artifacts {
        srt: Some(format!("{dir}/meeting.srt")),
        txt: format!("{dir}/meeting_화자별.txt"),
        checkpoint: None,
        minutes: None,
        output_directory: dir.to_owned(),
        source_audio: Some(format!("{dir}/meeting.wav")),
    }
}

#[test]
fn only_one_job_runs_at_a_time() {
    // Given: a job holding the slot
    let mut registry = JobRegistry::new();
    let claimed = registry.claim_with_id(fresh_id());
    assert!(claimed.is_ok());

    // When
    let refused = registry.claim_with_id(fresh_id());

    // Then
    assert_eq!(refused.err().map(|error| error.code), Some("BUSY".to_owned()));
}

#[test]
fn finishing_a_job_frees_the_slot() {
    // Given: a job that ended and handed its guard back
    let mut registry = JobRegistry::new();
    {
        let claimed = registry.claim_with_id(fresh_id());
        assert!(claimed.is_ok());
        if let Ok(guard) = claimed {
            registry.finish(guard.id());
        }
    }

    // When / Then: the next job is not refused as BUSY
    assert!(registry.claim_with_id(fresh_id()).is_ok());
}

#[test]
fn cancelling_twice_reports_that_it_is_already_stopping() {
    // Given
    let mut registry = JobRegistry::new();
    let id = fresh_id();
    let claimed = registry.claim_with_id(id);
    assert!(claimed.is_ok());

    // When
    assert!(registry.cancel(id).is_ok());
    let again = registry.cancel(id);

    // Then
    assert_eq!(again.err().map(|error| error.code), Some("ALREADY_CANCELLING".to_owned()));
}

#[test]
fn cancelling_an_unknown_job_is_reported_as_such() {
    // Given
    let mut registry = JobRegistry::new();
    let claimed = registry.claim_with_id(fresh_id());
    assert!(claimed.is_ok());

    // When / Then
    assert_eq!(
        registry.cancel(fresh_id()).err().map(|e| e.code),
        Some("JOB_NOT_FOUND".to_owned())
    );
}

#[test]
fn cancelling_with_no_job_running_is_not_found() {
    let mut registry = JobRegistry::new();
    assert_eq!(registry.cancel(7).err().map(|e| e.code), Some("JOB_NOT_FOUND".to_owned()));
}

#[test]
fn a_finished_job_id_cannot_be_claimed_again() {
    let mut registry = JobRegistry::new();
    let id = 42;
    assert!(registry.claim_with_id(id).is_ok());
    registry.register(id, artifacts("/tmp/job"));
    registry.finish(id);
    assert_eq!(
        registry.claim_with_id(id).err().map(|e| e.code),
        Some("JOB_ID_CONFLICT".to_owned())
    );
}

#[test]
fn finishing_another_job_leaves_the_running_one() {
    let mut registry = JobRegistry::new();
    assert!(registry.claim_with_id(1).is_ok());
    registry.finish(2);
    assert_eq!(registry.claim_with_id(3).err().map(|e| e.code), Some("BUSY".to_owned()));
}

#[test]
fn registered_artifacts_read_back_and_take_minutes() {
    let mut registry = JobRegistry::new();
    registry.register(5, artifacts("/tmp/job"));
    assert_eq!(registry.artifacts(5), Ok(artifacts("/tmp/job")));
    assert!(registry.register_minutes(5, "/tmp/job/meeting_회의록.md".to_owned()).is_ok());
    let read = registry.artifacts(5).map(|a| a.minutes);
    assert_eq!(read, Ok(Some("/tmp/job/meeting_회의록.md".to_owned())));
    assert_eq!(
        registry.register_minutes(6, "/x.md".to_owned()).err().map(|e| e.code),
        Some("ARTIFACT_NOT_FOUND".to_owned())
    );
    assert_eq!(registry.artifacts(6).err().map(|e| e.code), Some("ARTIFACT_NOT_FOUND".to_owned()));
}
