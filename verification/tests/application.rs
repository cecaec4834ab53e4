use galpi::application::{
    asr_context, normalize_token, select_attendees, setup_token, CompletedTranscription,
    Coordinator,
};
use galpi::artifact::{ArtifactKind, Artifacts};
use galpi::job::{SpeakerHint, TranscriptImportRequest, TranscriptionRequest};
use galpi::roster::{AssistantSettings, GlossaryEntry, Participant};

fn participant(id: &str, name: &str) -> Participant {
    Participant {
        id: id.to_owned(),
        name: name.to_owned(),
        team: None,
        role: None,
        description: None,
        aliases: Vec::new(),
    }
}

fn glossary_entry(id: &str, term: &str) -> GlossaryEntry {
    GlossaryEntry {
        id: id.to_owned(),
        term: term.to_owned(),
        description: None,
    }
}

fn request(speaker_hint: SpeakerHint) -> TranscriptionRequest {
    TranscriptionRequest {
        job_id: uuid::Uuid::now_v7().as_u128(),
        input_path: "/tmp/input.m4a".to_owned(),
        output_root: "/tmp/output".to_owned(),
        speaker_hint,
    }
}

fn completion(output: &str) -> CompletedTranscription {
    CompletedTranscription {
        artifacts: Artifacts {
            srt: Some(format!("{output}/meeting.srt")),
            txt: format!("{output}/meeting_화자별.txt"),
            checkpoint: Some(format!("{output}/meeting.aligned.v2.json")),
            minutes: None,
            output_directory: output.to_owned(),
            source_audio: Some("/tmp/input.m4a".to_owned()),
        },
        segments: 8,
        filtered: 1,
    }
}

fn transcribed(coordinator: &mut Coordinator) -> u128 {
    let guard = coordinator.begin_transcription(&request(SpeakerHint::Auto));
    assert!(guard.is_ok());
    let Ok(guard) = guard else { unreachable!() };
    coordinator.complete_transcription(guard, completion("/tmp/output/job")).job_id
}

#[test]
fn saved_hugging_face_token_is_trimmed_and_can_be_cleared() {
    assert_eq!(normalize_token("  hf_saved  "), Some("hf_saved".to_owned()));
    assert_eq!(normalize_token("   "), None);
}

#[test]
fn prepare_uses_saved_hugging_face_token() {
    assert_eq!(setup_token(None, Some("hf_saved".to_owned())), Some("hf_saved".to_owned()));
    assert_eq!(
        setup_token(Some("hf_typed".to_owned()), Some("hf_saved".to_owned())),
        Some("hf_typed".to_owned())
    );
}

#[test]
fn invalid_hint_is_rejected_before_workspace_access() {
    let mut coordinator = Coordinator::new();
    let result = coordinator.begin_transcription(&request(SpeakerHint::Exact { count: 0 }));
    let Err(error) = result else {
        panic!("invalid hint was accepted");
    };
    assert_eq!(error.code, "INVALID_SPEAKER_HINT");
    assert_eq!(error.message, "speaker count must be greater than zero");
    // The slot was never taken: the next valid request runs.
    assert!(coordinator.begin_transcription(&request(SpeakerHint::Auto)).is_ok());
}

#[test]
fn transcription_carries_glossary_and_roster_for_asr_biasing() {
    // Given: a saved glossary and one participant with a spoken alias
    let settings = AssistantSettings {
        participants: vec![Participant {
            aliases: vec!["프로님".to_owned()],
            ..participant("hb", "하빈")
        }],
        glossary: vec![glossary_entry("t1", "갈피")],
        ..AssistantSettings::default()
    };

    // When
    let context = asr_context(settings);

    // Then: terms, names, and aliases all reach the worker for biasing
    let Some(context) = context else {
        panic!("asr context was not built");
    };
    assert!(context.contains("갈피"));
    assert!(context.contains("하빈"));
    assert!(context.contains("프로님"));
    assert_eq!(context, r#"{"terms":["갈피"],"names":["하빈"],"aliases":["프로님"]}"#);
}

#[test]
fn transcription_sends_no_asr_context_without_saved_context() {
    assert_eq!(asr_context(AssistantSettings::default()), None);
    let blank = AssistantSettings {
        participants: vec![participant("x", "   ")],
        glossary: vec![glossary_entry("g", " ")],
        ..AssistantSettings::default()
    };
    assert_eq!(asr_context(blank), None);
}

#[test]
fn failed_transcription_releases_active_job() {
    let mut coordinator = Coordinator::new();
    for _attempt in 0..2 {
        let guard = coordinator.begin_transcription(&request(SpeakerHint::Auto));
        assert!(guard.is_ok());
        if let Ok(guard) = guard {
            coordinator.abandon(guard);
        }
    }
}

#[test]
fn completed_artifact_is_opened_from_registry() {
    let mut coordinator = Coordinator::new();
    let job = transcribed(&mut coordinator);
    let opened = coordinator.open_artifact(job, ArtifactKind::SpeakerText);
    assert_eq!(
        opened,
        Ok((
            "/tmp/output/job/meeting_화자별.txt".to_owned(),
            "/tmp/output/job".to_owned()
        ))
    );
    assert_eq!(coordinator.reveal_output(job), Ok("/tmp/output/job".to_owned()));
    assert_eq!(
        coordinator.open_artifact(job, ArtifactKind::Minutes).err().map(|e| e.code),
        Some("ARTIFACT_NOT_FOUND".to_owned())
    );
}

#[test]
fn cancellation_reaches_running_port_without_timing_waits() {
    let mut coordinator = Coordinator::new();
    let request = request(SpeakerHint::Auto);
    assert!(coordinator.begin_transcription(&request).is_ok());
    assert!(coordinator.cancel(request.job_id).is_ok());
    assert_eq!(
        coordinator.cancel(request.job_id).err().map(|e| e.code),
        Some("ALREADY_CANCELLING".to_owned())
    );
}

#[test]
fn refinement_sends_saved_background_and_publishes_minutes() {
    // Given
    let mut coordinator = Coordinator::new();
    let settings = AssistantSettings {
        api_key_stored: true,
        model: Some("glm-5-turbo".to_owned()),
        base_url: None,
        reasoning_effort: None,
        background: Some("제품: 갈피\n팀리더: 하빈".to_owned()),
        participants: vec![
            participant("hb", "하빈"),
            participant("jw", "지우"),
            participant("ms", "민수"),
        ],
        glossary: vec![glossary_entry("t1", "갈피"), glossary_entry("t2", "화자분리")],
    };
    let target = transcribed(&mut coordinator);

    // When
    let refinement_id = uuid::Uuid::now_v7().as_u128();
    let planned = coordinator.begin_refinement(
        refinement_id,
        target,
        settings,
        Some("  zai_key  ".to_owned()),
        &vec!["ms".to_owned(), "hb".to_owned()],
    );
    let Ok((guard, job)) = planned else {
        panic!("refinement was not planned");
    };

    // Then
    assert_eq!(job.output, "/tmp/output/job/meeting_회의록.md");
    assert_eq!(job.api_key, "zai_key");
    assert_eq!(job.model.as_deref(), Some("glm-5-turbo"));
    assert_eq!(job.background.as_deref(), Some("제품: 갈피\n팀리더: 하빈"));
    // Only the selected attendees travel, in roster order rather than selection order.
    let names: Vec<&str> = job.participants.iter().map(|p| p.name.as_str()).collect();
    assert_eq!(names, ["하빈", "민수"]);
    // The glossary is global context, so every saved term travels on each refinement.
    let terms: Vec<&str> = job.glossary.iter().map(|g| g.term.as_str()).collect();
    assert_eq!(terms, ["갈피", "화자분리"]);

    let refined = coordinator.complete_refinement(guard, target, job.output.clone());
    assert_eq!(refined.map(|r| r.minutes), Ok("/tmp/output/job/meeting_회의록.md".to_owned()));
    let opened = coordinator.open_artifact(target, ArtifactKind::Minutes).map(|(path, _)| path);
    assert_eq!(opened, Ok("/tmp/output/job/meeting_회의록.md".to_owned()));
}

#[test]
fn refinement_is_rejected_before_a_token_is_saved() {
    let mut coordinator = Coordinator::new();
    let target = transcribed(&mut coordinator);
    let result = coordinator.begin_refinement(7, target, AssistantSettings::default(), None, &Vec::new());
    let Err(error) = result else {
        panic!("refinement ran without a token");
    };
    assert_eq!(error.code, "ASSISTANT_KEY_MISSING");
    // Nothing was claimed: a new job can start.
    assert!(coordinator.begin_transcription(&request(SpeakerHint::Auto)).is_ok());
}

#[test]
fn refining_an_unknown_meeting_is_not_found() {
    let mut coordinator = Coordinator::new();
    let result = coordinator.begin_refinement(1, 2, AssistantSettings::default(), Some("k".to_owned()), &Vec::new());
    assert_eq!(result.err().map(|e| e.code), Some("ARTIFACT_NOT_FOUND".to_owned()));
}

#[test]
fn an_imported_transcript_becomes_a_finished_meeting() {
    let mut coordinator = Coordinator::new();
    let request = TranscriptImportRequest {
        job_id: 77,
        input_path: "/tmp/팀미팅.txt".to_owned(),
        output_root: "/tmp/galpi".to_owned(),
    };
    let guard = coordinator.begin_import(&request);
    let Ok(guard) = guard else { panic!("import was refused") };
    let artifacts = Artifacts {
        srt: None,
        txt: "/tmp/galpi/팀미팅/팀미팅.txt".to_owned(),
        checkpoint: None,
        minutes: None,
        output_directory: "/tmp/galpi/팀미팅".to_owned(),
        source_audio: None,
    };
    let result = coordinator.complete_import(guard, artifacts);
    assert_eq!(result.txt, "/tmp/galpi/팀미팅/팀미팅.txt");
    assert_eq!(
        coordinator.open_artifact(77, ArtifactKind::Srt).err().map(|e| e.code),
        Some("ARTIFACT_NOT_FOUND".to_owned())
    );
}

#[test]
fn recording_lifecycle_rejects_reentry_and_wrong_session_in_the_coordinator() {
    let mut coordinator = Coordinator::new();
    assert!(coordinator.check_recording_idle().is_ok());
    coordinator.recording_started(5);
    assert_eq!(
        coordinator.check_recording_idle().err().map(|e| e.code),
        Some("RECORDING_BUSY".to_owned())
    );
    assert_eq!(
        coordinator.end_recording(6).err().map(|e| e.code),
        Some("RECORDING_ID_MISMATCH".to_owned())
    );
    assert!(coordinator.end_recording(5).is_ok());
    assert!(coordinator.check_recording_idle().is_ok());
}

#[test]
fn an_empty_selection_sends_no_participants() {
    let roster = vec![participant("hb", "하빈")];
    assert!(select_attendees(&roster, &Vec::new()).is_empty());
}
