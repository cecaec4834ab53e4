use galpi::artifact::{minutes_path, ArtifactKind, Artifacts};
use galpi::engine::EnginePreset;
use galpi::job::{validate_speaker_hint, RequestError, SpeakerHint};
use galpi::roster::{AssistantSettings, GlossaryEntry, Participant};
use galpi::worker::{check_protocol_version, AsrContext, ProcessResult, ProtocolError, WorkerOutcome};

#[test]
fn rejects_exact_speaker_hint_when_count_is_zero() {
    // Given
    let hint = SpeakerHint::Exact { count: 0 };

    // When
    let result = validate_speaker_hint(&hint);

    // Then
    assert_eq!(result, Err(RequestError::InvalidSpeakerCount));
}

#[test]
fn rejects_speaker_range_when_minimum_exceeds_maximum() {
    // Given
    let hint = SpeakerHint::Range { min: 4, max: 2 };

    // When
    let result = validate_speaker_hint(&hint);

    // Then
    assert_eq!(result, Err(RequestError::InvalidSpeakerRange));
}

#[test]
fn accepts_supported_speaker_hints() {
    // Given
    let hints = [
        SpeakerHint::Auto,
        SpeakerHint::Exact { count: 3 },
        SpeakerHint::Range { min: 2, max: 6 },
    ];

    // When / Then
    for hint in hints {
        assert_eq!(validate_speaker_hint(&hint), Ok(()));
    }
}

#[test]
fn a_zero_bound_in_a_range_is_a_count_error_before_an_order_error() {
    assert_eq!(
        validate_speaker_hint(&SpeakerHint::Range { min: 0, max: 3 }),
        Err(RequestError::InvalidSpeakerCount)
    );
    assert_eq!(
        validate_speaker_hint(&SpeakerHint::Range { min: 5, max: 0 }),
        Err(RequestError::InvalidSpeakerCount)
    );
    assert_eq!(
        RequestError::InvalidSpeakerRange.message(),
        "speaker range minimum must not exceed maximum"
    );
}

#[test]
fn derives_minutes_name_from_the_speaker_transcript() {
    // Given
    let transcript = "/tmp/job/meeting_화자별.txt";

    // When
    let minutes = minutes_path(transcript);

    // Then
    assert_eq!(minutes, "/tmp/job/meeting_회의록.md");
}

#[test]
fn keeps_the_stem_when_the_speaker_suffix_is_absent() {
    // Given
    let transcript = "/tmp/job/notes.txt";

    // When
    let minutes = minutes_path(transcript);

    // Then
    assert_eq!(minutes, "/tmp/job/notes_회의록.md");
}

#[test]
fn minutes_of_a_path_without_a_file_name_fall_back_to_meeting() {
    assert_eq!(minutes_path("/"), "/meeting_회의록.md");
    assert_eq!(minutes_path("/tmp/job/a_화자별_화자별.txt"), "/tmp/job/a_화자별_회의록.md");
}

#[test]
fn imported_transcripts_have_no_optional_artifacts() {
    // Given: a transcript imported without running a transcription job
    let artifacts = Artifacts {
        srt: None,
        txt: "/tmp/job/notes.txt".to_owned(),
        checkpoint: None,
        minutes: None,
        output_directory: "/tmp/job".to_owned(),
        source_audio: None,
    };

    // When / Then: only the transcript itself is addressable
    assert_eq!(
        artifacts.path_for(ArtifactKind::SpeakerText),
        Some(&"/tmp/job/notes.txt".to_owned())
    );
    assert_eq!(artifacts.path_for(ArtifactKind::Srt), None);
    assert_eq!(artifacts.path_for(ArtifactKind::Checkpoint), None);
    assert_eq!(artifacts.path_for(ArtifactKind::Minutes), None);
}

#[test]
fn fresh_installs_default_to_the_qwen3_preset() {
    assert_eq!(EnginePreset::default(), EnginePreset::Qwen3);
    assert_eq!(EnginePreset::Qwen3.as_str(), "qwen3");
    assert_eq!(EnginePreset::WhisperX.as_str(), "whisperx");
}

fn participant(name: &str, aliases: &[&str]) -> Participant {
    Participant {
        id: "person-1".to_owned(),
        name: name.to_owned(),
        team: None,
        role: None,
        description: None,
        aliases: aliases.iter().map(ToString::to_string).collect(),
    }
}

#[test]
fn trimming_drops_nameless_participants_and_blank_aliases() {
    // Given
    let settings = AssistantSettings {
        participants: vec![
            participant("  하빈  ", &["하빈이", " ", ""]),
            participant("   ", &[]),
        ],
        ..AssistantSettings::default()
    };

    // When
    let trimmed = settings.trimmed();

    // Then
    assert_eq!(trimmed.participants.len(), 1);
    assert_eq!(trimmed.participants[0].name, "하빈");
    assert_eq!(trimmed.participants[0].aliases, ["하빈이"]);
}

#[test]
fn trimming_drops_termless_glossary_rows() {
    // Given
    let settings = AssistantSettings {
        glossary: vec![
            GlossaryEntry {
                id: "term-1".to_owned(),
                term: "갈피".to_owned(),
                description: Some("  ".to_owned()),
            },
            GlossaryEntry {
                id: "term-2".to_owned(),
                term: "  ".to_owned(),
                description: None,
            },
        ],
        ..AssistantSettings::default()
    };

    // When
    let trimmed = settings.trimmed();

    // Then
    assert_eq!(trimmed.glossary.len(), 1);
    assert_eq!(trimmed.glossary[0].term, "갈피");
    assert_eq!(trimmed.glossary[0].description, None);
}

#[test]
fn trimming_normalizes_or_rejects_reasoning_effort() {
    // Given
    let supported = AssistantSettings {
        reasoning_effort: Some(" HIGH ".to_owned()),
        ..AssistantSettings::default()
    };
    let unsupported = AssistantSettings {
        reasoning_effort: Some("extreme".to_owned()),
        ..AssistantSettings::default()
    };

    // When / Then
    assert_eq!(supported.trimmed().reasoning_effort, Some("high".to_owned()));
    assert_eq!(unsupported.trimmed().reasoning_effort, None);
}

#[test]
fn trimming_keeps_filled_fields_and_drops_blank_ones() {
    let settings = AssistantSettings {
        api_key_stored: true,
        model: Some("  glm-5.3 ".to_owned()),
        base_url: Some("\t".to_owned()),
        reasoning_effort: Some("Max".to_owned()),
        background: None,
        participants: vec![Participant {
            id: "hb".to_owned(),
            name: " 하빈".to_owned(),
            team: Some(" 갈피팀 ".to_owned()),
            role: Some("".to_owned()),
            description: Some("녹음 담당\n".to_owned()),
            aliases: vec!["  프로님".to_owned()],
        }],
        glossary: Vec::new(),
    };
    let trimmed = settings.trimmed();
    assert!(trimmed.api_key_stored);
    assert_eq!(trimmed.model.as_deref(), Some("glm-5.3"));
    assert_eq!(trimmed.base_url, None);
    assert_eq!(trimmed.reasoning_effort.as_deref(), Some("max"));
    let p = &trimmed.participants[0];
    assert_eq!(p.id, "hb");
    assert_eq!(p.name, "하빈");
    assert_eq!(p.team.as_deref(), Some("갈피팀"));
    assert_eq!(p.role, None);
    assert_eq!(p.description.as_deref(), Some("녹음 담당"));
    assert_eq!(p.aliases, ["프로님"]);
}

#[test]
fn asr_context_serializes_the_worker_wire_format() -> Result<(), serde_json::Error> {
    // Given
    let context = AsrContext {
        terms: vec!["갈피".to_owned()],
        names: vec!["하빈".to_owned()],
        aliases: vec!["하빈이".to_owned()],
    };

    // When
    let parsed: serde_json::Value = context.into_wire_json().parse()?;

    // Then: same keys and lists the worker's context parser reads
    assert_eq!(parsed["terms"], serde_json::Value::from(vec!["갈피"]));
    assert_eq!(parsed["names"], serde_json::Value::from(vec!["하빈"]));
    assert_eq!(parsed["aliases"], serde_json::Value::from(vec!["하빈이"]));
    Ok(())
}

#[test]
fn asr_context_escapes_quotes_in_terms() -> Result<(), serde_json::Error> {
    let context = AsrContext {
        terms: vec!["say \"hi\"".to_owned()],
        names: Vec::new(),
        aliases: Vec::new(),
    };
    let wire = context.into_wire_json();
    assert_eq!(wire, r#"{"terms":["say \"hi\""],"names":[],"aliases":[]}"#);
    let parsed: serde_json::Value = wire.parse()?;
    assert_eq!(parsed["terms"][0], "say \"hi\"");
    Ok(())
}

#[test]
fn asr_context_is_built_only_when_a_list_can_bias_recognition() {
    // Given / When / Then
    assert!(
        AsrContext::new(Vec::new(), Vec::new(), Vec::new()).is_none(),
        "an all-empty context must stay absent from the wire"
    );
    assert!(AsrContext::new(Vec::new(), vec!["하빈".to_owned()], Vec::new()).is_some());
}

#[test]
fn rejects_event_when_protocol_version_is_newer() {
    assert_eq!(check_protocol_version(2), Err(ProtocolError::UnsupportedVersion(2)));
    assert_eq!(check_protocol_version(1), Ok(()));
}

#[test]
fn captures_refined_event_as_process_result() {
    // Given
    let mut result = ProcessResult::new();

    // When
    let recorded = result.record(WorkerOutcome::Refined {
        minutes: "/tmp/notes.md".to_owned(),
    });

    // Then
    assert!(recorded.is_ok());
    assert_eq!(
        result.completed,
        Some(WorkerOutcome::Refined {
            minutes: "/tmp/notes.md".to_owned(),
        })
    );
}

#[test]
fn a_second_result_from_one_run_is_a_protocol_error() {
    let mut result = ProcessResult::new();
    let first = WorkerOutcome::Completed {
        srt: "/tmp/a.srt".to_owned(),
        txt: "/tmp/a.txt".to_owned(),
        checkpoint: String::new(),
        segments: 3,
        filtered: 0,
    };
    assert!(result.record(WorkerOutcome::Progress).is_ok());
    assert!(result.record(first.clone()).is_ok());
    let again = result.record(WorkerOutcome::Refined { minutes: "/tmp/m.md".to_owned() });
    assert_eq!(again.err().map(|e| e.code), Some("WORKER_PROTOCOL_ERROR".to_owned()));
    assert_eq!(result.completed, Some(first));
}

#[test]
fn trimming_trimmed_settings_changes_nothing() {
    let settings = AssistantSettings {
        api_key_stored: false,
        model: Some(" glm ".to_owned()),
        base_url: Some(" https://x ".to_owned()),
        reasoning_effort: Some(" HIGH".to_owned()),
        background: Some("\u{3000}배경\u{3000}".to_owned()),
        participants: vec![
            Participant {
                id: "a".to_owned(),
                name: "  ".to_owned(),
                team: None,
                role: None,
                description: None,
                aliases: Vec::new(),
            },
            Participant {
                id: "b".to_owned(),
                name: " 지우 ".to_owned(),
                team: None,
                role: Some(" PM".to_owned()),
                description: None,
                aliases: vec![" ".to_owned(), " 지우님 ".to_owned()],
            },
        ],
        glossary: vec![GlossaryEntry { id: "g".to_owned(), term: " 갈피 ".to_owned(), description: Some(" ".to_owned()) }],
    };
    let once = settings.trimmed();
    let twice = once.clone().trimmed();
    assert_eq!(twice, once);
    assert_eq!(once.participants.len(), 1);
    assert_eq!(once.participants[0].aliases, ["지우님"]);
    assert_eq!(once.background.as_deref(), Some("배경"));
    assert_eq!(once.glossary[0].description, None);
}
