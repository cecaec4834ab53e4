use galpi::commands::check_transcript_import;
use galpi::paths::{
    checkpoint_file_name, is_meeting_folder_of, join, latest_index, meeting_folder_candidate,
    meeting_stem, openable_artifact, private_file_path, recording_paths, require_within,
    recording_name, reusable_checkpoint, reuses_source_folder, sanitize_name, settings_paths, AppPaths, Placement,
};

#[test]
fn sanitize_name_keeps_spaces_and_hangul() {
    assert_eq!(sanitize_name(" 팀 미팅: 8월 "), "팀 미팅- 8월");
}

#[test]
fn sanitize_name_replaces_separators_and_trims_edges() {
    assert_eq!(sanitize_name("../a/b_c"), "a-b_c");
    assert_eq!(sanitize_name("--:--"), "");
}

#[test]
fn a_meeting_is_named_after_its_source() {
    assert_eq!(meeting_stem(Some("팀 미팅")), "팀 미팅");
    assert_eq!(meeting_stem(Some(":::")), "meeting");
    assert_eq!(meeting_stem(None), "meeting");
}

#[test]
fn deduplicates_colliding_meeting_folders() {
    assert_eq!(meeting_folder_candidate("meeting", 1), "meeting");
    assert_eq!(meeting_folder_candidate("meeting", 2), "meeting 2");
    assert_eq!(meeting_folder_candidate("팀미팅", 12), "팀미팅 12");
}

#[test]
fn reuses_the_folder_a_recording_already_lives_in() {
    let stem = "2026-08-24 143052 녹음";
    assert!(reuses_source_folder(Some("2026-08-24 143052 녹음"), true, stem));
    assert!(!reuses_source_folder(Some("2026-08-24 143052 녹음"), false, stem));
    assert!(!reuses_source_folder(Some("other"), true, stem));
    assert!(!reuses_source_folder(None, true, stem));
}

#[test]
fn seeds_new_job_with_latest_matching_checkpoint() {
    assert!(is_meeting_folder_of("meeting 2", "meeting"));
    assert!(is_meeting_folder_of("meeting", "meeting"));
    assert!(!is_meeting_folder_of("meeting notes", "meeting"));
    assert!(!is_meeting_folder_of("meetings", "meeting"));
    assert!(!is_meeting_folder_of("meeting ", "meeting"));
    assert_eq!(latest_index(&vec![3, 9, 9, 1]), Some(1));
    assert_eq!(latest_index(&vec![]), None);
}

#[test]
fn app_paths_live_under_the_data_directory() {
    let paths = AppPaths::resolve("/data/galpi");
    assert_eq!(paths.engine, "/data/galpi/engine");
    assert_eq!(paths.python, "/data/galpi/engine/.venv/bin/python");
    assert_eq!(paths.models_manifest, "/data/galpi/models/ready.json");
    assert_eq!(paths.qwen3_engine_bin, "/data/galpi/qwen3/bin");
    assert_eq!(join("/", "tmp"), "/tmp");
}

#[test]
fn creates_a_meeting_folder_named_after_the_recording() {
    // Given: an imported audio file outside any meeting folder
    let stem = meeting_stem(Some("팀 미팅"));

    // When: the first candidate name is free
    let folder = meeting_folder_candidate(&stem, 1);

    // Then: the meeting folder carries the recording name, no uuid suffix
    assert_eq!(folder, "팀 미팅");
    assert!(!reuses_source_folder(Some("source"), false, &stem));
    assert_eq!(join("/tmp/galpi", &folder), "/tmp/galpi/팀 미팅");
}

#[test]
fn copies_transcript_into_a_meeting_folder() {
    // Given: an existing transcript outside the Galpi folder
    assert!(check_transcript_import(true, Some("txt"), 32).is_ok());
    let stem = meeting_stem(Some("팀미팅"));

    // When
    let folder = join("/out/galpi", &meeting_folder_candidate(&stem, 1));
    let copy = join(&folder, "팀미팅.txt");

    // Then: the copy lives in a folder named after the transcript
    assert_eq!(folder, "/out/galpi/팀미팅");
    assert_eq!(require_within(Placement::ImportedTranscript, &folder, copy.clone()), Ok(copy));
}

#[test]
fn files_outside_their_folder_are_refused() {
    let inside = "/out/meeting/a.srt".to_owned();
    assert_eq!(require_within(Placement::WorkerResult, "/out/meeting", inside.clone()), Ok(inside));
    let code = |placement| require_within(placement, "/out/meeting", "/etc/passwd".to_owned()).err().map(|e| e.code);
    assert_eq!(code(Placement::WorkerResult), Some("WORKER_PROTOCOL_ERROR".to_owned()));
    assert_eq!(code(Placement::WorkerMinutes), Some("WORKER_PROTOCOL_ERROR".to_owned()));
    assert_eq!(code(Placement::ImportedTranscript), Some("OUTPUT_PATH_ERROR".to_owned()));
    assert_eq!(code(Placement::MeetingFolder), Some("OUTPUT_PATH_ERROR".to_owned()));
    // Whole components count: a sibling sharing a prefix is outside.
    assert!(require_within(Placement::MeetingFolder, "/out/meeting", "/out/meeting 2/x".to_owned()).is_err());
    assert!(openable_artifact("/out/m", "/out/m/a.txt".to_owned(), true).is_ok());
    assert_eq!(
        openable_artifact("/out/m", "/out/m/sub".to_owned(), false).err().map(|e| e.code),
        Some("ARTIFACT_PATH_ERROR".to_owned())
    );
}

#[test]
fn only_a_matching_meeting_offers_its_checkpoint() {
    assert_eq!(checkpoint_file_name("meeting"), "meeting.aligned.v2.json");
    let canonical = "/out/meeting 2/meeting.aligned.v2.json";
    assert!(reusable_checkpoint("meeting 2", false, "meeting", true, canonical, "/out"));
    assert!(!reusable_checkpoint("meeting 2", true, "meeting", true, canonical, "/out"));
    assert!(!reusable_checkpoint("other", false, "meeting", true, canonical, "/out"));
    assert!(!reusable_checkpoint("meeting 2", false, "meeting", false, canonical, "/out"));
    assert!(!reusable_checkpoint("meeting 2", false, "meeting", true, "/elsewhere/x.json", "/out"));
}

#[test]
fn app_files_have_fixed_names() {
    assert_eq!(
        settings_paths("/data"),
        ("/data/settings.json".to_owned(), "/data/settings.json.part".to_owned())
    );
    assert_eq!(
        recording_paths("/rec/2026-08-24 143052 녹음", "2026-08-24 143052 녹음"),
        (
            "/rec/2026-08-24 143052 녹음/2026-08-24 143052 녹음.wav.part".to_owned(),
            "/rec/2026-08-24 143052 녹음/2026-08-24 143052 녹음.wav".to_owned()
        )
    );
    assert_eq!(private_file_path("/tmp", "asr-context", "42"), "/tmp/galpi-asr-context-42");
}

#[test]
fn a_recording_is_named_after_the_local_time_it_started() {
    assert_eq!(recording_name(2026, 8, 24, 14, 30, 52), "2026-08-24 143052 녹음");
    assert_eq!(recording_name(2027, 1, 2, 3, 4, 5), "2027-01-02 030405 녹음");
    // A recording made this way is later transcribed in its own folder.
    let name = recording_name(2026, 8, 24, 14, 30, 52);
    assert!(reuses_source_folder(Some("2026-08-24 143052 녹음"), true, &meeting_stem(Some(&name))));
}
