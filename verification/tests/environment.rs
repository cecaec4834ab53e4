use galpi::engine::EnginePreset;
use galpi::environment::{
    assistant_environment, cache_dir_name, engine_marker, fingerprint, models_manifest_valid,
    required_model_directories, go_offline, requirements_fingerprint,
    transcription_environment, can_use_offline_cache, manifest_valid,
    process_environment, qwen3_marker, status, whisperx_marker, ReadinessProbe, MODEL_DIRECTORIES,
    QWEN3_ALIGNER_ID,
};
use galpi::paths::AppPaths;

#[test]
fn uses_offline_mode_only_for_complete_tokenless_cache() {
    assert!(can_use_offline_cache(MODEL_DIRECTORIES.len(), None));
    assert!(can_use_offline_cache(MODEL_DIRECTORIES.len(), Some("  ")));
    assert!(!can_use_offline_cache(MODEL_DIRECTORIES.len() - 1, None));
    assert!(!can_use_offline_cache(MODEL_DIRECTORIES.len(), Some("hf_token")));
}

#[test]
fn qwen3_model_ids_match_huggingface_repo_names() {
    // The readiness check maps repo ids directly into cache directory
    // names (models--Org--Name), so the ids must keep that shape.
    assert!(QWEN3_ALIGNER_ID.contains('/'));
    assert!(QWEN3_ALIGNER_ID.starts_with("Qwen/"));
}

#[test]
fn cache_directories_double_the_slashes_of_repo_ids() {
    assert_eq!(cache_dir_name("Qwen/Qwen3-ASR-1.7B"), "models--Qwen--Qwen3-ASR-1.7B");
    assert_eq!(cache_dir_name("a/b/c"), "models--a--b--c");
}

#[test]
fn readiness_markers_carry_the_requirements_fingerprint() {
    assert_eq!(whisperx_marker("00ff"), "3.8.6+00ff");
    assert!(qwen3_marker("abc").ends_with("+abc"));
}

#[test]
fn status_reports_the_selected_preset() {
    let probe = ReadinessProbe {
        whisperx_engine: true,
        whisperx_models: true,
        whisperx_ffmpeg: true,
        qwen3_engine: true,
        qwen3_models: false,
        qwen3_ffmpeg: true,
    };
    let qwen3 = status(probe, EnginePreset::Qwen3, "/data", "/home/u");
    assert!(!qwen3.is_ready());
    assert!(!qwen3.qwen3_ready);
    assert!(qwen3.whisperx_ready);
    assert_eq!(qwen3.default_output_directory, "/home/u/Documents/Galpi");
    let whisperx = status(probe, EnginePreset::WhisperX, "/data", "/home/u");
    assert!(whisperx.is_ready());
    assert_eq!(whisperx.engine_version, "WhisperX 3.8.6");
}

#[test]
fn the_worker_environment_carries_a_token_only_when_one_is_given() {
    let paths = AppPaths::resolve("/data");
    let with_token = process_environment(&paths, "/worker", Some(" hf_x "), "/home/u", "/tmp");
    assert_eq!(with_token.last(), Some(&("HF_TOKEN".to_owned(), "hf_x".to_owned())));
    let blank = process_environment(&paths, "/worker", Some("  "), "/home/u", "/tmp");
    assert!(blank.iter().all(|(name, _)| name != "HF_TOKEN"));
    assert!(blank.contains(&("HF_HOME".to_owned(), "/data/cache/huggingface".to_owned())));
    assert!(blank.contains(&("PATH".to_owned(), "/data/engine/bin:/usr/local/bin:/usr/bin:/bin:/usr/sbin:/sbin".to_owned())));
    let assistant = assistant_environment(&paths, "/worker", "key", Some("https://x"), None, "/home/u", "/tmp");
    assert!(assistant.contains(&("GALPI_ASSISTANT_API_KEY".to_owned(), "key".to_owned())));
    assert!(assistant.contains(&("GALPI_ASSISTANT_BASE_URL".to_owned(), "https://x".to_owned())));
    assert!(assistant.iter().all(|(name, _)| name != "GALPI_ASSISTANT_REASONING_EFFORT"));
}

#[test]
fn a_models_manifest_must_match_the_engine_version() {
    assert!(manifest_valid(r#"{"protocol":1,"whisperx":"3.8.6"}"#, "whisperx", "3.8.6"));
    assert!(!manifest_valid(r#"{"protocol":2,"whisperx":"3.8.6"}"#, "whisperx", "3.8.6"));
    assert!(!manifest_valid(r#"{"protocol":1,"whisperx":"3.8.5"}"#, "whisperx", "3.8.6"));
    assert!(!manifest_valid("not json", "whisperx", "3.8.6"));
}

#[test]
fn requirements_are_fingerprinted_with_fnv1a() {
    assert_eq!(fingerprint(b""), 0xcbf2_9ce4_8422_2325);
    assert_eq!(fingerprint(b"a"), 0xaf63_dc4c_8601_ec8c);
    assert_eq!(requirements_fingerprint(b"a"), "af63dc4c8601ec8c");
    assert_eq!(requirements_fingerprint(b"whisperx==3.8.6\n").len(), 16);
    assert_eq!(whisperx_marker(&requirements_fingerprint(b"")), "3.8.6+cbf29ce484222325");
}

#[test]
fn qwen3_transcription_stays_offline() {
    let paths = AppPaths::resolve("/data");
    let qwen3 = transcription_environment(&paths, "/worker", EnginePreset::Qwen3, "/home/u", "/tmp");
    assert!(qwen3.contains(&("HF_HUB_OFFLINE".to_owned(), "1".to_owned())));
    assert!(qwen3.contains(&("TRANSFORMERS_OFFLINE".to_owned(), "1".to_owned())));
    let whisperx = transcription_environment(&paths, "/worker", EnginePreset::WhisperX, "/home/u", "/tmp");
    assert!(whisperx.iter().all(|(name, _)| name != "HF_HUB_OFFLINE"));
    let mut env = Vec::new();
    go_offline(&mut env);
    assert_eq!(env.len(), 2);
}

#[test]
fn each_preset_needs_its_models_and_a_matching_manifest() {
    assert_eq!(
        required_model_directories(EnginePreset::Qwen3),
        [
            "models--Qwen--Qwen3-ASR-1.7B",
            "models--Qwen--Qwen3-ForcedAligner-0.6B",
            "models--pyannote--speaker-diarization-community-1"
        ]
    );
    assert_eq!(required_model_directories(EnginePreset::WhisperX), MODEL_DIRECTORIES);
    assert!(models_manifest_valid(r#"{"protocol":1,"qwen3":"1.0.0"}"#, EnginePreset::Qwen3));
    assert!(!models_manifest_valid(r#"{"protocol":1,"qwen3":"1.0.0"}"#, EnginePreset::WhisperX));
    assert_eq!(engine_marker(EnginePreset::Qwen3, "ff"), "1.0.0+ff");
    assert_eq!(engine_marker(EnginePreset::WhisperX, "ff"), "3.8.6+ff");
}

#[test]
fn every_worker_environment_sets_each_variable_once() {
    let paths = AppPaths::resolve("/data");
    let distinct = |env: &Vec<(String, String)>| {
        let mut names: Vec<&String> = env.iter().map(|(name, _)| name).collect();
        names.sort();
        names.windows(2).all(|pair| pair[0] != pair[1])
    };
    assert!(distinct(&process_environment(&paths, "/worker", Some("hf_x"), "/home/u", "/tmp")));
    assert!(distinct(&assistant_environment(&paths, "/worker", "key", Some("https://x"), Some("high"), "/home/u", "/tmp")));
    assert!(distinct(&transcription_environment(&paths, "/worker", EnginePreset::Qwen3, "/home/u", "/tmp")));
}
