use galpi::commands::{
    check_transcript_import, completed_run, engine_layout, install_steps, prepare_args, refine_args,
    refined_minutes, transcribe_args,
};
use galpi::engine::EnginePreset;
use galpi::paths::AppPaths;
use galpi::job::SpeakerHint;
use galpi::worker::WorkerOutcome;

#[test]
fn transcription_arguments_carry_the_speaker_hint() {
    let args = transcribe_args("/in.wav", "/out", EnginePreset::Qwen3, Some("/tmp/ctx"), SpeakerHint::Range { min: 2, max: 12 });
    assert_eq!(
        args,
        [
            "-m", "galpi_worker", "transcribe", "--input", "/in.wav", "--output", "/out", "--engine",
            "qwen3", "--asr-context", "/tmp/ctx", "--speaker-range", "2", "12"
        ]
    );
    let exact = transcribe_args("/in.wav", "/out", EnginePreset::WhisperX, None, SpeakerHint::Exact { count: 3 });
    assert_eq!(&exact[7..], ["--engine", "whisperx", "--num-speakers", "3"]);
}

#[test]
fn refinement_and_preparation_arguments() {
    let args = refine_args("/t.txt", "/m.md", None, Some("/tmp/p"), Some("glm"));
    assert_eq!(
        args,
        ["-m", "galpi_worker", "refine", "--transcript", "/t.txt", "--output", "/m.md", "--participants", "/tmp/p", "--model", "glm"]
    );
    let prepare = prepare_args("/data/models/ready.json", "/data/engine/bin", EnginePreset::WhisperX);
    assert_eq!(prepare[8], "whisperx");
}

#[test]
fn an_empty_checkpoint_means_none() {
    let run = completed_run(Some(WorkerOutcome::Completed {
        srt: "/a.srt".to_owned(),
        txt: "/a.txt".to_owned(),
        checkpoint: String::new(),
        segments: 4,
        filtered: 2,
    }));
    assert_eq!(run.map(|r| (r.checkpoint, r.segments, r.filtered)), Ok((None, 4, 2)));
    assert_eq!(
        completed_run(None).err().map(|e| e.code),
        Some("WORKER_PROTOCOL_ERROR".to_owned())
    );
    assert_eq!(
        refined_minutes(Some(WorkerOutcome::Refined { minutes: "/m.md".to_owned() })),
        Ok("/m.md".to_owned())
    );
    assert_eq!(
        refined_minutes(Some(WorkerOutcome::Progress)).err().map(|e| e.code),
        Some("WORKER_PROTOCOL_ERROR".to_owned())
    );
}

#[test]
fn rejects_non_text_files() {
    assert_eq!(
        check_transcript_import(true, Some("wav"), 5).err().map(|e| e.code),
        Some("INVALID_TRANSCRIPT".to_owned())
    );
    assert_eq!(
        check_transcript_import(false, Some("txt"), 5).err().map(|e| e.code),
        Some("INVALID_TRANSCRIPT".to_owned())
    );
    assert_eq!(
        check_transcript_import(true, Some("md"), 21 * 1024 * 1024).err().map(|e| e.code),
        Some("TRANSCRIPT_TOO_LARGE".to_owned())
    );
    assert!(check_transcript_import(true, Some("txt"), 20 * 1024 * 1024).is_ok());
}

#[test]
fn installation_replaces_a_partial_virtualenv() {
    let steps = install_steps(EnginePreset::Qwen3, "/q/.venv", "/q/.venv/bin/python", "/w/requirements-qwen3.txt");
    assert_eq!(steps.len(), 3);
    assert_eq!(steps[1].args, ["venv", "--clear", "--python", "3.12", "/q/.venv"]);
    assert_eq!(steps[2].args[5], "/w/requirements-qwen3.txt");
    assert_eq!(steps[2].percent, 35);
}

#[test]
fn each_preset_has_its_own_engine_layout() {
    let paths = AppPaths::resolve("/data");
    let qwen3 = engine_layout(&paths, "/worker", EnginePreset::Qwen3);
    assert_eq!(qwen3.venv, "/data/qwen3/.venv");
    assert_eq!(qwen3.python, "/data/qwen3/.venv/bin/python");
    assert_eq!(qwen3.requirements, "/worker/requirements-qwen3.txt");
    assert_eq!(qwen3.models_manifest, "/data/models/qwen3-ready.json");
    let whisperx = engine_layout(&paths, "/worker", EnginePreset::WhisperX);
    assert_eq!(whisperx.venv, "/data/engine/.venv");
    assert_eq!(whisperx.engine_manifest, "/data/engine/ready-3.8.6");
    assert_eq!(whisperx.requirements, "/worker/requirements.txt");
}
