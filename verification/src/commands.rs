//! The command lines Galpi runs: the worker's transcribe, refine and
//! prepare invocations, the engine installation steps, and how a finished
//! worker run turns into a result.

use vstd::prelude::*;
use crate::artifact::Artifacts;
use crate::engine::{preset_name, EnginePreset};
use crate::environment::EnvironmentStatus;
use crate::error::AppError;
use crate::paths::{joined, join, AppPaths};
use crate::job::SpeakerHint;
use crate::roster::{opt_text, texts};
use crate::text::{decimal, decimal_spec, same_text};
use crate::worker::WorkerOutcome;

verus! {

fn push_arg(args: &mut Vec<String>, arg: &str)
    ensures
        texts(final(args)@) == texts(old(args)@).push(arg@),
{
    args.push(arg.to_owned());
    proof {
        assert(texts(args@) =~= texts(old(args)@).push(arg@));
    }
}

/// The diarization arguments for a speaker hint.
pub open spec fn hint_args(hint: SpeakerHint) -> Seq<Seq<char>> {
    match hint {
        SpeakerHint::Auto => Seq::empty(),
        SpeakerHint::Exact { count } => seq!["--num-speakers"@, decimal_spec(count as nat)],
        SpeakerHint::Range { min, max } => seq!["--speaker-range"@, decimal_spec(min as nat), decimal_spec(max as nat)],
    }
}

/// The worker invocation that transcribes `input` into the meeting folder
/// `output`.
pub open spec fn transcribe_args_spec(
    input: Seq<char>,
    output: Seq<char>,
    engine: EnginePreset,
    asr_context: Option<Seq<char>>,
    hint: SpeakerHint,
) -> Seq<Seq<char>> {
    let base = seq![
        "-m"@,
        "galpi_worker"@,
        "transcribe"@,
        "--input"@,
        input,
        "--output"@,
        output,
        "--engine"@,
        preset_name(engine),
    ];
    let with_context = match asr_context {
        Some(path) => base + seq!["--asr-context"@, path],
        None => base,
    };
    with_context + hint_args(hint)
}

pub fn transcribe_args(
    input: &str,
    output: &str,
    engine: EnginePreset,
    asr_context: Option<&str>,
    hint: SpeakerHint,
) -> (args: Vec<String>)
    ensures
        texts(args@) == transcribe_args_spec(input@, output@, engine, match asr_context {
            Some(p) => Some(p@),
            None => None,
        }, hint),
{
    let mut args: Vec<String> = Vec::new();
    push_arg(&mut args, "-m");
    push_arg(&mut args, "galpi_worker");
    push_arg(&mut args, "transcribe");
    push_arg(&mut args, "--input");
    push_arg(&mut args, input);
    push_arg(&mut args, "--output");
    push_arg(&mut args, output);
    push_arg(&mut args, "--engine");
    push_arg(&mut args, engine.as_str());
    let ghost base = texts(args@);
    match asr_context {
        Some(path) => {
            push_arg(&mut args, "--asr-context");
            push_arg(&mut args, path);
        },
        None => {},
    }
    let ghost with_context = texts(args@);
    match hint {
        SpeakerHint::Auto => {},
        SpeakerHint::Exact { count } => {
            push_arg(&mut args, "--num-speakers");
            push_arg(&mut args, decimal(count as u64).as_str());
        },
        SpeakerHint::Range { min, max } => {
            push_arg(&mut args, "--speaker-range");
            push_arg(&mut args, decimal(min as u64).as_str());
            push_arg(&mut args, decimal(max as u64).as_str());
        },
    }
    proof {
        assert(with_context + hint_args(hint) =~= texts(args@));
    }
    args
}

/// The worker invocation that refines a transcript into minutes at
/// `output`; the context files are handed over by path.
pub open spec fn refine_args_spec(
    transcript: Seq<char>,
    output: Seq<char>,
    background: Option<Seq<char>>,
    participants: Option<Seq<char>>,
    model: Option<Seq<char>>,
) -> Seq<Seq<char>> {
    let base = seq!["-m"@, "galpi_worker"@, "refine"@, "--transcript"@, transcript, "--output"@, output];
    let a = match background {
        Some(p) => base + seq!["--background"@, p],
        None => base,
    };
    let b = match participants {
        Some(p) => a + seq!["--participants"@, p],
        None => a,
    };
    match model {
        Some(m) => b + seq!["--model"@, m],
        None => b,
    }
}

pub fn refine_args(
    transcript: &str,
    output: &str,
    background: Option<&str>,
    participants: Option<&str>,
    model: Option<&str>,
) -> (args: Vec<String>)
    ensures
        texts(args@) == refine_args_spec(
            transcript@,
            output@,
            match background {
                Some(p) => Some(p@),
                None => None,
            },
            match participants {
                Some(p) => Some(p@),
                None => None,
            },
            match model {
                Some(m) => Some(m@),
                None => None,
            },
        ),
{
    let mut args: Vec<String> = Vec::new();
    push_arg(&mut args, "-m");
    push_arg(&mut args, "galpi_worker");
    push_arg(&mut args, "refine");
    push_arg(&mut args, "--transcript");
    push_arg(&mut args, transcript);
    push_arg(&mut args, "--output");
    push_arg(&mut args, output);
    let ghost s0 = texts(args@);
    match background {
        Some(p) => {
            push_arg(&mut args, "--background");
            push_arg(&mut args, p);
        },
        None => {},
    }
    let ghost s1 = texts(args@);
    proof {
        assert(s1 =~= match background {
            Some(p) => s0 + seq!["--background"@, p@],
            None => s0,
        });
    }
    match participants {
        Some(p) => {
            push_arg(&mut args, "--participants");
            push_arg(&mut args, p);
        },
        None => {},
    }
    let ghost s2 = texts(args@);
    proof {
        assert(s2 =~= match participants {
            Some(p) => s1 + seq!["--participants"@, p@],
            None => s1,
        });
    }
    match model {
        Some(m) => {
            push_arg(&mut args, "--model");
            push_arg(&mut args, m);
        },
        None => {},
    }
    proof {
        assert(texts(args@) =~= match model {
            Some(m) => s2 + seq!["--model"@, m@],
            None => s2,
        });
    }
    args
}

/// The worker invocation that downloads and checks a preset's models.
pub open spec fn prepare_args_spec(manifest: Seq<char>, engine_bin: Seq<char>, engine: EnginePreset) -> Seq<Seq<char>> {
    seq![
        "-m"@,
        "galpi_worker"@,
        "prepare"@,
        "--manifest"@,
        manifest,
        "--engine-bin"@,
        engine_bin,
        "--engine"@,
        preset_name(engine),
    ]
}

pub fn prepare_args(manifest: &str, engine_bin: &str, engine: EnginePreset) -> (args: Vec<String>)
    ensures
        texts(args@) == prepare_args_spec(manifest@, engine_bin@, engine),
{
    let mut args: Vec<String> = Vec::new();
    push_arg(&mut args, "-m");
    push_arg(&mut args, "galpi_worker");
    push_arg(&mut args, "prepare");
    push_arg(&mut args, "--manifest");
    push_arg(&mut args, manifest);
    push_arg(&mut args, "--engine-bin");
    push_arg(&mut args, engine_bin);
    push_arg(&mut args, "--engine");
    push_arg(&mut args, engine.as_str());
    proof {
        assert(texts(args@) =~= prepare_args_spec(manifest@, engine_bin@, engine));
    }
    args
}

/// The result fields of a transcription run.
#[derive(Debug, Clone, PartialEq, Eq)]
pub struct CompletedRun {
    pub srt: String,
    pub txt: String,
    /// The Qwen3 pipeline publishes no checkpoint; its completion carries an
    /// empty path meaning none.
    pub checkpoint: Option<String>,
    pub segments: usize,
    pub filtered: usize,
}

/// What a transcription run reported as its result.
pub fn completed_run(outcome: Option<WorkerOutcome>) -> (run: Result<CompletedRun, AppError>)
    ensures
        match outcome {
            Some(WorkerOutcome::Completed { srt, txt, checkpoint, segments, filtered }) => run matches Ok(r) && {
                &&& r.srt == srt
                &&& r.txt == txt
                &&& r.checkpoint == if checkpoint@.len() == 0 {
                    None::<String>
                } else {
                    Some(checkpoint)
                }
                &&& r.segments == segments
                &&& r.filtered == filtered
            },
            _ => run matches Err(e) && e.code@ == "WORKER_PROTOCOL_ERROR"@,
        },
{
    match outcome {
        Some(WorkerOutcome::Completed { srt, txt, checkpoint, segments, filtered }) => {
            let checkpoint = if checkpoint.as_str().is_empty() {
                None
            } else {
                Some(checkpoint)
            };
            Ok(CompletedRun { srt, txt, checkpoint, segments, filtered })
        },
        _ => Err(AppError::new("WORKER_PROTOCOL_ERROR", "워커가 완료 결과를 전달하지 않았습니다.")),
    }
}

/// What a refinement run reported as the minutes it wrote.
pub fn refined_minutes(outcome: Option<WorkerOutcome>) -> (minutes: Result<String, AppError>)
    ensures
        match outcome {
            Some(WorkerOutcome::Refined { minutes: m }) => minutes == Ok::<String, AppError>(m),
            _ => minutes matches Err(e) && e.code@ == "WORKER_PROTOCOL_ERROR"@,
        },
{
    match outcome {
        Some(WorkerOutcome::Refined { minutes }) => Ok(minutes),
        _ => Err(AppError::new("WORKER_PROTOCOL_ERROR", "워커가 회의록 결과를 전달하지 않았습니다.")),
    }
}

/// The artifacts of a transcription whose paths were checked to lie inside
/// the meeting folder `root`.
pub fn transcription_artifacts(root: String, run: CompletedRun, source_audio: String) -> (artifacts: Artifacts)
    ensures
        artifacts.srt == Some(run.srt),
        artifacts.txt == run.txt,
        artifacts.checkpoint == run.checkpoint,
        artifacts.minutes.is_none(),
        artifacts.output_directory == root,
        artifacts.source_audio == Some(source_audio),
{
    Artifacts {
        srt: Some(run.srt),
        txt: run.txt,
        checkpoint: run.checkpoint,
        minutes: None,
        output_directory: root,
        source_audio: Some(source_audio),
    }
}

/// Largest transcript accepted for import: text transcripts are far below
/// this, so anything bigger is a mistaken selection such as an audio file.
pub const MAX_TRANSCRIPT_BYTES: u64 = 20971520;

/// Why a file offered as a transcript is refused, if it is.
pub open spec fn import_refusal(is_file: bool, extension: Option<Seq<char>>, len: u64) -> Option<Seq<char>> {
    if !is_file {
        Some("INVALID_TRANSCRIPT"@)
    } else if !(extension == Some("txt"@) || extension == Some("md"@)) {
        Some("INVALID_TRANSCRIPT"@)
    } else if len > MAX_TRANSCRIPT_BYTES {
        Some("TRANSCRIPT_TOO_LARGE"@)
    } else {
        None
    }
}

/// Only a txt or md file of at most 20 MiB can be imported as a transcript.
pub fn check_transcript_import(is_file: bool, extension: Option<&str>, len: u64) -> (checked: Result<(), AppError>)
    ensures
        match import_refusal(is_file, match extension {
            Some(e) => Some(e@),
            None => None,
        }, len) {
            None => checked is Ok,
            Some(code) => checked matches Err(e) && e.code@ == code,
        },
{
    if !is_file {
        return Err(AppError::new("INVALID_TRANSCRIPT", "가져온 경로가 전사문 파일이 아닙니다."));
    }
    let text = match extension {
        Some(e) => same_text(e, "txt") || same_text(e, "md"),
        None => false,
    };
    if !text {
        return Err(AppError::new("INVALID_TRANSCRIPT", "txt 또는 md 텍스트 파일만 가져올 수 있습니다."));
    }
    if len > MAX_TRANSCRIPT_BYTES {
        return Err(AppError::new("TRANSCRIPT_TOO_LARGE", "전사문이 너무 큽니다. 20MB 이하의 텍스트 파일을 사용해 주세요."));
    }
    Ok(())
}

/// What a setup run still has to do for the selected preset.
#[derive(Debug, Clone, Copy, PartialEq, Eq, Structural)]
pub struct SetupNeeds {
    /// Install the Python runtime, the virtualenv and the engine packages.
    pub install_engine: bool,
    /// Let the worker fetch and check models and ffmpeg.
    pub prepare_models: bool,
}

/// A setup run does only what is missing.
pub fn setup_needs(status: &EnvironmentStatus) -> (needs: SetupNeeds)
    ensures
        needs.install_engine == !status.engine_ready,
        needs.prepare_models == (!status.models_ready || !status.ffmpeg_ready),
{
    SetupNeeds { install_engine: !status.engine_ready, prepare_models: !status.models_ready || !status.ffmpeg_ready }
}

/// A finished setup run must leave a ready environment.
pub fn check_setup_complete(status: &EnvironmentStatus) -> (complete: Result<(), AppError>)
    ensures
        complete is Ok <==> status.ready(),
        complete matches Err(e) ==> e.code@ == "SETUP_INCOMPLETE"@,
{
    if status.is_ready() {
        Ok(())
    } else {
        Err(AppError::new("SETUP_INCOMPLETE", "준비 프로세스가 종료됐지만 필수 파일이 확인되지 않았습니다."))
    }
}

/// One step of an engine installation: a `uv` command and the progress the
/// user sees while it runs.
#[derive(Debug, Clone, PartialEq, Eq)]
pub struct SetupStep {
    pub percent: u8,
    pub message: String,
    pub args: Vec<String>,
}

/// The `uv` arguments of the installation steps: the managed Python, a fresh
/// virtualenv (replacing a partial one so a retry is safe), and the pinned
/// requirements.
pub open spec fn install_args(venv: Seq<char>, python: Seq<char>, requirements: Seq<char>) -> Seq<Seq<Seq<char>>> {
    seq![
        seq!["python"@, "install"@, "3.12"@],
        seq!["venv"@, "--clear"@, "--python"@, "3.12"@, venv],
        seq!["pip"@, "install"@, "--python"@, python, "-r"@, requirements],
    ]
}

fn step(percent: u8, message: &str, args: Vec<String>) -> (s: SetupStep)
    ensures
        s.percent == percent,
        s.message@ == message@,
        s.args == args,
{
    SetupStep { percent, message: message.to_owned(), args }
}

/// The installation steps of a preset's engine. `venv` is where its
/// virtualenv goes, `python` the interpreter inside it, `requirements` the
/// pinned requirements file.
pub fn install_steps(preset: EnginePreset, venv: &str, python: &str, requirements: &str) -> (steps: Vec<SetupStep>)
    ensures
        steps@.len() == 3,
        steps@[0].percent == 5 && steps@[1].percent == 22 && steps@[2].percent == 35,
        steps@[0].message@ == "Python 3.12 런타임을 준비합니다."@,
        steps@[1].message@ == match preset {
            EnginePreset::WhisperX => "앱 전용 가상환경을 만듭니다."@,
            EnginePreset::Qwen3 => "Qwen3 전용 가상환경을 만듭니다."@,
        },
        steps@[2].message@ == match preset {
            EnginePreset::WhisperX => "WhisperX와 내장 ffmpeg를 설치합니다."@,
            EnginePreset::Qwen3 => "Qwen3 ASR 런타임을 설치합니다."@,
        },
        forall|i: int| 0 <= i < 3 ==> texts(#[trigger] steps@[i].args@) == install_args(venv@, python@, requirements@)[i],
{
    let mut a0: Vec<String> = Vec::new();
    push_arg(&mut a0, "python");
    push_arg(&mut a0, "install");
    push_arg(&mut a0, "3.12");
    let mut a1: Vec<String> = Vec::new();
    push_arg(&mut a1, "venv");
    push_arg(&mut a1, "--clear");
    push_arg(&mut a1, "--python");
    push_arg(&mut a1, "3.12");
    push_arg(&mut a1, venv);
    let mut a2: Vec<String> = Vec::new();
    push_arg(&mut a2, "pip");
    push_arg(&mut a2, "install");
    push_arg(&mut a2, "--python");
    push_arg(&mut a2, python);
    push_arg(&mut a2, "-r");
    push_arg(&mut a2, requirements);
    proof {
        assert(texts(a0@) =~= install_args(venv@, python@, requirements@)[0]);
        assert(texts(a1@) =~= install_args(venv@, python@, requirements@)[1]);
        assert(texts(a2@) =~= install_args(venv@, python@, requirements@)[2]);
    }
    let (venv_message, packages_message) = match preset {
        EnginePreset::WhisperX => ("앱 전용 가상환경을 만듭니다.", "WhisperX와 내장 ffmpeg를 설치합니다."),
        EnginePreset::Qwen3 => ("Qwen3 전용 가상환경을 만듭니다.", "Qwen3 ASR 런타임을 설치합니다."),
    };
    let mut steps: Vec<SetupStep> = Vec::new();
    steps.push(step(5, "Python 3.12 런타임을 준비합니다.", a0));
    steps.push(step(22, venv_message, a1));
    steps.push(step(35, packages_message, a2));
    steps
}

/// Where a preset's engine lives: its virtualenv and interpreter, the marker
/// of an installed engine, the models manifest, the folder of its ffmpeg, and
/// the requirements file in the worker folder it is installed from.
#[derive(Debug, Clone, PartialEq, Eq)]
pub struct EngineLayout {
    pub venv: String,
    pub python: String,
    pub engine_manifest: String,
    pub models_manifest: String,
    pub engine_bin: String,
    pub requirements: String,
}

/// The layout of a preset's engine within the app's data and the worker
/// folder `worker_root`. The Qwen3 stack has a virtualenv of its own so the
/// pinned WhisperX environment keeps its dependency versions untouched.
pub fn engine_layout(paths: &AppPaths, worker_root: &str, preset: EnginePreset) -> (layout: EngineLayout)
    ensures
        match preset {
            EnginePreset::WhisperX => {
                &&& layout.venv@ == joined(paths.engine@, ".venv"@)
                &&& layout.python == paths.python
                &&& layout.engine_manifest == paths.engine_manifest
                &&& layout.models_manifest == paths.models_manifest
                &&& layout.engine_bin == paths.engine_bin
                &&& layout.requirements@ == joined(worker_root@, "requirements.txt"@)
            },
            EnginePreset::Qwen3 => {
                &&& layout.venv@ == joined(paths.qwen3_root@, ".venv"@)
                &&& layout.python == paths.qwen3_python
                &&& layout.engine_manifest == paths.qwen3_engine_manifest
                &&& layout.models_manifest == paths.qwen3_models_manifest
                &&& layout.engine_bin == paths.qwen3_engine_bin
                &&& layout.requirements@ == joined(worker_root@, "requirements-qwen3.txt"@)
            },
        },
{
    match preset {
        EnginePreset::WhisperX => EngineLayout {
            venv: join(paths.engine.as_str(), ".venv"),
            python: paths.python.clone(),
            engine_manifest: paths.engine_manifest.clone(),
            models_manifest: paths.models_manifest.clone(),
            engine_bin: paths.engine_bin.clone(),
            requirements: join(worker_root, "requirements.txt"),
        },
        EnginePreset::Qwen3 => EngineLayout {
            venv: join(paths.qwen3_root.as_str(), ".venv"),
            python: paths.qwen3_python.clone(),
            engine_manifest: paths.qwen3_engine_manifest.clone(),
            models_manifest: paths.qwen3_models_manifest.clone(),
            engine_bin: paths.qwen3_engine_bin.clone(),
            requirements: join(worker_root, "requirements-qwen3.txt"),
        },
    }
}

/// With an automatic speaker hint the worker counts the speakers itself: the
/// command line is the fixed arguments and the biasing context alone, with no
/// speaker count or range. An exact hint adds the count after them, a range
/// adds its two bounds, and the biasing context comes right after the engine.
pub proof fn law_speaker_hints_shape_the_transcription(
    input: Seq<char>,
    output: Seq<char>,
    engine: EnginePreset,
    asr_context: Option<Seq<char>>,
    count: u8,
    min: u8,
    max: u8,
)
    ensures
        transcribe_args_spec(input, output, engine, asr_context, SpeakerHint::Auto) == seq![
            "-m"@,
            "galpi_worker"@,
            "transcribe"@,
            "--input"@,
            input,
            "--output"@,
            output,
            "--engine"@,
            preset_name(engine),
        ]
            + match asr_context {
            Some(p) => seq!["--asr-context"@, p],
            None => Seq::<Seq<char>>::empty(),
        },
        transcribe_args_spec(input, output, engine, asr_context, SpeakerHint::Exact { count })
            == transcribe_args_spec(input, output, engine, asr_context, SpeakerHint::Auto) + seq![
            "--num-speakers"@,
            decimal_spec(count as nat),
        ],
        transcribe_args_spec(input, output, engine, asr_context, SpeakerHint::Range { min, max })
            == transcribe_args_spec(input, output, engine, asr_context, SpeakerHint::Auto) + seq![
            "--speaker-range"@,
            decimal_spec(min as nat),
            decimal_spec(max as nat),
        ],
        transcribe_args_spec(input, output, engine, asr_context, SpeakerHint::Auto).len() == match asr_context {
            Some(_) => 11int,
            None => 9int,
        },
        asr_context matches Some(p) ==> transcribe_args_spec(input, output, engine, asr_context, SpeakerHint::Auto)[9]
            == "--asr-context"@ && transcribe_args_spec(input, output, engine, asr_context, SpeakerHint::Auto)[10] == p,
{
    let auto = transcribe_args_spec(input, output, engine, asr_context, SpeakerHint::Auto);
    assert(auto =~= seq![
        "-m"@,
        "galpi_worker"@,
        "transcribe"@,
        "--input"@,
        input,
        "--output"@,
        output,
        "--engine"@,
        preset_name(engine),
    ] + match asr_context {
        Some(p) => seq!["--asr-context"@, p],
        None => Seq::<Seq<char>>::empty(),
    });
}

/// Each optional file of a refinement reaches the worker: the arguments with
/// a background file are those without it, with `--background` and the path
/// inserted right after `--output <path>`; the participants file comes next
/// in the same way, and the model goes last.
pub proof fn law_refinement_hands_over_its_context(
    transcript: Seq<char>,
    output: Seq<char>,
    background: Seq<char>,
    participants: Option<Seq<char>>,
    model: Option<Seq<char>>,
    roster: Seq<char>,
    chosen: Seq<char>,
)
    ensures
        ({
            let with = refine_args_spec(transcript, output, Some(background), participants, model);
            let without = refine_args_spec(transcript, output, None, participants, model);
            &&& with == without.take(7) + seq!["--background"@, background] + without.skip(7)
            &&& with[7] == "--background"@
            &&& with[8] == background
            &&& with.len() == without.len() + 2
        }),
        ({
            let with = refine_args_spec(transcript, output, None, Some(roster), model);
            let without = refine_args_spec(transcript, output, None, None, model);
            &&& with == without.take(7) + seq!["--participants"@, roster] + without.skip(7)
            &&& with[7] == "--participants"@
            &&& with[8] == roster
        }),
        ({
            let args = refine_args_spec(transcript, output, None, None, Some(chosen));
            &&& args.len() == 9
            &&& args[7] == "--model"@
            &&& args[8] == chosen
        }),
        refine_args_spec(transcript, output, None, None, None) == seq![
            "-m"@,
            "galpi_worker"@,
            "refine"@,
            "--transcript"@,
            transcript,
            "--output"@,
            output,
        ],
{
    let base = seq!["-m"@, "galpi_worker"@, "refine"@, "--transcript"@, transcript, "--output"@, output];
    let with = refine_args_spec(transcript, output, Some(background), participants, model);
    let without = refine_args_spec(transcript, output, None, participants, model);
    let rest = match participants {
        Some(p) => seq!["--participants"@, p],
        None => Seq::<Seq<char>>::empty(),
    } + match model {
        Some(m) => seq!["--model"@, m],
        None => Seq::<Seq<char>>::empty(),
    };
    assert(without =~= base + rest);
    assert(with =~= base + seq!["--background"@, background] + rest);
    assert(without.take(7) =~= base);
    assert(without.skip(7) =~= rest);
    let p_with = refine_args_spec(transcript, output, None, Some(roster), model);
    let p_without = refine_args_spec(transcript, output, None, None, model);
    let m_rest = match model {
        Some(m) => seq!["--model"@, m],
        None => Seq::<Seq<char>>::empty(),
    };
    assert(p_without =~= base + m_rest);
    assert(p_with =~= base + seq!["--participants"@, roster] + m_rest);
    assert(p_without.take(7) =~= base);
    assert(p_without.skip(7) =~= m_rest);
    assert(refine_args_spec(transcript, output, None, None, None) =~= base);
}

/// A text transcript is imported unless it is too large, and only a text
/// transcript is: a regular `txt` or `md` file of at most 20 MiB is accepted
/// whatever its size below that, anything that is not a regular file or has
/// another extension is refused as no transcript whatever its size, and a
/// text file over the limit is refused as too large.
pub proof fn law_text_transcripts_are_imported(is_file: bool, extension: Option<Seq<char>>, len: u64)
    ensures
        is_file && (extension == Some("txt"@) || extension == Some("md"@)) && len <= MAX_TRANSCRIPT_BYTES
            ==> import_refusal(is_file, extension, len).is_none(),
        !is_file ==> import_refusal(is_file, extension, len) == Some("INVALID_TRANSCRIPT"@),
        !(extension == Some("txt"@) || extension == Some("md"@)) ==> import_refusal(is_file, extension, len) == Some(
            "INVALID_TRANSCRIPT"@,
        ),
        is_file && (extension == Some("txt"@) || extension == Some("md"@)) && len > MAX_TRANSCRIPT_BYTES
            ==> import_refusal(is_file, extension, len) == Some("TRANSCRIPT_TOO_LARGE"@),
{
}

} // verus!
