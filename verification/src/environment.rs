//! Engine readiness and the environment worker processes run in.

use vstd::prelude::*;
use crate::engine::EnginePreset;
use crate::paths::{joined, join, AppPaths};
use crate::roster::{filled, keep_filled, opt_text};
use crate::text::{chars_of, concat, push_char, string_of, trim, trim_spec};

verus! {

pub const ENGINE_VERSION: &'static str = "3.8.6";
pub const QWEN3_ENGINE_VERSION: &'static str = "1.0.0";
pub const QWEN3_MODEL_ID: &'static str = "Qwen/Qwen3-ASR-1.7B";
pub const QWEN3_ALIGNER_ID: &'static str = "Qwen/Qwen3-ForcedAligner-0.6B";
pub const PYANNOTE_MODEL_DIR: &'static str = "models--pyannote--speaker-diarization-community-1";
pub const QWEN3_MLX_WEIGHTS: &'static str = "mlx/qwen3-asr-1.7b-8bit/weights.safetensors";

/// The WhisperX-stack model caches that an existing Hugging Face cache can
/// lend the app.
pub const MODEL_DIRECTORIES: [&'static str; 3] = [
    "models--mobiuslabsgmbh--faster-whisper-large-v3-turbo",
    "models--kresnik--wav2vec2-large-xlsr-korean",
    "models--pyannote--speaker-diarization-community-1",
];

/// What an installed engine's readiness marker must hold to count as
/// current: the display version plus the fingerprint of the requirements it
/// was installed from.
pub open spec fn marker_of(version: Seq<char>, fingerprint: Seq<char>) -> Seq<char> {
    version + "+"@ + fingerprint
}

pub fn whisperx_marker(requirements_fingerprint: &str) -> (marker: String)
    ensures
        marker@ == marker_of(ENGINE_VERSION@, requirements_fingerprint@),
{
    let mut marker = concat(ENGINE_VERSION, "+");
    marker.append(requirements_fingerprint);
    marker
}

pub fn qwen3_marker(requirements_fingerprint: &str) -> (marker: String)
    ensures
        marker@ == marker_of(QWEN3_ENGINE_VERSION@, requirements_fingerprint@),
{
    let mut marker = concat(QWEN3_ENGINE_VERSION, "+");
    marker.append(requirements_fingerprint);
    marker
}

/// FNV-1a over a file's bytes: the fingerprint that tells whether a
/// requirements file changed since an engine was installed from it.
pub open spec fn fnv1a(bytes: Seq<u8>) -> u64
    decreases bytes.len(),
{
    if bytes.len() == 0 {
        0xcbf2_9ce4_8422_2325u64
    } else {
        let mixed = fnv1a(bytes.drop_last()) ^ (bytes.last() as u64);
        ((mixed as nat * 0x0000_0100_0000_01b3nat) % 0x1_0000_0000_0000_0000nat) as u64
    }
}

/// The lowercase hexadecimal digit for `d`.
pub open spec fn hex_char(d: nat) -> char {
    if d < 10 {
        (48 + d) as char
    } else {
        (87 + d) as char
    }
}

/// The last `count` hexadecimal digits of `n`, most significant first.
pub open spec fn hex_digits(n: nat, count: nat) -> Seq<char>
    decreases count,
{
    if count == 0 {
        Seq::empty()
    } else {
        hex_digits(n / 16, (count - 1) as nat).push(hex_char(n % 16))
    }
}

fn hex_digit(d: u8) -> (c: char)
    requires
        d < 16,
    ensures
        c == hex_char(d as nat),
{
    match d {
        0 => '0',
        1 => '1',
        2 => '2',
        3 => '3',
        4 => '4',
        5 => '5',
        6 => '6',
        7 => '7',
        8 => '8',
        9 => '9',
        10 => 'a',
        11 => 'b',
        12 => 'c',
        13 => 'd',
        14 => 'e',
        _ => 'f',
    }
}

fn hex_digits_of(n: u64, count: u8) -> (digits: Vec<char>)
    ensures
        digits@ == hex_digits(n as nat, count as nat),
    decreases count,
{
    if count == 0 {
        Vec::new()
    } else {
        let mut digits = hex_digits_of(n / 16, count - 1);
        digits.push(hex_digit((n % 16) as u8));
        digits
    }
}

/// The FNV-1a fingerprint of a requirements file.
pub fn fingerprint(bytes: &[u8]) -> (hash: u64)
    ensures
        hash == fnv1a(bytes@),
{
    let mut hash: u64 = 0xcbf2_9ce4_8422_2325;
    let mut i: usize = 0;
    while i < bytes.len()
        invariant
            i <= bytes.len(),
            hash == fnv1a(bytes@.take(i as int)),
        decreases bytes.len() - i,
    {
        proof {
            assert(bytes@.take(i + 1).drop_last() =~= bytes@.take(i as int));
        }
        hash = (hash ^ (bytes[i] as u64)).wrapping_mul(0x0000_0100_0000_01b3u64);
        i = i + 1;
    }
    proof {
        assert(bytes@.take(bytes@.len() as int) =~= bytes@);
    }
    hash
}

/// A requirements file's fingerprint as the sixteen lowercase hexadecimal
/// digits a readiness marker carries.
pub fn requirements_fingerprint(bytes: &[u8]) -> (text: String)
    ensures
        text@ == hex_digits(fnv1a(bytes@) as nat, 16),
{
    let digits = hex_digits_of(fingerprint(bytes), 16);
    string_of(digits.as_slice())
}

/// A repository id with each `/` written as `--`.
pub open spec fn slashes_doubled(s: Seq<char>) -> Seq<char>
    decreases s.len(),
{
    if s.len() == 0 {
        Seq::empty()
    } else if s.last() == '/' {
        slashes_doubled(s.drop_last()) + seq!['-', '-']
    } else {
        slashes_doubled(s.drop_last()).push(s.last())
    }
}

/// Hugging Face cache directories use `models--Org--Name` from the repo id.
pub fn cache_dir_name(repo_id: &str) -> (dir: String)
    ensures
        dir@ == "models--"@ + slashes_doubled(repo_id@),
{
    let chars = chars_of(repo_id);
    let mut out: Vec<char> = Vec::new();
    let mut i: usize = 0;
    while i < chars.len()
        invariant
            chars@ == repo_id@,
            i <= chars.len(),
            out@ == slashes_doubled(chars@.take(i as int)),
        decreases chars.len() - i,
    {
        proof {
            assert(chars@.take(i + 1).drop_last() =~= chars@.take(i as int));
        }
        if chars[i] == '/' {
            out.push('-');
            out.push('-');
            proof {
                assert(out@ =~= slashes_doubled(chars@.take(i as int)) + seq!['-', '-']);
            }
        } else {
            out.push(chars[i]);
        }
        i = i + 1;
    }
    proof {
        assert(chars@.take(chars@.len() as int) =~= chars@);
    }
    let mut dir = "models--".to_owned();
    dir.append(string_of(out.as_slice()).as_str());
    dir
}

/// Whether the cache imported from the user's Hugging Face folder is
/// complete enough to run without the network: every model came over and no
/// token asks for a fresh download.
pub fn can_use_offline_cache(imported: usize, token: Option<&str>) -> (offline: bool)
    ensures
        offline == (imported == 3 && match token {
            Some(t) => trim_spec(t@).len() == 0,
            None => true,
        }),
{
    if imported != MODEL_DIRECTORIES.len() {
        return false;
    }
    match token {
        Some(t) => trim(t).as_str().is_empty(),
        None => true,
    }
}

/// What the readiness checks found on disk for both engine stacks.
#[derive(Debug, Clone, Copy, PartialEq, Eq, Structural)]
pub struct ReadinessProbe {
    pub whisperx_engine: bool,
    pub whisperx_models: bool,
    pub whisperx_ffmpeg: bool,
    pub qwen3_engine: bool,
    pub qwen3_models: bool,
    pub qwen3_ffmpeg: bool,
}

/// Readiness of the selected preset, and of both stacks.
#[derive(Debug, Clone, PartialEq, Eq)]
pub struct EnvironmentStatus {
    pub engine_preset: EnginePreset,
    pub engine_ready: bool,
    pub models_ready: bool,
    pub ffmpeg_ready: bool,
    pub qwen3_ready: bool,
    pub whisperx_ready: bool,
    pub data_directory: String,
    pub default_output_directory: String,
    pub engine_version: String,
}

impl EnvironmentStatus {
    pub open spec fn ready(self) -> bool {
        self.engine_ready && self.models_ready && self.ffmpeg_ready
    }

    pub fn is_ready(&self) -> (ready: bool)
        ensures
            ready == self.ready(),
    {
        self.engine_ready && self.models_ready && self.ffmpeg_ready
    }
}

/// The version shown for a preset.
pub open spec fn engine_version_label(preset: EnginePreset) -> Seq<char> {
    match preset {
        EnginePreset::Qwen3 => "Qwen3-ASR-1.7B · "@ + QWEN3_ENGINE_VERSION@,
        EnginePreset::WhisperX => "WhisperX "@ + ENGINE_VERSION@,
    }
}

/// The readiness report for the selected preset from what was found on disk.
pub fn status(probe: ReadinessProbe, preset: EnginePreset, data_directory: &str, home: &str) -> (status: EnvironmentStatus)
    ensures
        status.engine_preset == preset,
        status.engine_ready == match preset {
            EnginePreset::Qwen3 => probe.qwen3_engine,
            EnginePreset::WhisperX => probe.whisperx_engine,
        },
        status.models_ready == match preset {
            EnginePreset::Qwen3 => probe.qwen3_models,
            EnginePreset::WhisperX => probe.whisperx_models,
        },
        status.ffmpeg_ready == match preset {
            EnginePreset::Qwen3 => probe.qwen3_ffmpeg,
            EnginePreset::WhisperX => probe.whisperx_ffmpeg,
        },
        status.qwen3_ready == (probe.qwen3_engine && probe.qwen3_models && probe.qwen3_ffmpeg),
        status.whisperx_ready == (probe.whisperx_engine && probe.whisperx_models && probe.whisperx_ffmpeg),
        status.data_directory@ == data_directory@,
        status.default_output_directory@ == joined(home@, "Documents/Galpi"@),
        status.engine_version@ == engine_version_label(preset),
{
    let (engine_ready, models_ready, ffmpeg_ready, engine_version) = match preset {
        EnginePreset::Qwen3 => (
            probe.qwen3_engine,
            probe.qwen3_models,
            probe.qwen3_ffmpeg,
            concat("Qwen3-ASR-1.7B · ", QWEN3_ENGINE_VERSION),
        ),
        EnginePreset::WhisperX => (
            probe.whisperx_engine,
            probe.whisperx_models,
            probe.whisperx_ffmpeg,
            concat("WhisperX ", ENGINE_VERSION),
        ),
    };
    EnvironmentStatus {
        engine_preset: preset,
        engine_ready,
        models_ready,
        ffmpeg_ready,
        qwen3_ready: probe.qwen3_engine && probe.qwen3_models && probe.qwen3_ffmpeg,
        whisperx_ready: probe.whisperx_engine && probe.whisperx_models && probe.whisperx_ffmpeg,
        data_directory: data_directory.to_owned(),
        default_output_directory: join(home, "Documents/Galpi"),
        engine_version,
    }
}

/// One environment variable, name and value.
pub open spec fn pair_text(p: (String, String)) -> (Seq<char>, Seq<char>) {
    (p.0@, p.1@)
}

pub open spec fn env_text(env: Seq<(String, String)>) -> Seq<(Seq<char>, Seq<char>)> {
    env.map_values(|p: (String, String)| pair_text(p))
}

/// The fixed environment every worker process starts from: nothing is
/// inherited, the locale is Korean UTF-8, Python and the model caches stay
/// inside the app's own data, and telemetry is off.
pub open spec fn base_environment(
    paths: AppPaths,
    worker_root: Seq<char>,
    home: Seq<char>,
    tmpdir: Seq<char>,
) -> Seq<(Seq<char>, Seq<char>)> {
    seq![
        ("HOME"@, home),
        ("LANG"@, "ko_KR.UTF-8"@),
        ("LC_ALL"@, "ko_KR.UTF-8"@),
        ("PYTHONUTF8"@, "1"@),
        ("PYTHONSAFEPATH"@, "1"@),
        ("PYTHONDONTWRITEBYTECODE"@, "1"@),
        ("PYTHONPATH"@, worker_root),
        ("HF_HOME"@, joined(paths.cache@, "huggingface"@)),
        ("TORCH_HOME"@, joined(paths.cache@, "torch"@)),
        ("HF_HUB_DISABLE_IMPLICIT_TOKEN"@, "1"@),
        ("HF_HUB_DISABLE_TELEMETRY"@, "1"@),
        ("PYANNOTE_METRICS_ENABLED"@, "false"@),
        ("DO_NOT_TRACK"@, "1"@),
        ("UV_PYTHON_INSTALL_DIR"@, paths.python_installations@),
        ("UV_CACHE_DIR"@, joined(paths.cache@, "uv"@)),
        ("UV_PYTHON_PREFERENCE"@, "only-managed"@),
        ("PATH"@, paths.engine_bin@ + ":/usr/local/bin:/usr/bin:/bin:/usr/sbin:/sbin"@),
        ("TMPDIR"@, tmpdir),
    ]
}

/// The worker environment, with the Hugging Face token when one that is not
/// blank was given.
pub open spec fn process_environment_spec(
    paths: AppPaths,
    worker_root: Seq<char>,
    token: Option<Seq<char>>,
    home: Seq<char>,
    tmpdir: Seq<char>,
) -> Seq<(Seq<char>, Seq<char>)> {
    let base = base_environment(paths, worker_root, home, tmpdir);
    match filled(token) {
        Some(t) => base.push(("HF_TOKEN"@, t)),
        None => base,
    }
}

fn push_var(env: &mut Vec<(String, String)>, name: &str, value: &str)
    ensures
        env_text(final(env)@) == env_text(old(env)@).push((name@, value@)),
{
    env.push((name.to_owned(), value.to_owned()));
    proof {
        assert(env_text(env@) =~= env_text(old(env)@).push((name@, value@)));
    }
}

/// The environment a worker process runs in. `home` and `tmpdir` are the
/// user's home and temporary directories.
pub fn process_environment(
    paths: &AppPaths,
    worker_root: &str,
    token: Option<&str>,
    home: &str,
    tmpdir: &str,
) -> (env: Vec<(String, String)>)
    ensures
        env_text(env@) == process_environment_spec(
            *paths,
            worker_root@,
            match token {
                Some(t) => Some(t@),
                None => None,
            },
            home@,
            tmpdir@,
        ),
        env_names(env_text(env@)).no_duplicates(),
{
    proof {
        lemma_process_environment_names_distinct(*paths, worker_root@, match token {
            Some(t) => Some(t@),
            None => None,
        }, home@, tmpdir@);
    }
    let mut env: Vec<(String, String)> = Vec::new();
    push_var(&mut env, "HOME", home);
    push_var(&mut env, "LANG", "ko_KR.UTF-8");
    push_var(&mut env, "LC_ALL", "ko_KR.UTF-8");
    push_var(&mut env, "PYTHONUTF8", "1");
    push_var(&mut env, "PYTHONSAFEPATH", "1");
    push_var(&mut env, "PYTHONDONTWRITEBYTECODE", "1");
    push_var(&mut env, "PYTHONPATH", worker_root);
    push_var(&mut env, "HF_HOME", join(paths.cache.as_str(), "huggingface").as_str());
    push_var(&mut env, "TORCH_HOME", join(paths.cache.as_str(), "torch").as_str());
    push_var(&mut env, "HF_HUB_DISABLE_IMPLICIT_TOKEN", "1");
    push_var(&mut env, "HF_HUB_DISABLE_TELEMETRY", "1");
    push_var(&mut env, "PYANNOTE_METRICS_ENABLED", "false");
    push_var(&mut env, "DO_NOT_TRACK", "1");
    push_var(&mut env, "UV_PYTHON_INSTALL_DIR", paths.python_installations.as_str());
    push_var(&mut env, "UV_CACHE_DIR", join(paths.cache.as_str(), "uv").as_str());
    push_var(&mut env, "UV_PYTHON_PREFERENCE", "only-managed");
    let search = concat(paths.engine_bin.as_str(), ":/usr/local/bin:/usr/bin:/bin:/usr/sbin:/sbin");
    push_var(&mut env, "PATH", search.as_str());
    push_var(&mut env, "TMPDIR", tmpdir);
    proof {
        assert(env_text(env@) =~= base_environment(*paths, worker_root@, home@, tmpdir@));
    }
    let kept = keep_filled(match token {
        Some(t) => Some(t.to_owned()),
        None => None,
    });
    match kept {
        Some(t) => push_var(&mut env, "HF_TOKEN", t.as_str()),
        None => {},
    }
    env
}

/// The worker environment for assistant calls: the assistant credential and,
/// when configured, an endpoint override and a reasoning effort.
pub open spec fn assistant_environment_spec(
    paths: AppPaths,
    worker_root: Seq<char>,
    api_key: Seq<char>,
    base_url: Option<Seq<char>>,
    reasoning_effort: Option<Seq<char>>,
    home: Seq<char>,
    tmpdir: Seq<char>,
) -> Seq<(Seq<char>, Seq<char>)> {
    let env = process_environment_spec(paths, worker_root, None, home, tmpdir).push(
        ("GALPI_ASSISTANT_API_KEY"@, api_key),
    );
    let env = match base_url {
        Some(url) => env.push(("GALPI_ASSISTANT_BASE_URL"@, url)),
        None => env,
    };
    match reasoning_effort {
        Some(effort) => env.push(("GALPI_ASSISTANT_REASONING_EFFORT"@, effort)),
        None => env,
    }
}

pub fn assistant_environment(
    paths: &AppPaths,
    worker_root: &str,
    api_key: &str,
    base_url: Option<&str>,
    reasoning_effort: Option<&str>,
    home: &str,
    tmpdir: &str,
) -> (env: Vec<(String, String)>)
    ensures
        env_text(env@) == assistant_environment_spec(
            *paths,
            worker_root@,
            api_key@,
            match base_url {
                Some(u) => Some(u@),
                None => None,
            },
            match reasoning_effort {
                Some(e) => Some(e@),
                None => None,
            },
            home@,
            tmpdir@,
        ),
        env_names(env_text(env@)).no_duplicates(),
{
    proof {
        lemma_assistant_environment_names_distinct(*paths, worker_root@, api_key@, match base_url {
            Some(u) => Some(u@),
            None => None,
        }, match reasoning_effort {
            Some(e) => Some(e@),
            None => None,
        }, home@, tmpdir@);
    }
    let mut env = process_environment(paths, worker_root, None, home, tmpdir);
    push_var(&mut env, "GALPI_ASSISTANT_API_KEY", api_key);
    match base_url {
        Some(url) => push_var(&mut env, "GALPI_ASSISTANT_BASE_URL", url),
        None => {},
    }
    match reasoning_effort {
        Some(effort) => push_var(&mut env, "GALPI_ASSISTANT_REASONING_EFFORT", effort),
        None => {},
    }
    env
}

/// What `serde_json` finds in a JSON document: the unsigned integer stored
/// under a top-level key, if there is one.
pub uninterp spec fn json_u64_at(document: Seq<char>, key: Seq<char>) -> Option<u64>;

/// What `serde_json` finds in a JSON document: the string stored under a
/// top-level key, if there is one.
pub uninterp spec fn json_str_at(document: Seq<char>, key: Seq<char>) -> Option<Seq<char>>;

/// Parse `document` with `serde_json` and read the unsigned integer under
/// `key`; nothing when the document is not JSON or holds no such number.
#[verifier::external_body]
fn json_u64_field(document: &str, key: &str) -> (value: Option<u64>)
    ensures
        value == json_u64_at(document@, key@),
{
    serde_json::from_str::<serde_json::Value>(document).ok().and_then(|v| v.get(key).and_then(serde_json::Value::as_u64))
}

/// Parse `document` with `serde_json` and read the string under `key`;
/// nothing when the document is not JSON or holds no such string.
#[verifier::external_body]
fn json_str_field(document: &str, key: &str) -> (value: Option<String>)
    ensures
        opt_text(value) == json_str_at(document@, key@),
{
    serde_json::from_str::<serde_json::Value>(document).ok().and_then(
        |v| v.get(key).and_then(serde_json::Value::as_str).map(str::to_owned),
    )
}

/// A models manifest the worker wrote for the expected engine: protocol 1
/// and the engine version under the preset's key.
pub open spec fn manifest_matches(document: Seq<char>, key: Seq<char>, version: Seq<char>) -> bool {
    json_u64_at(document, "protocol"@) == Some(1u64) && json_str_at(document, key) == Some(version)
}

pub fn manifest_valid(document: &str, key: &str, version: &str) -> (valid: bool)
    ensures
        valid == manifest_matches(document@, key@, version@),
{
    let protocol = json_u64_field(document, "protocol");
    let stored = json_str_field(document, key);
    match (protocol, stored) {
        (Some(p), Some(v)) => p == 1 && crate::text::same_text(v.as_str(), version),
        _ => false,
    }
}

/// The variables that keep Hugging Face and Transformers off the network.
pub open spec fn offline_vars() -> Seq<(Seq<char>, Seq<char>)> {
    seq![("HF_HUB_OFFLINE"@, "1"@), ("TRANSFORMERS_OFFLINE"@, "1"@)]
}

/// Make a worker load models only from the local cache.
pub fn go_offline(env: &mut Vec<(String, String)>)
    ensures
        env_text(final(env)@) == env_text(old(env)@) + offline_vars(),
{
    let ghost before = env_text(env@);
    push_var(env, "HF_HUB_OFFLINE", "1");
    push_var(env, "TRANSFORMERS_OFFLINE", "1");
    proof {
        assert(env_text(env@) =~= before + offline_vars());
    }
}

/// The environment of a transcription run. Transcription only starts on a
/// prepared engine, so the Qwen3 stack loads exclusively from its cache.
pub open spec fn transcription_environment_spec(
    paths: AppPaths,
    worker_root: Seq<char>,
    engine: EnginePreset,
    home: Seq<char>,
    tmpdir: Seq<char>,
) -> Seq<(Seq<char>, Seq<char>)> {
    let env = process_environment_spec(paths, worker_root, None, home, tmpdir);
    match engine {
        EnginePreset::Qwen3 => env + offline_vars(),
        EnginePreset::WhisperX => env,
    }
}

pub fn transcription_environment(
    paths: &AppPaths,
    worker_root: &str,
    engine: EnginePreset,
    home: &str,
    tmpdir: &str,
) -> (env: Vec<(String, String)>)
    ensures
        env_text(env@) == transcription_environment_spec(*paths, worker_root@, engine, home@, tmpdir@),
        env_names(env_text(env@)).no_duplicates(),
{
    proof {
        lemma_transcription_environment_names_distinct(*paths, worker_root@, engine, home@, tmpdir@);
    }
    let mut env = process_environment(paths, worker_root, None, home, tmpdir);
    match engine {
        EnginePreset::Qwen3 => go_offline(&mut env),
        EnginePreset::WhisperX => {},
    }
    env
}

/// The Hugging Face cache folders a preset's models live in; diarization
/// stays on pyannote community-1 in both presets.
pub open spec fn model_directories(preset: EnginePreset) -> Seq<Seq<char>> {
    match preset {
        EnginePreset::WhisperX => seq![
            "models--mobiuslabsgmbh--faster-whisper-large-v3-turbo"@,
            "models--kresnik--wav2vec2-large-xlsr-korean"@,
            PYANNOTE_MODEL_DIR@,
        ],
        EnginePreset::Qwen3 => seq![
            "models--"@ + slashes_doubled(QWEN3_MODEL_ID@),
            "models--"@ + slashes_doubled(QWEN3_ALIGNER_ID@),
            PYANNOTE_MODEL_DIR@,
        ],
    }
}

/// The cache folders, under the models hub, that must exist for a preset's
/// models to count as downloaded.
pub fn required_model_directories(preset: EnginePreset) -> (dirs: Vec<String>)
    ensures
        crate::roster::texts(dirs@) == model_directories(preset),
{
    let mut dirs: Vec<String> = Vec::new();
    match preset {
        EnginePreset::WhisperX => {
            dirs.push(MODEL_DIRECTORIES[0].to_owned());
            dirs.push(MODEL_DIRECTORIES[1].to_owned());
            dirs.push(MODEL_DIRECTORIES[2].to_owned());
            proof {
                reveal_strlit("models--pyannote--speaker-diarization-community-1");
            }
        },
        EnginePreset::Qwen3 => {
            dirs.push(cache_dir_name(QWEN3_MODEL_ID));
            dirs.push(cache_dir_name(QWEN3_ALIGNER_ID));
            dirs.push(PYANNOTE_MODEL_DIR.to_owned());
        },
    }
    proof {
        assert(crate::roster::texts(dirs@) =~= model_directories(preset));
    }
    dirs
}

/// The key and version a preset's models manifest is written under.
pub open spec fn manifest_entry(preset: EnginePreset) -> (Seq<char>, Seq<char>) {
    match preset {
        EnginePreset::WhisperX => ("whisperx"@, ENGINE_VERSION@),
        EnginePreset::Qwen3 => ("qwen3"@, QWEN3_ENGINE_VERSION@),
    }
}

/// Whether a models manifest was written for the preset's current engine.
pub fn models_manifest_valid(document: &str, preset: EnginePreset) -> (valid: bool)
    ensures
        valid == manifest_matches(document@, manifest_entry(preset).0, manifest_entry(preset).1),
{
    match preset {
        EnginePreset::WhisperX => manifest_valid(document, "whisperx", ENGINE_VERSION),
        EnginePreset::Qwen3 => manifest_valid(document, "qwen3", QWEN3_ENGINE_VERSION),
    }
}

/// The readiness marker an engine installed from requirements with the given
/// fingerprint carries.
pub fn engine_marker(preset: EnginePreset, requirements_fingerprint: &str) -> (marker: String)
    ensures
        marker@ == marker_of(
            match preset {
                EnginePreset::WhisperX => ENGINE_VERSION@,
                EnginePreset::Qwen3 => QWEN3_ENGINE_VERSION@,
            },
            requirements_fingerprint@,
        ),
{
    match preset {
        EnginePreset::WhisperX => whisperx_marker(requirements_fingerprint),
        EnginePreset::Qwen3 => qwen3_marker(requirements_fingerprint),
    }
}

/// The names an environment sets, in order.
pub open spec fn env_names(env: Seq<(Seq<char>, Seq<char>)>) -> Seq<Seq<char>> {
    env.map_values(|p: (Seq<char>, Seq<char>)| p.0)
}

/// Every variable name a worker environment may set, each once.
pub open spec fn known_names() -> Seq<Seq<char>> {
    seq![
        "HOME"@, "LANG"@, "LC_ALL"@, "PYTHONUTF8"@, "PYTHONSAFEPATH"@, "PYTHONDONTWRITEBYTECODE"@,
        "PYTHONPATH"@, "HF_HOME"@, "TORCH_HOME"@, "HF_HUB_DISABLE_IMPLICIT_TOKEN"@,
        "HF_HUB_DISABLE_TELEMETRY"@, "PYANNOTE_METRICS_ENABLED"@, "DO_NOT_TRACK"@,
        "UV_PYTHON_INSTALL_DIR"@, "UV_CACHE_DIR"@, "UV_PYTHON_PREFERENCE"@, "PATH"@, "TMPDIR"@,
        "HF_TOKEN"@, "GALPI_ASSISTANT_API_KEY"@, "GALPI_ASSISTANT_BASE_URL"@,
        "GALPI_ASSISTANT_REASONING_EFFORT"@, "HF_HUB_OFFLINE"@, "TRANSFORMERS_OFFLINE"@,
    ]
}

#[verifier::rlimit(100)]
proof fn lemma_known_names_distinct()
    ensures
        known_names().no_duplicates(),
{
    reveal_strlit("HOME");
    reveal_strlit("LANG");
    reveal_strlit("LC_ALL");
    reveal_strlit("PYTHONUTF8");
    reveal_strlit("PYTHONSAFEPATH");
    reveal_strlit("PYTHONDONTWRITEBYTECODE");
    reveal_strlit("PYTHONPATH");
    reveal_strlit("HF_HOME");
    reveal_strlit("TORCH_HOME");
    reveal_strlit("HF_HUB_DISABLE_IMPLICIT_TOKEN");
    reveal_strlit("HF_HUB_DISABLE_TELEMETRY");
    reveal_strlit("PYANNOTE_METRICS_ENABLED");
    reveal_strlit("DO_NOT_TRACK");
    reveal_strlit("UV_PYTHON_INSTALL_DIR");
    reveal_strlit("UV_CACHE_DIR");
    reveal_strlit("UV_PYTHON_PREFERENCE");
    reveal_strlit("PATH");
    reveal_strlit("TMPDIR");
    reveal_strlit("HF_TOKEN");
    reveal_strlit("GALPI_ASSISTANT_API_KEY");
    reveal_strlit("GALPI_ASSISTANT_BASE_URL");
    reveal_strlit("GALPI_ASSISTANT_REASONING_EFFORT");
    reveal_strlit("HF_HUB_OFFLINE");
    reveal_strlit("TRANSFORMERS_OFFLINE");
    let names = known_names();
    assert forall|i: int, j: int| 0 <= i < names.len() && 0 <= j < names.len() && i != j implies names[i] != names[j] by {
        if names[i] == names[j] {
            assert(names[i].len() == names[j].len());
            assert(names[i][0] == names[j][0]);
            assert(names[i].last() == names[j].last());
        }
    }
}

proof fn lemma_picked_names_distinct(names: Seq<Seq<char>>, picks: Seq<int>)
    requires
        names.len() == picks.len(),
        forall|k: int| 0 <= k < picks.len() ==> 0 <= #[trigger] picks[k] < known_names().len(),
        forall|k: int| 0 <= k < picks.len() ==> #[trigger] names[k] == known_names()[picks[k]],
        forall|a: int, b: int| 0 <= a < b < picks.len() ==> #[trigger] picks[a] < #[trigger] picks[b],
    ensures
        names.no_duplicates(),
{
    lemma_known_names_distinct();
    assert forall|i: int, j: int| 0 <= i < names.len() && 0 <= j < names.len() && i != j implies names[i] != names[j] by {
        assert(names[i] == known_names()[picks[i]]);
        assert(names[j] == known_names()[picks[j]]);
        if i < j {
            assert(picks[i] < picks[j]);
        } else {
            assert(picks[j] < picks[i]);
        }
    }
}

proof fn lemma_base_names(paths: AppPaths, worker_root: Seq<char>, home: Seq<char>, tmpdir: Seq<char>)
    ensures
        env_names(base_environment(paths, worker_root, home, tmpdir)) == known_names().take(18),
{
    assert(env_names(base_environment(paths, worker_root, home, tmpdir)) =~= known_names().take(18));
}

/// The first `n` positions, in order.
spec fn first_positions(n: nat) -> Seq<int> {
    Seq::new(n, |k: int| k)
}

/// A worker environment sets each variable once: the names of the
/// transcription and setup environment are distinct.
pub proof fn lemma_process_environment_names_distinct(
    paths: AppPaths,
    worker_root: Seq<char>,
    token: Option<Seq<char>>,
    home: Seq<char>,
    tmpdir: Seq<char>,
)
    ensures
        env_names(process_environment_spec(paths, worker_root, token, home, tmpdir)).no_duplicates(),
{
    lemma_base_names(paths, worker_root, home, tmpdir);
    let base = base_environment(paths, worker_root, home, tmpdir);
    let env = process_environment_spec(paths, worker_root, token, home, tmpdir);
    match filled(token) {
        Some(t) => {
            assert(env_names(env) =~= known_names().take(18).push(known_names()[18]));
            lemma_picked_names_distinct(env_names(env), first_positions(19));
        },
        None => {
            lemma_picked_names_distinct(env_names(env), first_positions(18));
        },
    }
}

/// The assistant's worker environment sets each variable once.
pub proof fn lemma_assistant_environment_names_distinct(
    paths: AppPaths,
    worker_root: Seq<char>,
    api_key: Seq<char>,
    base_url: Option<Seq<char>>,
    reasoning_effort: Option<Seq<char>>,
    home: Seq<char>,
    tmpdir: Seq<char>,
)
    ensures
        env_names(assistant_environment_spec(paths, worker_root, api_key, base_url, reasoning_effort, home, tmpdir)).no_duplicates(),
{
    lemma_base_names(paths, worker_root, home, tmpdir);
    let env = assistant_environment_spec(paths, worker_root, api_key, base_url, reasoning_effort, home, tmpdir);
    let head = known_names().take(18).push(known_names()[19]);
    let picks0 = first_positions(18).push(19);
    let with_url = if base_url is Some { head.push(known_names()[20]) } else { head };
    let picks1 = if base_url is Some { picks0.push(20) } else { picks0 };
    let names = if reasoning_effort is Some { with_url.push(known_names()[21]) } else { with_url };
    let picks = if reasoning_effort is Some { picks1.push(21) } else { picks1 };
    assert(env_names(env) =~= names);
    lemma_picked_names_distinct(names, picks);
}

/// A transcription's worker environment sets each variable once.
pub proof fn lemma_transcription_environment_names_distinct(
    paths: AppPaths,
    worker_root: Seq<char>,
    engine: EnginePreset,
    home: Seq<char>,
    tmpdir: Seq<char>,
)
    ensures
        env_names(transcription_environment_spec(paths, worker_root, engine, home, tmpdir)).no_duplicates(),
{
    lemma_base_names(paths, worker_root, home, tmpdir);
    let env = transcription_environment_spec(paths, worker_root, engine, home, tmpdir);
    match engine {
        EnginePreset::Qwen3 => {
            reveal_strlit("HF_HUB_OFFLINE");
            reveal_strlit("TRANSFORMERS_OFFLINE");
            let names = known_names().take(18).push(known_names()[22]).push(known_names()[23]);
            assert(env_names(env) =~= names);
            lemma_picked_names_distinct(names, first_positions(18).push(22).push(23));
        },
        EnginePreset::WhisperX => {
            lemma_picked_names_distinct(env_names(env), first_positions(18));
        },
    }
}

} // verus!
