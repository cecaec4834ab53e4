//! Where Galpi keeps its files: the app data layout, meeting folder names,
//! and which earlier checkpoint a new job may reuse.

use vstd::prelude::*;
use crate::error::AppError;
use crate::text::{alphanumeric, chars_of, concat, decimal, decimal_spec, fixed_decimal, fixed_decimal_text, is_alphanumeric, same_text, string_of, string_of_range};

verus! {

/// `base` joined with a relative path.
pub open spec fn joined(base: Seq<char>, rel: Seq<char>) -> Seq<char> {
    if base.len() > 0 && base.last() == '/' {
        base + rel
    } else {
        base + "/"@ + rel
    }
}

/// Join a relative path onto a directory.
pub fn join(base: &str, rel: &str) -> (path: String)
    ensures
        path@ == joined(base@, rel@),
{
    let chars = chars_of(base);
    if chars.len() > 0 && chars[chars.len() - 1] == '/' {
        concat(base, rel)
    } else {
        let mut path = concat(base, "/");
        path.append(rel);
        proof {
            reveal_strlit("/");
        }
        path
    }
}

/// The app's data layout under its local data directory.
#[derive(Debug, Clone, PartialEq, Eq)]
pub struct AppPaths {
    pub root: String,
    pub engine: String,
    pub python: String,
    pub engine_manifest: String,
    pub models_manifest: String,
    pub engine_bin: String,
    pub cache: String,
    pub python_installations: String,
    pub qwen3_root: String,
    pub qwen3_python: String,
    pub qwen3_engine_manifest: String,
    pub qwen3_models_manifest: String,
    pub qwen3_engine_bin: String,
}

impl AppPaths {
    /// The layout under `root`, the app's local data directory.
    pub fn resolve(root: &str) -> (paths: Self)
        ensures
            paths.root@ == root@,
            paths.engine@ == joined(root@, "engine"@),
            paths.python@ == joined(joined(root@, "engine"@), ".venv/bin/python"@),
            paths.engine_manifest@ == joined(joined(root@, "engine"@), "ready-3.8.6"@),
            paths.models_manifest@ == joined(root@, "models/ready.json"@),
            paths.engine_bin@ == joined(joined(root@, "engine"@), "bin"@),
            paths.cache@ == joined(root@, "cache"@),
            paths.python_installations@ == joined(root@, "python"@),
            paths.qwen3_root@ == joined(root@, "qwen3"@),
            paths.qwen3_python@ == joined(joined(root@, "qwen3"@), ".venv/bin/python"@),
            paths.qwen3_engine_manifest@ == joined(joined(root@, "qwen3"@), "ready"@),
            paths.qwen3_models_manifest@ == joined(root@, "models/qwen3-ready.json"@),
            paths.qwen3_engine_bin@ == joined(joined(root@, "qwen3"@), "bin"@),
    {
        let engine = join(root, "engine");
        let qwen3_root = join(root, "qwen3");
        AppPaths {
            root: root.to_owned(),
            python: join(engine.as_str(), ".venv/bin/python"),
            engine_manifest: join(engine.as_str(), "ready-3.8.6"),
            models_manifest: join(root, "models/ready.json"),
            engine_bin: join(engine.as_str(), "bin"),
            cache: join(root, "cache"),
            python_installations: join(root, "python"),
            qwen3_python: join(qwen3_root.as_str(), ".venv/bin/python"),
            qwen3_engine_manifest: join(qwen3_root.as_str(), "ready"),
            qwen3_models_manifest: join(root, "models/qwen3-ready.json"),
            qwen3_engine_bin: join(qwen3_root.as_str(), "bin"),
            qwen3_root,
            engine,
        }
    }
}

/// A file-name character as it appears in a folder name: letters, digits,
/// spaces, dashes and underscores stay, anything else becomes a dash.
pub open spec fn sanitized_char(c: char) -> char {
    if alphanumeric(c) || c == '-' || c == '_' || c == ' ' {
        c
    } else {
        '-'
    }
}

/// Characters a folder name does not start or end with.
pub open spec fn is_edge_char(c: char) -> bool {
    c == '-' || c == ' '
}

/// Index of the first character from `i` on that is not an edge character.
pub open spec fn first_kept(s: Seq<char>, i: int) -> int
    decreases s.len() - i,
{
    if 0 <= i < s.len() && is_edge_char(s[i]) {
        first_kept(s, i + 1)
    } else {
        i
    }
}

/// End of the text before the trailing edge characters within `s[..j]`.
pub open spec fn last_kept_end(s: Seq<char>, j: int) -> int
    decreases j,
{
    if 0 < j <= s.len() && is_edge_char(s[j - 1]) {
        last_kept_end(s, j - 1)
    } else {
        j
    }
}

/// `s` without leading and trailing edge characters.
pub open spec fn strip_edges(s: Seq<char>) -> Seq<char> {
    let a = first_kept(s, 0);
    let b = last_kept_end(s, s.len() as int);
    if a < b {
        s.subrange(a, b)
    } else {
        Seq::empty()
    }
}

/// A name made safe for a folder.
pub open spec fn sanitized(name: Seq<char>) -> Seq<char> {
    strip_edges(name.map_values(|c: char| sanitized_char(c)))
}

proof fn lemma_first_kept_bounds(s: Seq<char>, i: int)
    requires
        0 <= i <= s.len(),
    ensures
        i <= first_kept(s, i) <= s.len(),
    decreases s.len() - i,
{
    if i < s.len() && is_edge_char(s[i]) {
        lemma_first_kept_bounds(s, i + 1);
    }
}

proof fn lemma_last_kept_end_bounds(s: Seq<char>, j: int)
    requires
        0 <= j <= s.len(),
    ensures
        0 <= last_kept_end(s, j) <= j,
    decreases j,
{
    if 0 < j && is_edge_char(s[j - 1]) {
        lemma_last_kept_end_bounds(s, j - 1);
    }
}

proof fn lemma_first_kept_stops(s: Seq<char>, i: int)
    requires
        0 <= i <= s.len(),
    ensures
        first_kept(s, i) == s.len() || !is_edge_char(s[first_kept(s, i)]),
    decreases s.len() - i,
{
    lemma_first_kept_bounds(s, i);
    if i < s.len() && is_edge_char(s[i]) {
        lemma_first_kept_stops(s, i + 1);
    }
}

proof fn lemma_last_kept_end_stops(s: Seq<char>, j: int)
    requires
        0 <= j <= s.len(),
    ensures
        last_kept_end(s, j) == 0 || !is_edge_char(s[last_kept_end(s, j) - 1]),
    decreases j,
{
    lemma_last_kept_end_bounds(s, j);
    if 0 < j && is_edge_char(s[j - 1]) {
        lemma_last_kept_end_stops(s, j - 1);
    }
}

/// A name made safe for a folder is left as it is when made safe again, so a
/// meeting's folder and its files keep one name however often they are named.
pub proof fn law_sanitizing_is_stable(name: Seq<char>)
    ensures
        sanitized(sanitized(name)) == sanitized(name),
{
    let m = name.map_values(|c: char| sanitized_char(c));
    let s1 = sanitized(name);
    assert(s1 == strip_edges(m));
    let a = first_kept(m, 0);
    let b = last_kept_end(m, m.len() as int);
    lemma_first_kept_bounds(m, 0);
    lemma_last_kept_end_bounds(m, m.len() as int);
    lemma_first_kept_stops(m, 0);
    lemma_last_kept_end_stops(m, m.len() as int);
    // Every character of a sanitized name is already one sanitizing keeps.
    assert(s1.map_values(|c: char| sanitized_char(c)) =~= s1);
    if a < b {
        assert(s1 =~= m.subrange(a, b));
        assert(s1[0] == m[a]);
        assert(s1[s1.len() - 1] == m[b - 1]);
        assert(first_kept(s1, 0) == 0);
        assert(last_kept_end(s1, s1.len() as int) == s1.len());
        assert(strip_edges(s1) =~= s1.subrange(0, s1.len() as int));
        assert(s1.subrange(0, s1.len() as int) =~= s1);
    } else {
        assert(s1 =~= Seq::<char>::empty());
        assert(strip_edges(s1) =~= Seq::<char>::empty());
    }
}

/// Sanitising keeps every letter and digit (whatever `char::is_alphanumeric`
/// accepts), dashes, underscores and spaces as they are, and turns every
/// other character into a dash.
pub proof fn law_letters_and_digits_survive_sanitizing(c: char)
    ensures
        alphanumeric(c) ==> sanitized_char(c) == c,
        c == '-' || c == '_' || c == ' ' ==> sanitized_char(c) == c,
        !(alphanumeric(c) || c == '-' || c == '_' || c == ' ') ==> sanitized_char(c) == '-',
{
}

/// A name made only of letters, digits, underscores, dashes and spaces, that
/// neither starts nor ends with a dash or a space, is its own folder name.
pub proof fn law_plain_names_are_kept(name: Seq<char>)
    requires
        forall|i: int| 0 <= i < name.len() ==> alphanumeric(#[trigger] name[i]) || name[i] == '_' || name[i] == '-'
            || name[i] == ' ',
        name.len() > 0 ==> !is_edge_char(name[0]) && !is_edge_char(name.last()),
    ensures
        sanitized(name) == name,
{
    let m = name.map_values(|c: char| sanitized_char(c));
    assert(m =~= name);
    if name.len() > 0 {
        assert(first_kept(m, 0) == 0);
        assert(last_kept_end(m, m.len() as int) == m.len());
        assert(m.subrange(0, m.len() as int) =~= m);
    } else {
        assert(strip_edges(m) =~= Seq::<char>::empty());
    }
}

/// A meeting named after its source keeps that name when its own files are
/// named again: the stem of a file named after the meeting is the meeting's
/// name, which is how a recording's folder is found again when it is
/// transcribed.
pub proof fn law_meeting_name_survives_renaming(stem: Seq<char>)
    requires
        sanitized(stem).len() > 0,
    ensures
        meeting_stem_of(Some(meeting_stem_of(Some(stem)))) == meeting_stem_of(Some(stem)),
{
    law_sanitizing_is_stable(stem);
}

pub fn sanitize_name(name: &str) -> (clean: String)
    ensures
        clean@ == sanitized(name@),
{
    let chars = chars_of(name);
    let mut mapped: Vec<char> = Vec::new();
    let mut i: usize = 0;
    while i < chars.len()
        invariant
            chars@ == name@,
            i <= chars.len(),
            mapped@ == chars@.take(i as int).map_values(|c: char| sanitized_char(c)),
        decreases chars.len() - i,
    {
        let c = chars[i];
        let keep = is_alphanumeric(c) || c == '-' || c == '_' || c == ' ';
        mapped.push(if keep { c } else { '-' });
        proof {
            assert(chars@.take(i + 1) =~= chars@.take(i as int).push(c));
        }
        i = i + 1;
    }
    proof {
        assert(chars@.take(chars@.len() as int) =~= chars@);
    }
    let ghost m = mapped@;
    let mut a: usize = 0;
    while a < mapped.len() && (mapped[a] == '-' || mapped[a] == ' ')
        invariant
            mapped@ == m,
            a <= mapped.len(),
            first_kept(m, 0) == first_kept(m, a as int),
        decreases mapped.len() - a,
    {
        a = a + 1;
    }
    let mut b: usize = mapped.len();
    while b > 0 && (mapped[b - 1] == '-' || mapped[b - 1] == ' ')
        invariant
            mapped@ == m,
            b <= mapped.len(),
            last_kept_end(m, m.len() as int) == last_kept_end(m, b as int),
        decreases b,
    {
        b = b - 1;
    }
    proof {
        assert(first_kept(m, a as int) == a);
        assert(last_kept_end(m, b as int) == b);
    }
    if a < b {
        string_of_range(mapped.as_slice(), a, b)
    } else {
        string_of(&[])
    }
}

/// The name a meeting's folder and files share: the source's file stem made
/// safe, or `meeting` when nothing usable is left.
pub open spec fn meeting_stem_of(stem: Option<Seq<char>>) -> Seq<char> {
    match stem {
        Some(s) => if sanitized(s).len() > 0 {
            sanitized(s)
        } else {
            "meeting"@
        },
        None => "meeting"@,
    }
}

pub fn meeting_stem(file_stem: Option<&str>) -> (stem: String)
    ensures
        stem@ == meeting_stem_of(match file_stem {
            Some(s) => Some(s@),
            None => None,
        }),
{
    match file_stem {
        Some(s) => {
            let clean = sanitize_name(s);
            if clean.as_str().is_empty() {
                "meeting".to_owned()
            } else {
                clean
            }
        },
        None => "meeting".to_owned(),
    }
}

/// The folder name tried at the `attempt`-th try: the meeting's own name
/// first, then the name with a numeric suffix, starting at 2.
pub open spec fn folder_candidate(stem: Seq<char>, attempt: nat) -> Seq<char> {
    if attempt <= 1 {
        stem
    } else {
        stem + " "@ + decimal_spec(attempt)
    }
}

/// Name collisions get a numeric suffix such as `팀미팅 2`.
pub fn meeting_folder_candidate(stem: &str, attempt: u64) -> (name: String)
    ensures
        name@ == folder_candidate(stem@, attempt as nat),
{
    if attempt <= 1 {
        stem.to_owned()
    } else {
        let mut name = concat(stem, " ");
        name.append(decimal(attempt).as_str());
        name
    }
}

/// A source already inside its own meeting folder directly under the output
/// root keeps using that folder.
pub open spec fn reuses_folder(parent_name: Option<Seq<char>>, parent_in_root: bool, stem: Seq<char>) -> bool {
    parent_in_root && parent_name == Some(stem)
}

pub fn reuses_source_folder(parent_name: Option<&str>, parent_in_root: bool, stem: &str) -> (reuse: bool)
    ensures
        reuse == reuses_folder(
            match parent_name {
                Some(n) => Some(n@),
                None => None,
            },
            parent_in_root,
            stem@,
        ),
{
    match parent_name {
        Some(n) => parent_in_root && same_text(n, stem),
        None => false,
    }
}

/// Whether every character is an ASCII digit.
pub open spec fn all_digits(s: Seq<char>) -> bool {
    forall|i: int| 0 <= i < s.len() ==> '0' <= #[trigger] s[i] <= '9'
}

/// A folder that holds a meeting of the same name: the name itself, or the
/// name with a numeric collision suffix.
pub open spec fn is_meeting_folder(folder: Seq<char>, stem: Seq<char>) -> bool {
    ||| folder == stem
    ||| {
        &&& folder.len() > stem.len() + 1
        &&& folder.subrange(0, stem.len() as int) == stem
        &&& folder[stem.len() as int] == ' '
        &&& all_digits(folder.subrange(stem.len() as int + 1, folder.len() as int))
    }
}

pub fn is_meeting_folder_of(folder: &str, stem: &str) -> (matches: bool)
    ensures
        matches == is_meeting_folder(folder@, stem@),
{
    if same_text(folder, stem) {
        return true;
    }
    let f = chars_of(folder);
    let s = chars_of(stem);
    if f.len() <= s.len() || f.len() - s.len() <= 1 {
        return false;
    }
    let mut i: usize = 0;
    while i < s.len()
        invariant
            f@ == folder@,
            s@ == stem@,
            f.len() > s.len() + 1,
            i <= s.len(),
            forall|j: int| 0 <= j < i ==> f@[j] == s@[j],
        decreases s.len() - i,
    {
        if f[i] != s[i] {
            proof {
                assert(f@.subrange(0, s@.len() as int)[i as int] != s@[i as int]);
            }
            return false;
        }
        i = i + 1;
    }
    proof {
        assert(f@.subrange(0, s@.len() as int) =~= s@);
    }
    if f[s.len()] != ' ' {
        return false;
    }
    let start = s.len() + 1;
    let mut k: usize = start;
    while k < f.len()
        invariant
            f@ == folder@,
            s@ == stem@,
            start == s.len() + 1,
            start <= k <= f.len(),
            forall|j: int| start <= j < k ==> '0' <= #[trigger] f@[j] <= '9',
        decreases f.len() - k,
    {
        if f[k] < '0' || f[k] > '9' {
            proof {
                let tail = f@.subrange(start as int, f@.len() as int);
                assert(tail[k - start] == f@[k as int]);
            }
            return false;
        }
        k = k + 1;
    }
    proof {
        let tail = f@.subrange(start as int, f@.len() as int);
        assert forall|i: int| 0 <= i < tail.len() implies '0' <= #[trigger] tail[i] <= '9' by {
            assert(tail[i] == f@[start + i]);
        }
    }
    true
}

proof fn lemma_decimal_is_digits(n: nat)
    ensures
        decimal_spec(n).len() >= 1,
        all_digits(decimal_spec(n)),
    decreases n,
{
    if n >= 10 {
        lemma_decimal_is_digits(n / 10);
    }
    let d = decimal_spec(n);
    assert forall|i: int| 0 <= i < d.len() implies '0' <= #[trigger] d[i] <= '9' by {
        if n >= 10 {
            if i < d.len() - 1 {
                assert(d[i] == decimal_spec(n / 10)[i]);
            }
        }
    }
}

/// Every folder name the collision suffixes produce is recognised as a
/// folder of the same meeting, so a checkpoint left in `meeting 2` is found
/// when `meeting` is transcribed again.
pub proof fn law_every_candidate_is_a_meeting_folder(stem: Seq<char>, attempt: nat)
    ensures
        is_meeting_folder(folder_candidate(stem, attempt), stem),
{
    if attempt > 1 {
        lemma_decimal_is_digits(attempt);
        reveal_strlit(" ");
        let folder = folder_candidate(stem, attempt);
        let digits = decimal_spec(attempt);
        assert(folder =~= stem + " "@ + digits);
        assert(folder.subrange(0, stem.len() as int) =~= stem);
        assert(folder[stem.len() as int] == ' ');
        assert(folder.subrange(stem.len() as int + 1, folder.len() as int) =~= digits);
    }
}

/// Whether `i` is the newest of `times`: later than everything before it and
/// no older than anything after it.
pub open spec fn is_latest(times: Seq<u128>, i: int) -> bool {
    &&& 0 <= i < times.len()
    &&& forall|j: int| 0 <= j < i ==> times[j] < times[i]
    &&& forall|j: int| i < j < times.len() ==> times[j] <= times[i]
}

/// The newest of several candidates by modification time, the first one
/// among equals; `None` when there are none.
pub fn latest_index(times: &Vec<u128>) -> (latest: Option<usize>)
    ensures
        times@.len() == 0 ==> latest.is_none(),
        times@.len() > 0 ==> (latest matches Some(i) && is_latest(times@, i as int)),
{
    if times.len() == 0 {
        return None;
    }
    let mut best: usize = 0;
    let mut i: usize = 1;
    while i < times.len()
        invariant
            1 <= i <= times.len(),
            best < i,
            forall|j: int| 0 <= j < best ==> times@[j] < times@[best as int],
            forall|j: int| best < j < i ==> times@[j] <= times@[best as int],
        decreases times.len() - i,
    {
        if times[i] > times[best] {
            best = i;
        }
        i = i + 1;
    }
    Some(best)
}

/// The checkpoint a transcription of `stem` leaves in its meeting folder.
pub open spec fn checkpoint_name_of(stem: Seq<char>) -> Seq<char> {
    stem + ".aligned.v2.json"@
}

pub fn checkpoint_file_name(stem: &str) -> (name: String)
    ensures
        name@ == checkpoint_name_of(stem@),
{
    concat(stem, ".aligned.v2.json")
}

/// What `Path::starts_with` answers: whether `base` is a prefix of `path`,
/// comparing whole path components.
pub uninterp spec fn path_starts_with(path: Seq<char>, base: Seq<char>) -> bool;

/// `Path::starts_with`, whose result is named `path_starts_with`.
#[verifier::external_body]
fn starts_with(path: &str, base: &str) -> (inside: bool)
    ensures
        inside == path_starts_with(path@, base@),
{
    std::path::Path::new(path).starts_with(base)
}

/// A symbolic link in a model cache is copied only when it resolves inside
/// its own model repository.
pub fn link_stays_inside(resolved: &str, repository: &str) -> (inside: bool)
    ensures
        inside == path_starts_with(resolved@, repository@),
{
    starts_with(resolved, repository)
}

/// Why a canonical path must stay inside a folder.
#[derive(Debug, Clone, Copy, PartialEq, Eq, Structural)]
pub enum Placement {
    /// A result file a transcription worker reported.
    WorkerResult,
    /// The minutes a refinement worker reported.
    WorkerMinutes,
    /// An imported transcript copied into its meeting folder.
    ImportedTranscript,
    /// A meeting folder created under the chosen output folder.
    MeetingFolder,
}

/// The error a path outside its folder is reported under.
pub open spec fn placement_code(placement: Placement) -> Seq<char> {
    match placement {
        Placement::WorkerResult => "WORKER_PROTOCOL_ERROR"@,
        Placement::WorkerMinutes => "WORKER_PROTOCOL_ERROR"@,
        Placement::ImportedTranscript => "OUTPUT_PATH_ERROR"@,
        Placement::MeetingFolder => "OUTPUT_PATH_ERROR"@,
    }
}

/// Accept a canonical path only inside the canonical folder `root`: a worker
/// cannot point the app at files elsewhere, and a meeting never spills out of
/// the folder the user chose.
pub fn require_within(placement: Placement, root: &str, path: String) -> (checked: Result<String, AppError>)
    ensures
        path_starts_with(path@, root@) ==> checked == Ok::<String, AppError>(path),
        !path_starts_with(path@, root@) ==> (checked matches Err(e) && e.code@ == placement_code(placement)),
{
    if starts_with(path.as_str(), root) {
        return Ok(path);
    }
    match placement {
        Placement::WorkerResult => Err(AppError::new("WORKER_PROTOCOL_ERROR", "워커가 작업 디렉터리 밖의 결과를 반환했습니다.")),
        Placement::WorkerMinutes => Err(AppError::new("WORKER_PROTOCOL_ERROR", "워커가 작업 디렉터리 밖의 회의록을 반환했습니다.")),
        Placement::ImportedTranscript => Err(AppError::new("OUTPUT_PATH_ERROR", "가져온 전사문이 회의 폴더를 벗어났습니다.")),
        Placement::MeetingFolder => Err(AppError::new("OUTPUT_PATH_ERROR", "작업 디렉터리가 선택한 출력 폴더를 벗어났습니다.")),
    }
}

/// A finished job's file is opened only when it is a regular file inside the
/// job's own folder.
pub fn openable_artifact(root: &str, path: String, is_file: bool) -> (checked: Result<String, AppError>)
    ensures
        path_starts_with(path@, root@) && is_file ==> checked == Ok::<String, AppError>(path),
        !(path_starts_with(path@, root@) && is_file) ==> (checked matches Err(e) && e.code@ == "ARTIFACT_PATH_ERROR"@),
{
    if starts_with(path.as_str(), root) && is_file {
        Ok(path)
    } else {
        Err(AppError::new("ARTIFACT_PATH_ERROR", "결과 파일이 신뢰된 출력 폴더를 벗어났습니다."))
    }
}

/// Whether an entry of the output folder offers a checkpoint a new job of
/// `stem` may start from: another meeting folder of the same name whose
/// checkpoint is a regular file that resolves inside the output folder.
pub open spec fn offers_checkpoint(
    folder: Seq<char>,
    is_job_directory: bool,
    stem: Seq<char>,
    checkpoint_is_file: bool,
    canonical: Seq<char>,
    output_root: Seq<char>,
) -> bool {
    &&& !is_job_directory
    &&& is_meeting_folder(folder, stem)
    &&& checkpoint_is_file
    &&& path_starts_with(canonical, output_root)
}

pub fn reusable_checkpoint(
    folder: &str,
    is_job_directory: bool,
    stem: &str,
    checkpoint_is_file: bool,
    canonical: &str,
    output_root: &str,
) -> (reusable: bool)
    ensures
        reusable == offers_checkpoint(folder@, is_job_directory, stem@, checkpoint_is_file, canonical@, output_root@),
{
    !is_job_directory && is_meeting_folder_of(folder, stem) && checkpoint_is_file && starts_with(canonical, output_root)
}

/// The settings document under the app's data directory, and the temporary
/// file a new version is written to before it replaces the document.
pub fn settings_paths(root: &str) -> (paths: (String, String))
    ensures
        paths.0@ == joined(root@, "settings.json"@),
        paths.1@ == joined(root@, "settings.json.part"@),
{
    (join(root, "settings.json"), join(root, "settings.json.part"))
}

/// The name of a microphone recording, from the local time it started:
/// `YYYY-MM-DD HHMMSS 녹음`.
pub open spec fn recording_name_of(year: nat, month: nat, day: nat, hour: nat, minute: nat, second: nat) -> Seq<char> {
    fixed_decimal(year, 4) + "-"@ + fixed_decimal(month, 2) + "-"@ + fixed_decimal(day, 2) + " "@
        + fixed_decimal(hour, 2) + fixed_decimal(minute, 2) + fixed_decimal(second, 2) + " 녹음"@
}

pub fn recording_name(year: u32, month: u32, day: u32, hour: u32, minute: u32, second: u32) -> (name: String)
    ensures
        name@ == recording_name_of(year as nat, month as nat, day as nat, hour as nat, minute as nat, second as nat),
{
    let mut name = fixed_decimal_text(year, 4);
    name.append("-");
    name.append(fixed_decimal_text(month, 2).as_str());
    name.append("-");
    name.append(fixed_decimal_text(day, 2).as_str());
    name.append(" ");
    name.append(fixed_decimal_text(hour, 2).as_str());
    name.append(fixed_decimal_text(minute, 2).as_str());
    name.append(fixed_decimal_text(second, 2).as_str());
    name.append(" 녹음");
    name
}

/// Where a recording named `name` is written while it runs, and where it is
/// kept once it is stopped, inside its meeting folder `folder`: every file of
/// a meeting carries the folder's name.
pub fn recording_paths(folder: &str, name: &str) -> (paths: (String, String))
    ensures
        paths.0@ == joined(folder@, name@ + ".wav.part"@),
        paths.1@ == joined(folder@, name@ + ".wav"@),
{
    let partial = concat(name, ".wav.part");
    let finished = concat(name, ".wav");
    (join(folder, partial.as_str()), join(folder, finished.as_str()))
}

/// The temporary file that hands one kind of context for a job to a worker,
/// under the temporary directory `tmp`, for the job id written as text.
pub fn private_file_path(tmp: &str, kind: &str, job_id: &str) -> (path: String)
    ensures
        path@ == joined(tmp@, "galpi-"@ + kind@ + "-"@ + job_id@),
{
    let mut name = concat("galpi-", kind);
    name.append("-");
    name.append(job_id);
    join(tmp, name.as_str())
}

} // verus!
