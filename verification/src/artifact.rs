//! The files a finished meeting consists of, and the names derived from them.

use vstd::prelude::*;
use crate::text::{chars_of, string_of_range};

verus! {

/// The artifacts of one meeting; every path is a canonical file path.
#[derive(Debug, Clone, PartialEq, Eq)]
pub struct Artifacts {
    pub srt: Option<String>,
    pub txt: String,
    pub checkpoint: Option<String>,
    pub minutes: Option<String>,
    pub output_directory: String,
    /// The audio this meeting was transcribed from, when there was any: the
    /// only artifact dated the day the meeting happened. An imported
    /// transcript has no audio.
    pub source_audio: Option<String>,
}

#[derive(Debug, Clone, Copy, PartialEq, Eq, Structural)]
pub enum ArtifactKind {
    Srt,
    SpeakerText,
    Checkpoint,
    Minutes,
}

impl Artifacts {
    /// The path stored for an artifact kind, when there is one.
    pub open spec fn path_of(self, kind: ArtifactKind) -> Option<String> {
        match kind {
            ArtifactKind::Srt => self.srt,
            ArtifactKind::SpeakerText => Some(self.txt),
            ArtifactKind::Checkpoint => self.checkpoint,
            ArtifactKind::Minutes => self.minutes,
        }
    }

    pub fn path_for(&self, kind: ArtifactKind) -> (path: Option<&String>)
        ensures
            path.is_some() == self.path_of(kind).is_some(),
            path.is_some() ==> *path.unwrap() == self.path_of(kind).unwrap(),
    {
        match kind {
            ArtifactKind::Srt => self.srt.as_ref(),
            ArtifactKind::SpeakerText => Some(&self.txt),
            ArtifactKind::Checkpoint => self.checkpoint.as_ref(),
            ArtifactKind::Minutes => self.minutes.as_ref(),
        }
    }
}

/// What `Path::file_stem` returns for a path, as text.
pub uninterp spec fn path_file_stem(path: Seq<char>) -> Option<Seq<char>>;

/// What `Path::with_file_name` returns for a path and a new file name.
pub uninterp spec fn path_with_file_name(path: Seq<char>, name: Seq<char>) -> Seq<char>;

/// `Path::file_stem`: the file name without its extension, `None` when the
/// path has no file name.
#[verifier::external_body]
fn file_stem(path: &str) -> (stem: Option<String>)
    ensures
        stem.is_some() == path_file_stem(path@).is_some(),
        stem.is_some() ==> stem.unwrap()@ == path_file_stem(path@).unwrap(),
{
    std::path::Path::new(path).file_stem().and_then(|stem| stem.to_str()).map(str::to_owned)
}

/// `Path::with_file_name`: the path with its last component replaced.
#[verifier::external_body]
fn with_file_name(path: &str, name: &str) -> (renamed: String)
    ensures
        renamed@ == path_with_file_name(path@, name@),
{
    std::path::Path::new(path).with_file_name(name).to_string_lossy().into_owned()
}

/// `s` without `suffix` when it ends with it, `s` itself otherwise.
pub open spec fn strip_suffix_spec(s: Seq<char>, suffix: Seq<char>) -> Seq<char> {
    if suffix.len() <= s.len() && s.subrange(s.len() - suffix.len(), s.len() as int) == suffix {
        s.subrange(0, s.len() - suffix.len())
    } else {
        s
    }
}

/// The minutes file name for a transcript stem: the speaker-transcript
/// marker comes off, the minutes marker and extension go on.
pub open spec fn minutes_file_name(stem: Option<Seq<char>>) -> Seq<char> {
    let stem = match stem {
        Some(stem) => stem,
        None => "meeting"@,
    };
    strip_suffix_spec(stem, "_화자별"@) + "_회의록.md"@
}

/// The minutes of a meeting carry the meeting's name: a speaker transcript
/// whose stem is `<name>_화자별` has its minutes named `<name>_회의록.md`.
pub proof fn law_minutes_share_the_meeting_name(name: Seq<char>)
    ensures
        minutes_file_name(Some(name + "_화자별"@)) == name + "_회의록.md"@,
{
    let s = name + "_화자별"@;
    let suffix = "_화자별"@;
    assert(s.subrange(s.len() - suffix.len(), s.len() as int) =~= suffix);
    assert(s.subrange(0, s.len() - suffix.len()) =~= name);
}

fn strip_suffix(s: &str, suffix: &str) -> (stripped: String)
    ensures
        stripped@ == strip_suffix_spec(s@, suffix@),
{
    let chars = chars_of(s);
    let tail = chars_of(suffix);
    if tail.len() <= chars.len() {
        let start = chars.len() - tail.len();
        let mut i: usize = 0;
        let mut matches = true;
        while i < tail.len()
            invariant
                chars@ == s@,
                tail@ == suffix@,
                start + tail.len() == chars.len(),
                i <= tail.len(),
                matches == (forall|j: int| 0 <= j < i ==> chars@[start + j] == tail@[j]),
            decreases tail.len() - i,
        {
            if chars[start + i] != tail[i] {
                matches = false;
            }
            i = i + 1;
        }
        if matches {
            proof {
                assert(chars@.subrange(start as int, chars@.len() as int) =~= tail@);
            }
            return string_of_range(chars.as_slice(), 0, start);
        } else {
            proof {
                if chars@.subrange(start as int, chars@.len() as int) == tail@ {
                    assert(forall|j: int| 0 <= j < tail.len() ==> chars@[start + j]
                        == chars@.subrange(start as int, chars@.len() as int)[j]);
                }
            }
        }
    }
    s.to_owned()
}

/// Sibling meeting-minutes path for a speaker-labeled transcript.
pub fn minutes_path(transcript: &str) -> (minutes: String)
    ensures
        minutes@ == path_with_file_name(
            transcript@,
            minutes_file_name(path_file_stem(transcript@)),
        ),
{
    let stem = match file_stem(transcript) {
        Some(stem) => stem,
        None => "meeting".to_owned(),
    };
    proof {
        reveal_strlit("meeting");
    }
    let base = strip_suffix(stem.as_str(), "_화자별");
    let mut name = base;
    name.append("_회의록.md");
    with_file_name(transcript, name.as_str())
}

} // verus!
