//! The use cases: what each request checks, in which order, which job it
//! claims, and what it records when the outside work is done. The outside
//! work itself (engine, worker, files, microphone) is done by the caller
//! between the steps.

use vstd::prelude::*;
use crate::artifact::{ArtifactKind, Artifacts, minutes_path, path_file_stem, path_with_file_name, minutes_file_name};
use crate::environment::EnvironmentStatus;
use crate::error::AppError;
use crate::job::{hint_verdict, validate_speaker_hint, TranscriptImportRequest, TranscriptionRequest};
use crate::jobs::{answers, claim_next, claim_refusal, copy_artifacts, finish_next, JobGuard, JobId, JobRegistry, ActiveJob};
use crate::recording::{recording_id_verdict, RecordingId, RecordingSession};
use crate::roster::{
    filled, keep_filled, keep_some, lemma_keep_some_step, lemma_texts_push, lemma_texts_take_step, opt_text, copy_participant, participant_views, texts,
    trimmed_settings, AssistantSettings, GlossaryEntry, GlossaryView, Participant, ParticipantView,
    glossary_views,
};
use crate::text::same_text;
use crate::worker::{asr_wire, AsrContext};

verus! {

/// A transcription the worker finished.
#[derive(Debug, Clone, PartialEq, Eq)]
pub struct CompletedTranscription {
    pub artifacts: Artifacts,
    pub segments: usize,
    pub filtered: usize,
}

#[derive(Debug, Clone, PartialEq, Eq)]
pub struct TranscriptionResult {
    pub job_id: JobId,
    pub srt: String,
    pub txt: String,
    pub checkpoint: Option<String>,
    pub output_directory: String,
    pub segments: usize,
    pub filtered: usize,
}

#[derive(Debug, Clone, PartialEq, Eq)]
pub struct TranscriptImportResult {
    pub job_id: JobId,
    pub txt: String,
    pub output_directory: String,
}

#[derive(Debug, Clone, PartialEq, Eq)]
pub struct RefinementResult {
    pub job_id: JobId,
    pub minutes: String,
}

/// Everything a refinement hands the assistant worker.
#[derive(Debug, Clone, PartialEq, Eq)]
pub struct RefinementJob {
    pub transcript: String,
    pub output: String,
    pub source_audio: Option<String>,
    pub background: Option<String>,
    pub participants: Vec<Participant>,
    pub glossary: Vec<GlossaryEntry>,
    pub model: Option<String>,
    pub base_url: Option<String>,
    pub reasoning_effort: Option<String>,
    pub api_key: String,
}

/// A saved token: trimmed, and blank meaning none.
pub fn normalize_token(token: &str) -> (saved: Option<String>)
    ensures
        opt_text(saved) == filled(Some(token@)),
{
    keep_filled(Some(token.to_owned()))
}

/// The token a setup run uses: the one typed for this run, else the saved one.
pub fn setup_token(requested: Option<String>, saved: Option<String>) -> (token: Option<String>)
    ensures
        token == if requested.is_some() {
            requested
        } else {
            saved
        },
{
    match requested {
        Some(t) => Some(t),
        None => saved,
    }
}

/// Transcription runs only on a prepared engine.
pub fn require_ready(status: &EnvironmentStatus) -> (ready: Result<(), AppError>)
    ensures
        ready is Ok <==> status.ready(),
        ready matches Err(e) ==> e.code@ == "SETUP_REQUIRED"@,
{
    if status.is_ready() {
        Ok(())
    } else {
        Err(AppError::new("SETUP_REQUIRED", "먼저 엔진과 모델 준비를 완료해 주세요."))
    }
}

/// Roster entries kept for this meeting: those whose id was selected, in
/// roster order.
pub open spec fn selected_attendees(roster: Seq<ParticipantView>, attendees: Seq<Seq<char>>) -> Seq<ParticipantView> {
    keep_some(roster, |p: ParticipantView| if attendees.contains(p.id) {
        Some(p)
    } else {
        None::<ParticipantView>
    })
}

fn contains_text(values: &Vec<String>, wanted: &String) -> (found: bool)
    ensures
        found == texts(values@).contains(wanted@),
{
    let mut i: usize = 0;
    while i < values.len()
        invariant
            i <= values.len(),
            forall|j: int| 0 <= j < i ==> values@[j]@ != wanted@,
        decreases values.len() - i,
    {
        if same_text(values[i].as_str(), wanted.as_str()) {
            proof {
                assert(texts(values@)[i as int] == wanted@);
            }
            return true;
        }
        i = i + 1;
    }
    proof {
        if texts(values@).contains(wanted@) {
            let k = choose|k: int| 0 <= k < texts(values@).len() && texts(values@)[k] == wanted@;
            assert(values@[k]@ == wanted@);
        }
    }
    false
}

/// The participants selected for one meeting, in roster order; an empty
/// selection sends no participant context at all.
pub fn select_attendees(roster: &Vec<Participant>, attendees: &Vec<String>) -> (selected: Vec<Participant>)
    ensures
        participant_views(selected@) == selected_attendees(participant_views(roster@), texts(attendees@)),
{
    let ghost f = |p: ParticipantView| if texts(attendees@).contains(p.id) {
        Some(p)
    } else {
        None::<ParticipantView>
    };
    let mut selected: Vec<Participant> = Vec::new();
    let mut i: usize = 0;
    while i < roster.len()
        invariant
            i <= roster.len(),
            f == (|p: ParticipantView| if texts(attendees@).contains(p.id) {
                Some(p)
            } else {
                None::<ParticipantView>
            }),
            participant_views(selected@) == keep_some(participant_views(roster@).take(i as int), f),
        decreases roster.len() - i,
    {
        proof {
            lemma_keep_some_step(participant_views(roster@), f, i as int);
        }
        if contains_text(attendees, &roster[i].id) {
            selected.push(copy_participant(&roster[i]));
            proof {
                assert(participant_views(selected@) =~= participant_views(selected@.drop_last()).push(
                    selected@.last()@,
                ));
            }
        }
        i = i + 1;
    }
    proof {
        assert(participant_views(roster@).take(roster@.len() as int) =~= participant_views(roster@));
    }
    selected
}

/// Glossary terms, in glossary order.
pub open spec fn glossary_terms(glossary: Seq<GlossaryView>) -> Seq<Seq<char>> {
    glossary.map_values(|g: GlossaryView| g.term)
}

/// Participant names, in roster order.
pub open spec fn participant_names(roster: Seq<ParticipantView>) -> Seq<Seq<char>> {
    roster.map_values(|p: ParticipantView| p.name)
}

/// Every spoken alias, participant by participant.
pub open spec fn participant_aliases(roster: Seq<ParticipantView>) -> Seq<Seq<char>>
    decreases roster.len(),
{
    if roster.len() == 0 {
        Seq::empty()
    } else {
        participant_aliases(roster.drop_last()) + roster.last().aliases
    }
}

/// The aliases of two rosters one after the other are the aliases of the
/// first followed by those of the second.
pub proof fn law_aliases_join_in_roster_order(first: Seq<ParticipantView>, second: Seq<ParticipantView>)
    ensures
        participant_aliases(first + second) == participant_aliases(first) + participant_aliases(second),
    decreases second.len(),
{
    if second.len() == 0 {
        assert(first + second =~= first);
        assert(participant_aliases(first) + participant_aliases(second) =~= participant_aliases(first));
    } else {
        law_aliases_join_in_roster_order(first, second.drop_last());
        assert((first + second).drop_last() =~= first + second.drop_last());
        assert((first + second).last() == second.last());
        assert(participant_aliases(first) + participant_aliases(second.drop_last()) + second.last().aliases
            =~= participant_aliases(first) + (participant_aliases(second.drop_last()) + second.last().aliases));
    }
}

/// Every alias of every participant is sent, right where that participant
/// stands in the roster: the aliases of the participants before it, then its
/// own, in order.
pub proof fn law_every_alias_is_sent(roster: Seq<ParticipantView>, k: int, j: int)
    requires
        0 <= k < roster.len(),
        0 <= j < roster[k].aliases.len(),
    ensures
        participant_aliases(roster)[participant_aliases(roster.take(k)).len() + j] == roster[k].aliases[j],
        participant_aliases(roster).contains(roster[k].aliases[j]),
        participant_aliases(roster).len() >= participant_aliases(roster.take(k)).len() + roster[k].aliases.len(),
{
    let before = roster.take(k);
    let after = roster.skip(k + 1);
    assert(roster =~= before + seq![roster[k]] + after);
    law_aliases_join_in_roster_order(before + seq![roster[k]], after);
    law_aliases_join_in_roster_order(before, seq![roster[k]]);
    let one = seq![roster[k]];
    assert(one.drop_last() =~= Seq::<ParticipantView>::empty());
    assert(one.last() == roster[k]);
    assert(participant_aliases(Seq::<ParticipantView>::empty()) == Seq::<Seq<char>>::empty());
    assert(participant_aliases(one) == participant_aliases(one.drop_last()) + roster[k].aliases);
    assert(participant_aliases(one) =~= roster[k].aliases);
    let whole = participant_aliases(roster);
    assert(whole == participant_aliases(before) + roster[k].aliases + participant_aliases(after));
    let i = participant_aliases(before).len() + j;
    assert(whole[i] == roster[k].aliases[j]);
}

/// The biasing context transcription sends, from the saved settings after
/// trimming: glossary terms, then participant names, then their aliases;
/// nothing when all three are empty.
pub open spec fn asr_context_spec(assistant: crate::roster::AssistantView) -> Option<Seq<char>> {
    let t = trimmed_settings(assistant);
    let terms = glossary_terms(t.glossary);
    let names = participant_names(t.participants);
    let aliases = participant_aliases(t.participants);
    if terms.len() == 0 && names.len() == 0 && aliases.len() == 0 {
        None
    } else {
        Some(asr_wire(terms, names, aliases))
    }
}

/// Bias ASR recognition with the saved glossary and roster.
pub fn asr_context(assistant: AssistantSettings) -> (context: Option<String>)
    ensures
        opt_text(context) == asr_context_spec(assistant@),
{
    let t = assistant.trimmed();
    let mut terms: Vec<String> = Vec::new();
    let mut i: usize = 0;
    while i < t.glossary.len()
        invariant
            i <= t.glossary.len(),
            terms@.len() == i,
            texts(terms@) == glossary_terms(glossary_views(t.glossary@).take(i as int)),
        decreases t.glossary.len() - i,
    {
        let term = t.glossary[i].term.clone();
        proof {
            lemma_texts_push(terms@, term);
            assert(glossary_terms(glossary_views(t.glossary@).take(i + 1)) =~= glossary_terms(
                glossary_views(t.glossary@).take(i as int),
            ).push(term@));
        }
        terms.push(term);
        i = i + 1;
    }
    let mut names: Vec<String> = Vec::new();
    let mut aliases: Vec<String> = Vec::new();
    let mut j: usize = 0;
    while j < t.participants.len()
        invariant
            j <= t.participants.len(),
            names@.len() == j,
            texts(names@) == participant_names(participant_views(t.participants@).take(j as int)),
            texts(aliases@) == participant_aliases(participant_views(t.participants@).take(j as int)),
        decreases t.participants.len() - j,
    {
        let p = &t.participants[j];
        let name = p.name.clone();
        proof {
            lemma_texts_push(names@, name);
            assert(participant_names(participant_views(t.participants@).take(j + 1)) =~= participant_names(
                participant_views(t.participants@).take(j as int),
            ).push(name@));
        }
        names.push(name);
        let ghost before = texts(aliases@);
        let mut k: usize = 0;
        while k < p.aliases.len()
            invariant
                k <= p.aliases.len(),
                aliases@.len() == before.len() + k,
                texts(aliases@) == before + texts(p.aliases@).take(k as int),
            decreases p.aliases.len() - k,
        {
            let alias = p.aliases[k].clone();
            proof {
                lemma_texts_push(aliases@, alias);
                lemma_texts_take_step(p.aliases@, k as int);
                assert(texts(p.aliases@.take(k + 1)) == texts(p.aliases@).take(k + 1));
                assert(texts(p.aliases@.take(k as int)) =~= texts(p.aliases@).take(k as int));
                assert(texts(p.aliases@.take(k + 1)) =~= texts(p.aliases@).take(k + 1));
                assert(before + texts(p.aliases@).take(k + 1) =~= (before + texts(p.aliases@).take(k as int)).push(alias@));
            }
            aliases.push(alias);
            k = k + 1;
        }
        proof {
            let views = participant_views(t.participants@);
            assert(views.take(j + 1).drop_last() =~= views.take(j as int));
            assert(texts(p.aliases@).take(p.aliases@.len() as int) =~= texts(p.aliases@));

        }
        j = j + 1;
    }
    proof {
        assert(glossary_views(t.glossary@).take(t.glossary@.len() as int) =~= glossary_views(t.glossary@));
        assert(participant_views(t.participants@).take(t.participants@.len() as int) =~= participant_views(t.participants@));
    }
    match AsrContext::new(terms, names, aliases) {
        Some(context) => Some(context.into_wire_json()),
        None => None,
    }
}

/// The srt path of a finished transcription; completed transcriptions always
/// carry one.
pub fn artifact_path(path: Option<&String>) -> (text: String)
    ensures
        match path {
            Some(p) => text@ == p@,
            None => text@ == Seq::<char>::empty(),
        },
{
    match path {
        Some(p) => p.clone(),
        None => String::new(),
    }
}

pub fn optional_artifact_path(path: Option<&String>) -> (text: Option<String>)
    ensures
        match path {
            Some(p) => text == Some(*p),
            None => text.is_none(),
        },
{
    match path {
        Some(p) => Some(p.clone()),
        None => None,
    }
}

/// The request bookkeeping of the app: the job slot with the finished jobs,
/// and the microphone session.
pub struct Coordinator {
    pub jobs: JobRegistry,
    pub recording: RecordingSession,
}

impl Coordinator {
    pub fn new() -> (coordinator: Self)
        ensures
            coordinator.jobs.active_job().is_none(),
            coordinator.jobs.results() == Map::<JobId, Artifacts>::empty(),
            coordinator.recording.active.is_none(),
    {
        Coordinator { jobs: JobRegistry::new(), recording: RecordingSession::new() }
    }

    /// Claim the slot for an engine setup run.
    pub fn begin_prepare(&mut self, job_id: JobId) -> (claimed: Result<JobGuard, AppError>)
        ensures
            answers(claimed, claim_refusal(old(self).jobs.active_job(), old(self).jobs.results(), job_id)),
            claimed is Ok ==> claimed == Ok::<JobGuard, AppError>(JobGuard { id: job_id }),
            final(self).jobs.active_job() == claim_next(old(self).jobs.active_job(), old(self).jobs.results(), job_id),
            final(self).jobs.results() == old(self).jobs.results(),
            final(self).recording == old(self).recording,
    {
        self.jobs.claim_with_id(job_id)
    }

    /// Start a transcription: the speaker hint is checked before anything
    /// else, so an invalid one never claims the slot or touches the disk.
    pub fn begin_transcription(&mut self, request: &TranscriptionRequest) -> (claimed: Result<JobGuard, AppError>)
        ensures
            final(self).jobs.results() == old(self).jobs.results(),
            final(self).recording == old(self).recording,
            hint_verdict(request.speaker_hint) is Err ==> (claimed matches Err(e) && e.code@ == "INVALID_SPEAKER_HINT"@)
                && final(self).jobs.active_job() == old(self).jobs.active_job(),
            hint_verdict(request.speaker_hint) is Ok ==> answers(
                claimed,
                claim_refusal(old(self).jobs.active_job(), old(self).jobs.results(), request.job_id),
            ) && final(self).jobs.active_job() == claim_next(
                old(self).jobs.active_job(),
                old(self).jobs.results(),
                request.job_id,
            ),
            claimed is Ok ==> claimed == Ok::<JobGuard, AppError>(JobGuard { id: request.job_id }),
    {
        match validate_speaker_hint(&request.speaker_hint) {
            Err(error) => Err(AppError::new("INVALID_SPEAKER_HINT", error.message())),
            Ok(()) => self.jobs.claim_with_id(request.job_id),
        }
    }

    /// The job ended without a result; its slot is free again.
    pub fn abandon(&mut self, guard: JobGuard)
        ensures
            final(self).jobs.active_job() == finish_next(old(self).jobs.active_job(), guard.id),
            final(self).jobs.results() == old(self).jobs.results(),
            final(self).recording == old(self).recording,
    {
        self.jobs.finish(guard.id);
    }

    /// Record a finished transcription and free the slot.
    pub fn complete_transcription(&mut self, guard: JobGuard, completed: CompletedTranscription) -> (result: TranscriptionResult)
        ensures
            final(self).jobs.results() == old(self).jobs.results().insert(guard.id, completed.artifacts),
            final(self).jobs.active_job() == finish_next(old(self).jobs.active_job(), guard.id),
            final(self).recording == old(self).recording,
            result.job_id == guard.id,
            result.srt@ == match completed.artifacts.srt {
                Some(p) => p@,
                None => Seq::<char>::empty(),
            },
            result.txt == completed.artifacts.txt,
            result.checkpoint == completed.artifacts.checkpoint,
            result.output_directory == completed.artifacts.output_directory,
            result.segments == completed.segments,
            result.filtered == completed.filtered,
    {
        let artifacts = copy_artifacts(&completed.artifacts);
        self.jobs.register(guard.id, completed.artifacts);
        self.jobs.finish(guard.id);
        TranscriptionResult {
            job_id: guard.id,
            srt: artifact_path(artifacts.srt.as_ref()),
            txt: artifacts.txt.clone(),
            checkpoint: optional_artifact_path(artifacts.checkpoint.as_ref()),
            output_directory: artifacts.output_directory.clone(),
            segments: completed.segments,
            filtered: completed.filtered,
        }
    }

    /// Claim the slot to register an existing transcript.
    pub fn begin_import(&mut self, request: &TranscriptImportRequest) -> (claimed: Result<JobGuard, AppError>)
        ensures
            answers(claimed, claim_refusal(old(self).jobs.active_job(), old(self).jobs.results(), request.job_id)),
            claimed is Ok ==> claimed == Ok::<JobGuard, AppError>(JobGuard { id: request.job_id }),
            final(self).jobs.active_job() == claim_next(old(self).jobs.active_job(), old(self).jobs.results(), request.job_id),
            final(self).jobs.results() == old(self).jobs.results(),
            final(self).recording == old(self).recording,
    {
        self.jobs.claim_with_id(request.job_id)
    }

    /// Register an imported transcript as a finished meeting.
    pub fn complete_import(&mut self, guard: JobGuard, artifacts: Artifacts) -> (result: TranscriptImportResult)
        ensures
            final(self).jobs.results() == old(self).jobs.results().insert(guard.id, artifacts),
            final(self).jobs.active_job() == finish_next(old(self).jobs.active_job(), guard.id),
            final(self).recording == old(self).recording,
            result.job_id == guard.id,
            result.txt == artifacts.txt,
            result.output_directory == artifacts.output_directory,
    {
        let txt = artifacts.txt.clone();
        let output_directory = artifacts.output_directory.clone();
        self.jobs.register(guard.id, artifacts);
        self.jobs.finish(guard.id);
        TranscriptImportResult { job_id: guard.id, txt, output_directory }
    }

    /// Plan the refinement of a finished meeting into minutes, then claim the
    /// slot for it. `assistant` is the saved settings as loaded, `api_key` the
    /// saved key, `attendees` the roster ids selected for this meeting.
    pub fn begin_refinement(
        &mut self,
        job_id: JobId,
        target: JobId,
        assistant: AssistantSettings,
        api_key: Option<String>,
        attendees: &Vec<String>,
    ) -> (planned: Result<(JobGuard, RefinementJob), AppError>)
        ensures
            final(self).jobs.results() == old(self).jobs.results(),
            final(self).recording == old(self).recording,
            !old(self).jobs.results().contains_key(target) ==> (planned matches Err(e) && e.code@
                == "ARTIFACT_NOT_FOUND"@) && final(self).jobs.active_job() == old(self).jobs.active_job(),
            old(self).jobs.results().contains_key(target) && filled(opt_text(api_key)).is_none() ==> (
            planned matches Err(e) && e.code@ == "ASSISTANT_KEY_MISSING"@)
                && final(self).jobs.active_job() == old(self).jobs.active_job(),
            old(self).jobs.results().contains_key(target) && filled(opt_text(api_key)).is_some() ==> answers(
                planned,
                claim_refusal(old(self).jobs.active_job(), old(self).jobs.results(), job_id),
            ) && final(self).jobs.active_job() == claim_next(
                old(self).jobs.active_job(),
                old(self).jobs.results(),
                job_id,
            ),
            planned matches Ok((guard, job)) ==> {
                let artifacts = old(self).jobs.results()[target];
                let t = trimmed_settings(assistant@);
                &&& guard.id == job_id
                &&& job.transcript == artifacts.txt
                &&& job.output@ == path_with_file_name(
                    artifacts.txt@,
                    minutes_file_name(path_file_stem(artifacts.txt@)),
                )
                &&& job.source_audio == artifacts.source_audio
                &&& opt_text(job.background) == t.background
                &&& participant_views(job.participants@) == selected_attendees(t.participants, texts(attendees@))
                &&& glossary_views(job.glossary@) == t.glossary
                &&& opt_text(job.model) == t.model
                &&& opt_text(job.base_url) == t.base_url
                &&& opt_text(job.reasoning_effort) == t.reasoning_effort
                &&& Some(job.api_key@) == filled(opt_text(api_key))
            },
    {
        let artifacts = match self.jobs.artifacts(target) {
            Ok(a) => a,
            Err(e) => return Err(e),
        };
        let t = assistant.trimmed();
        let participants = select_attendees(&t.participants, attendees);
        let api_key = match keep_filled(api_key) {
            Some(k) => k,
            None => {
                return Err(AppError::new(
                    "ASSISTANT_KEY_MISSING",
                    "설정에서 회의록 가공 API 키를 먼저 저장해 주세요.",
                ))
            },
        };
        let output = minutes_path(artifacts.txt.as_str());
        let guard = match self.jobs.claim_with_id(job_id) {
            Ok(g) => g,
            Err(e) => return Err(e),
        };
        let AssistantSettings { background, glossary, model, base_url, reasoning_effort, .. } = t;
        let job = RefinementJob {
            transcript: artifacts.txt,
            output,
            source_audio: artifacts.source_audio,
            background,
            participants,
            glossary,
            model,
            base_url,
            reasoning_effort,
            api_key,
        };
        Ok((guard, job))
    }

    /// Publish the minutes a refinement wrote for `target` and free the slot.
    pub fn complete_refinement(&mut self, guard: JobGuard, target: JobId, minutes: String) -> (result: Result<RefinementResult, AppError>)
        ensures
            final(self).jobs.active_job() == finish_next(old(self).jobs.active_job(), guard.id),
            final(self).recording == old(self).recording,
            old(self).jobs.results().contains_key(target) ==> result == Ok::<RefinementResult, AppError>(
                RefinementResult { job_id: guard.id, minutes },
            ) && final(self).jobs.results() == old(self).jobs.results().insert(
                target,
                Artifacts { minutes: Some(minutes), ..old(self).jobs.results()[target] },
            ),
            !old(self).jobs.results().contains_key(target) ==> (result matches Err(e) && e.code@
                == "ARTIFACT_NOT_FOUND"@) && final(self).jobs.results() == old(self).jobs.results(),
    {
        let copy = minutes.clone();
        let registered = self.jobs.register_minutes(target, minutes);
        self.jobs.finish(guard.id);
        match registered {
            Ok(()) => Ok(RefinementResult { job_id: guard.id, minutes: copy }),
            Err(e) => Err(e),
        }
    }

    /// Ask the running job to stop.
    pub fn cancel(&mut self, id: JobId) -> (cancelled: Result<(), AppError>)
        ensures
            answers(cancelled, crate::jobs::cancel_refusal(old(self).jobs.active_job(), id)),
            final(self).jobs.active_job() == crate::jobs::cancel_next(old(self).jobs.active_job(), id),
            final(self).jobs.results() == old(self).jobs.results(),
            final(self).recording == old(self).recording,
    {
        self.jobs.cancel(id)
    }

    /// The file to open for an artifact of a finished job, with the folder it
    /// must stay inside.
    pub fn open_artifact(&self, id: JobId, kind: ArtifactKind) -> (target: Result<(String, String), AppError>)
        ensures
            !self.jobs.results().contains_key(id) ==> (target matches Err(e) && e.code@ == "ARTIFACT_NOT_FOUND"@),
            self.jobs.results().contains_key(id) ==> match self.jobs.results()[id].path_of(kind) {
                Some(path) => target == Ok::<(String, String), AppError>(
                    (path, self.jobs.results()[id].output_directory),
                ),
                None => target matches Err(e) && e.code@ == "ARTIFACT_NOT_FOUND"@,
            },
    {
        let artifacts = match self.jobs.artifacts(id) {
            Ok(a) => a,
            Err(e) => return Err(e),
        };
        match artifacts.path_for(kind) {
            Some(path) => Ok((path.clone(), artifacts.output_directory.clone())),
            None => Err(AppError::new("ARTIFACT_NOT_FOUND", "아직 만들어진 회의록이 없습니다.")),
        }
    }

    /// The folder of a finished job.
    pub fn reveal_output(&self, id: JobId) -> (folder: Result<String, AppError>)
        ensures
            self.jobs.results().contains_key(id) ==> folder == Ok::<String, AppError>(
                self.jobs.results()[id].output_directory,
            ),
            !self.jobs.results().contains_key(id) ==> (folder matches Err(e) && e.code@ == "ARTIFACT_NOT_FOUND"@),
    {
        match self.jobs.artifacts(id) {
            Ok(a) => Ok(a.output_directory),
            Err(e) => Err(e),
        }
    }

    /// Whether a microphone recording may start now.
    pub fn check_recording_idle(&self) -> (idle: Result<(), AppError>)
        ensures
            idle is Ok <==> self.recording.active.is_none(),
            idle matches Err(e) ==> e.code@ == "RECORDING_BUSY"@,
    {
        self.recording.check_idle()
    }

    /// The device started recording under `id`.
    pub fn recording_started(&mut self, id: RecordingId)
        requires
            old(self).recording.active.is_none(),
        ensures
            final(self).recording.active == Some(id),
            final(self).jobs.active_job() == old(self).jobs.active_job(),
            final(self).jobs.results() == old(self).jobs.results(),
    {
        self.recording.started(id);
    }

    /// Stop or cancel the running recording: only its own id may, and the
    /// session is over afterwards whatever the device reports.
    pub fn end_recording(&mut self, id: RecordingId) -> (ended: Result<(), AppError>)
        ensures
            final(self).jobs.active_job() == old(self).jobs.active_job(),
            final(self).jobs.results() == old(self).jobs.results(),
            match recording_id_verdict(old(self).recording.active, id) {
                None => ended is Ok && final(self).recording.active.is_none(),
                Some(code) => (ended matches Err(e) && e.code@ == code) && final(self).recording
                    == old(self).recording,
            },
    {
        self.recording.end(id)
    }
}

} // verus!
