//! The saved meeting context: participant roster, glossary and assistant
//! preferences, and the normalisation every save and refinement applies.

use vstd::prelude::*;
use crate::text::{
    all_ascii, ascii_lowercase, is_white_space, lemma_trim_is_stable, lowercase, same_text, to_lowercase, trim,
    trim_spec,
};

verus! {

/// The text held by an optional string.
pub open spec fn opt_text(value: Option<String>) -> Option<Seq<char>> {
    match value {
        Some(s) => Some(s@),
        None => None,
    }
}

/// The texts held by a list of strings.
pub open spec fn texts(values: Seq<String>) -> Seq<Seq<char>> {
    values.map_values(|s: String| s@)
}

/// The texts of a list with one more string are the texts with its text.
pub proof fn lemma_texts_push(values: Seq<String>, value: String)
    ensures
        texts(values.push(value)) == texts(values).push(value@),
{
    assert(texts(values.push(value)) =~= texts(values).push(value@));
}

/// The texts of one more element of a list.
pub proof fn lemma_texts_take_step(values: Seq<String>, i: int)
    requires
        0 <= i < values.len(),
    ensures
        texts(values.take(i + 1)) == texts(values.take(i)).push(values[i]@),
{
    assert(values.take(i + 1) =~= values.take(i).push(values[i]));
    lemma_texts_push(values.take(i), values[i]);
}

/// A field kept only when it has something besides white space, trimmed.
pub open spec fn filled(value: Option<Seq<char>>) -> Option<Seq<char>> {
    match value {
        Some(s) => if trim_spec(s).len() > 0 {
            Some(trim_spec(s))
        } else {
            None
        },
        None => None,
    }
}

/// The elements `f` keeps, in order, each replaced by what `f` made of it.
pub open spec fn keep_some<A, B>(s: Seq<A>, f: spec_fn(A) -> Option<B>) -> Seq<B>
    decreases s.len(),
{
    if s.len() == 0 {
        Seq::empty()
    } else {
        let rest = keep_some(s.drop_last(), f);
        match f(s.last()) {
            Some(b) => rest.push(b),
            None => rest,
        }
    }
}

/// One more element of a list: `keep_some` of a longer prefix.
pub proof fn lemma_keep_some_step<A, B>(s: Seq<A>, f: spec_fn(A) -> Option<B>, i: int)
    requires
        0 <= i < s.len(),
    ensures
        keep_some(s.take(i + 1), f) == match f(s[i]) {
            Some(b) => keep_some(s.take(i), f).push(b),
            None => keep_some(s.take(i), f),
        },
{
    assert(s.take(i + 1).drop_last() =~= s.take(i));
    assert(s.take(i + 1).last() == s[i]);
}

/// One saved meeting participant reused across meetings.
#[derive(Debug, Clone, PartialEq, Eq)]
pub struct Participant {
    pub id: String,
    pub name: String,
    pub team: Option<String>,
    pub role: Option<String>,
    pub description: Option<String>,
    pub aliases: Vec<String>,
}

/// A participant as texts.
pub struct ParticipantView {
    pub id: Seq<char>,
    pub name: Seq<char>,
    pub team: Option<Seq<char>>,
    pub role: Option<Seq<char>>,
    pub description: Option<Seq<char>>,
    pub aliases: Seq<Seq<char>>,
}

impl View for Participant {
    type V = ParticipantView;

    open spec fn view(&self) -> ParticipantView {
        ParticipantView {
            id: self.id@,
            name: self.name@,
            team: opt_text(self.team),
            role: opt_text(self.role),
            description: opt_text(self.description),
            aliases: texts(self.aliases@),
        }
    }
}

/// The trimmed alias list: blank aliases go, the rest lose their padding.
pub open spec fn trimmed_aliases(aliases: Seq<Seq<char>>) -> Seq<Seq<char>> {
    keep_some(aliases, |a: Seq<char>| filled(Some(a)))
}

/// A participant after trimming: a nameless entry cannot label a speaker, so
/// it is dropped; every other text field is trimmed and kept only when filled.
pub open spec fn trimmed_participant(p: ParticipantView) -> Option<ParticipantView> {
    match filled(Some(p.name)) {
        Some(name) => Some(ParticipantView {
            id: p.id,
            name,
            team: filled(p.team),
            role: filled(p.role),
            description: filled(p.description),
            aliases: trimmed_aliases(p.aliases),
        }),
        None => None,
    }
}

/// One glossary term applied to every refinement to correct misheard words.
#[derive(Debug, Clone, PartialEq, Eq)]
pub struct GlossaryEntry {
    pub id: String,
    pub term: String,
    pub description: Option<String>,
}

pub struct GlossaryView {
    pub id: Seq<char>,
    pub term: Seq<char>,
    pub description: Option<Seq<char>>,
}

impl View for GlossaryEntry {
    type V = GlossaryView;

    open spec fn view(&self) -> GlossaryView {
        GlossaryView { id: self.id@, term: self.term@, description: opt_text(self.description) }
    }
}

/// A glossary row after trimming: a termless row corrects nothing and goes.
pub open spec fn trimmed_entry(e: GlossaryView) -> Option<GlossaryView> {
    match filled(Some(e.term)) {
        Some(term) => Some(GlossaryView { id: e.id, term, description: filled(e.description) }),
        None => None,
    }
}

/// The reasoning efforts the assistant accepts.
pub open spec fn is_supported_effort(effort: Seq<char>) -> bool {
    effort == "low"@ || effort == "medium"@ || effort == "high"@ || effort == "max"@
}

/// A reasoning effort, trimmed and lowercased; anything unsupported is dropped.
pub open spec fn normalized_effort(effort: Option<Seq<char>>) -> Option<Seq<char>> {
    match effort {
        Some(e) => if is_supported_effort(lowercase(trim_spec(e))) {
            Some(lowercase(trim_spec(e)))
        } else {
            None
        },
        None => None,
    }
}

/// Assistant preferences, background context, the roster and the glossary.
///
/// The API key never travels with these settings: it has its own save, and
/// the settings only say whether one is on file.
#[derive(Debug, Clone, PartialEq, Eq)]
pub struct AssistantSettings {
    pub api_key_stored: bool,
    pub model: Option<String>,
    pub base_url: Option<String>,
    pub reasoning_effort: Option<String>,
    pub background: Option<String>,
    pub participants: Vec<Participant>,
    pub glossary: Vec<GlossaryEntry>,
}

pub struct AssistantView {
    pub api_key_stored: bool,
    pub model: Option<Seq<char>>,
    pub base_url: Option<Seq<char>>,
    pub reasoning_effort: Option<Seq<char>>,
    pub background: Option<Seq<char>>,
    pub participants: Seq<ParticipantView>,
    pub glossary: Seq<GlossaryView>,
}

pub open spec fn participant_views(ps: Seq<Participant>) -> Seq<ParticipantView> {
    ps.map_values(|p: Participant| p@)
}

pub open spec fn glossary_views(gs: Seq<GlossaryEntry>) -> Seq<GlossaryView> {
    gs.map_values(|g: GlossaryEntry| g@)
}

impl View for AssistantSettings {
    type V = AssistantView;

    open spec fn view(&self) -> AssistantView {
        AssistantView {
            api_key_stored: self.api_key_stored,
            model: opt_text(self.model),
            base_url: opt_text(self.base_url),
            reasoning_effort: opt_text(self.reasoning_effort),
            background: opt_text(self.background),
            participants: participant_views(self.participants@),
            glossary: glossary_views(self.glossary@),
        }
    }
}

/// Settings after trimming, as every save and every use sees them.
pub open spec fn trimmed_settings(s: AssistantView) -> AssistantView {
    AssistantView {
        api_key_stored: s.api_key_stored,
        model: filled(s.model),
        base_url: filled(s.base_url),
        reasoning_effort: normalized_effort(s.reasoning_effort),
        background: filled(s.background),
        participants: keep_some(s.participants, |p: ParticipantView| trimmed_participant(p)),
        glossary: keep_some(s.glossary, |e: GlossaryView| trimmed_entry(e)),
    }
}

impl Default for AssistantSettings {
    fn default() -> (settings: Self)
        ensures
            settings.api_key_stored == false,
            settings.model.is_none(),
            settings.base_url.is_none(),
            settings.reasoning_effort.is_none(),
            settings.background.is_none(),
            settings.participants@.len() == 0,
            settings.glossary@.len() == 0,
    {
        AssistantSettings {
            api_key_stored: false,
            model: None,
            base_url: None,
            reasoning_effort: None,
            background: None,
            participants: Vec::new(),
            glossary: Vec::new(),
        }
    }
}

/// A text kept only when it has something besides white space, trimmed.
pub fn keep_filled(value: Option<String>) -> (kept: Option<String>)
    ensures
        opt_text(kept) == filled(opt_text(value)),
{
    match value {
        Some(s) => {
            let t = trim(s.as_str());
            if t.as_str().is_empty() {
                None
            } else {
                Some(t)
            }
        },
        None => None,
    }
}

fn trimmed_text_list(values: &Vec<String>) -> (kept: Vec<String>)
    ensures
        texts(kept@) == trimmed_aliases(texts(values@)),
{
    let mut kept: Vec<String> = Vec::new();
    let mut i: usize = 0;
    while i < values.len()
        invariant
            i <= values.len(),
            texts(kept@) == trimmed_aliases(texts(values@).take(i as int)),
        decreases values.len() - i,
    {
        proof {
            lemma_keep_some_step(texts(values@), |a: Seq<char>| filled(Some(a)), i as int);
        }
        let filled_value = keep_filled(Some(values[i].clone()));
        match filled_value {
            Some(v) => {
                kept.push(v);
                proof {
                    assert(texts(kept@) =~= texts(kept@.drop_last()).push(kept@.last()@));
                }
            },
            None => {},
        }
        i = i + 1;
    }
    proof {
        assert(texts(values@).take(values@.len() as int) =~= texts(values@));
    }
    kept
}

/// The effort an ASCII text names: lowercased, and kept when supported.
pub open spec fn ascii_effort(trimmed: Seq<char>) -> Option<Seq<char>> {
    if is_supported_effort(ascii_lowercase(trimmed)) {
        Some(ascii_lowercase(trimmed))
    } else {
        None
    }
}

/// A supported effort is already trimmed and lowercase: normalising it again
/// keeps it.
pub open spec fn settled_effort(effort: Option<Seq<char>>) -> bool {
    effort matches Some(x) ==> trim_spec(x) == x && lowercase(x) == x && is_supported_effort(x)
}

proof fn lemma_supported_effort_is_ascii_and_trimmed(x: Seq<char>)
    requires
        is_supported_effort(x),
    ensures
        all_ascii(x),
        trim_spec(x) == x,
{
    reveal_strlit("low");
    reveal_strlit("medium");
    reveal_strlit("high");
    reveal_strlit("max");
    assert(x.len() > 0 && !is_white_space(x[0]) && !is_white_space(x.last()));
    assert(crate::text::trim_start_spec(x) == x);
    assert(crate::text::trim_end_spec(x) == x);
}

fn normalize_effort(effort: &Option<String>) -> (normalized: Option<String>)
    ensures
        opt_text(normalized) == normalized_effort(opt_text(*effort)),
        settled_effort(opt_text(normalized)),
        match *effort {
            Some(e) => all_ascii(trim_spec(e@)) ==> opt_text(normalized) == ascii_effort(trim_spec(e@)),
            None => true,
        },
{
    match effort {
        Some(e) => {
            let t = trim(e.as_str());
            let lowered = to_lowercase(t.as_str());
            let s = lowered.as_str();
            if same_text(s, "low") || same_text(s, "medium") || same_text(s, "high")
                || same_text(s, "max") {
                proof {
                    lemma_supported_effort_is_ascii_and_trimmed(lowered@);
                }
                Some(lowered)
            } else {
                None
            }
        },
        None => None,
    }
}

fn trim_participant(p: &Participant) -> (trimmed: Option<Participant>)
    ensures
        match trimmed {
            Some(t) => trimmed_participant(p@) == Some(t@),
            None => trimmed_participant(p@).is_none(),
        },
{
    match keep_filled(Some(p.name.clone())) {
        Some(name) => {
            let t = Participant {
                id: p.id.clone(),
                name,
                team: keep_filled(p.team.clone()),
                role: keep_filled(p.role.clone()),
                description: keep_filled(p.description.clone()),
                aliases: trimmed_text_list(&p.aliases),
            };
            Some(t)
        },
        None => None,
    }
}

fn trim_entry(e: &GlossaryEntry) -> (trimmed: Option<GlossaryEntry>)
    ensures
        match trimmed {
            Some(t) => trimmed_entry(e@) == Some(t@),
            None => trimmed_entry(e@).is_none(),
        },
{
    match keep_filled(Some(e.term.clone())) {
        Some(term) => Some(
            GlossaryEntry { id: e.id.clone(), term, description: keep_filled(e.description.clone()) },
        ),
        None => None,
    }
}

pub fn copy_participant(p: &Participant) -> (copy: Participant)
    ensures
        copy@ == p@,
{
    Participant {
        id: p.id.clone(),
        name: p.name.clone(),
        team: p.team.clone(),
        role: p.role.clone(),
        description: p.description.clone(),
        aliases: copy_texts(&p.aliases),
    }
}

pub fn copy_texts(values: &Vec<String>) -> (copy: Vec<String>)
    ensures
        texts(copy@) == texts(values@),
{
    let mut copy: Vec<String> = Vec::new();
    let mut i: usize = 0;
    while i < values.len()
        invariant
            i <= values.len(),
            copy@.len() == i,
            texts(copy@) == texts(values@.take(i as int)),
        decreases values.len() - i,
    {
        let v = values[i].clone();
        proof {
            lemma_texts_push(copy@, v);
            lemma_texts_take_step(values@, i as int);
        }
        copy.push(v);
        i = i + 1;
    }
    proof {
        assert(values@.take(values@.len() as int) =~= values@);
    }
    copy
}

pub fn copy_entry(e: &GlossaryEntry) -> (copy: GlossaryEntry)
    ensures
        copy@ == e@,
{
    GlossaryEntry { id: e.id.clone(), term: e.term.clone(), description: e.description.clone() }
}

/// A copy of a roster, participant by participant.
pub fn copy_participants(roster: &Vec<Participant>) -> (copy: Vec<Participant>)
    ensures
        participant_views(copy@) == participant_views(roster@),
{
    let mut copy: Vec<Participant> = Vec::new();
    let mut i: usize = 0;
    while i < roster.len()
        invariant
            i <= roster.len(),
            copy@.len() == i,
            participant_views(copy@) == participant_views(roster@.take(i as int)),
        decreases roster.len() - i,
    {
        let p = copy_participant(&roster[i]);
        proof {
            assert forall|j: int| 0 <= j < i + 1 implies participant_views(copy@.push(p))[j]
                == participant_views(roster@.take(i + 1))[j] by {
                if j < i {
                    assert(participant_views(copy@)[j] == participant_views(roster@.take(i as int))[j]);
                }
            }
            assert(participant_views(copy@.push(p)) =~= participant_views(roster@.take(i + 1)));
        }
        copy.push(p);
        i = i + 1;
    }
    proof {
        assert(roster@.take(roster@.len() as int) =~= roster@);
    }
    copy
}

/// A copy of a glossary, row by row.
pub fn copy_glossary(glossary: &Vec<GlossaryEntry>) -> (copy: Vec<GlossaryEntry>)
    ensures
        glossary_views(copy@) == glossary_views(glossary@),
{
    let mut copy: Vec<GlossaryEntry> = Vec::new();
    let mut i: usize = 0;
    while i < glossary.len()
        invariant
            i <= glossary.len(),
            copy@.len() == i,
            glossary_views(copy@) == glossary_views(glossary@.take(i as int)),
        decreases glossary.len() - i,
    {
        let e = copy_entry(&glossary[i]);
        proof {
            assert forall|j: int| 0 <= j < i + 1 implies glossary_views(copy@.push(e))[j]
                == glossary_views(glossary@.take(i + 1))[j] by {
                if j < i {
                    assert(glossary_views(copy@)[j] == glossary_views(glossary@.take(i as int))[j]);
                }
            }
            assert(glossary_views(copy@.push(e)) =~= glossary_views(glossary@.take(i + 1)));
        }
        copy.push(e);
        i = i + 1;
    }
    proof {
        assert(glossary@.take(glossary@.len() as int) =~= glossary@);
    }
    copy
}

impl Participant {
    /// Drop a nameless entry; a participant without a name cannot label a speaker.
    pub fn trimmed(self) -> (trimmed: Option<Self>)
        ensures
            match trimmed {
                Some(p) => trimmed_participant(self@) == Some(p@),
                None => trimmed_participant(self@).is_none(),
            },
    {
        trim_participant(&self)
    }

}

impl GlossaryEntry {
    /// Drop a termless row; a glossary corrects terms, not prose.
    pub fn trimmed(self) -> (trimmed: Option<Self>)
        ensures
            match trimmed {
                Some(e) => trimmed_entry(self@) == Some(e@),
                None => trimmed_entry(self@).is_none(),
            },
    {
        trim_entry(&self)
    }
}

impl AssistantSettings {
    pub fn trimmed(self) -> (trimmed: Self)
        ensures
            trimmed@ == trimmed_settings(self@),
            trimmed_settings(trimmed@) == trimmed@,
            match self.reasoning_effort {
                Some(e) => all_ascii(trim_spec(e@)) ==> opt_text(trimmed.reasoning_effort) == ascii_effort(
                    trim_spec(e@),
                ),
                None => true,
            },
    {
        let mut participants: Vec<Participant> = Vec::new();
        let mut i: usize = 0;
        while i < self.participants.len()
            invariant
                i <= self.participants.len(),
                participant_views(participants@) == keep_some(
                    participant_views(self.participants@).take(i as int),
                    |p: ParticipantView| trimmed_participant(p),
                ),
            decreases self.participants.len() - i,
        {
            proof {
                lemma_keep_some_step(
                    participant_views(self.participants@),
                    |p: ParticipantView| trimmed_participant(p),
                    i as int,
                );
            }
            match trim_participant(&self.participants[i]) {
                Some(t) => {
                    participants.push(t);
                    proof {
                        assert(participant_views(participants@) =~= participant_views(
                            participants@.drop_last(),
                        ).push(participants@.last()@));
                    }
                },
                None => {},
            }
            i = i + 1;
        }
        let mut glossary: Vec<GlossaryEntry> = Vec::new();
        let mut j: usize = 0;
        while j < self.glossary.len()
            invariant
                j <= self.glossary.len(),
                glossary_views(glossary@) == keep_some(
                    glossary_views(self.glossary@).take(j as int),
                    |e: GlossaryView| trimmed_entry(e),
                ),
            decreases self.glossary.len() - j,
        {
            proof {
                lemma_keep_some_step(
                    glossary_views(self.glossary@),
                    |e: GlossaryView| trimmed_entry(e),
                    j as int,
                );
            }
            match trim_entry(&self.glossary[j]) {
                Some(t) => {
                    glossary.push(t);
                    proof {
                        assert(glossary_views(glossary@) =~= glossary_views(glossary@.drop_last()).push(
                            glossary@.last()@,
                        ));
                    }
                },
                None => {},
            }
            j = j + 1;
        }
        proof {
            assert(participant_views(self.participants@).take(self.participants@.len() as int)
                =~= participant_views(self.participants@));
            assert(glossary_views(self.glossary@).take(self.glossary@.len() as int)
                =~= glossary_views(self.glossary@));
        }
        let reasoning_effort = normalize_effort(&self.reasoning_effort);
        proof {
            law_trimmed_settings_are_settled(self@);
        }
        AssistantSettings {
            api_key_stored: self.api_key_stored,
            model: keep_filled(self.model),
            base_url: keep_filled(self.base_url),
            reasoning_effort,
            background: keep_filled(self.background),
            participants,
            glossary,
        }
    }
}

/// A filled field stays as it is when filled again.
proof fn lemma_filled_is_stable(value: Option<Seq<char>>)
    ensures
        filled(filled(value)) == filled(value),
        filled(value) matches Some(t) ==> t.len() > 0 && trim_spec(t) == t,
{
    if let Some(s) = value {
        lemma_trim_is_stable(s);
    }
}

/// Keeping with a function that leaves what it made as it is, twice, keeps
/// the same elements as once.
proof fn lemma_keep_some_is_stable<A>(s: Seq<A>, f: spec_fn(A) -> Option<A>)
    requires
        forall|a: A| #[trigger] f(a) is Some ==> f(f(a)->0) == f(a),
    ensures
        keep_some(keep_some(s, f), f) == keep_some(s, f),
    decreases s.len(),
{
    if s.len() > 0 {
        lemma_keep_some_is_stable(s.drop_last(), f);
        let rest = keep_some(s.drop_last(), f);
        if let Some(b) = f(s.last()) {
            assert(rest.push(b).drop_last() =~= rest);
            assert(rest.push(b).last() == b);
        }
    }
}

proof fn lemma_trimmed_participant_is_stable(p: ParticipantView, q: ParticipantView)
    requires
        trimmed_participant(p) == Some(q),
    ensures
        trimmed_participant(q) == Some(q),
{
    lemma_filled_is_stable(Some(p.name));
    lemma_filled_is_stable(p.team);
    lemma_filled_is_stable(p.role);
    lemma_filled_is_stable(p.description);
    let f = |a: Seq<char>| filled(Some(a));
    assert forall|a: Seq<char>| #[trigger] f(a) is Some implies f(f(a)->0) == f(a) by {
        lemma_filled_is_stable(Some(a));
    }
    lemma_keep_some_is_stable(p.aliases, f);
}

proof fn lemma_trimmed_entry_is_stable(e: GlossaryView, g: GlossaryView)
    requires
        trimmed_entry(e) == Some(g),
    ensures
        trimmed_entry(g) == Some(g),
{
    lemma_filled_is_stable(Some(e.term));
    lemma_filled_is_stable(e.description);
}

/// Normalising saved settings leaves them as the assistant can use them, and
/// normalising them again changes nothing but, possibly, the reasoning
/// effort: every kept text is non-empty without outer white space, the
/// effort is one of the supported ones, and the roster and glossary keep
/// exactly their named and termed rows.
pub proof fn law_trimmed_settings_are_settled(s: AssistantView)
    ensures
        ({
            let t = trimmed_settings(s);
            let again = trimmed_settings(t);
            &&& again.api_key_stored == t.api_key_stored
            &&& again.model == t.model
            &&& again.base_url == t.base_url
            &&& again.background == t.background
            &&& again.participants == t.participants
            &&& again.glossary == t.glossary
            &&& (t.model matches Some(m) ==> m.len() > 0 && trim_spec(m) == m)
            &&& (t.base_url matches Some(u) ==> u.len() > 0 && trim_spec(u) == u)
            &&& (t.background matches Some(b) ==> b.len() > 0 && trim_spec(b) == b)
            &&& (t.reasoning_effort matches Some(e) ==> is_supported_effort(e))
        }),
{
    lemma_filled_is_stable(s.model);
    lemma_filled_is_stable(s.base_url);
    lemma_filled_is_stable(s.background);
    let fp = |p: ParticipantView| trimmed_participant(p);
    assert forall|a: ParticipantView| #[trigger] fp(a) is Some implies fp(fp(a)->0) == fp(a) by {
        lemma_trimmed_participant_is_stable(a, fp(a)->0);
    }
    lemma_keep_some_is_stable(s.participants, fp);
    let fg = |e: GlossaryView| trimmed_entry(e);
    assert forall|a: GlossaryView| #[trigger] fg(a) is Some implies fg(fg(a)->0) == fg(a) by {
        lemma_trimmed_entry_is_stable(a, fg(a)->0);
    }
    lemma_keep_some_is_stable(s.glossary, fg);
}

} // verus!
