//! The settings document and the two credentials Galpi holds: where each
//! lives, how a secret left in an old settings file moves out of it, and why
//! an unchanged secret never reaches the secret store twice.

use vstd::prelude::*;
use crate::engine::EnginePreset;
use crate::error::AppError;
use crate::text::utf8_prefix;
use vstd::utf8::{valid_utf8, decode_utf8};
use crate::roster::{copy_glossary, copy_participants, glossary_views, participant_views, AssistantSettings, GlossaryEntry, Participant};

verus! {

/// The service every Galpi secret is filed under in the keychain.
pub const SERVICE: &'static str = "com.m16khb.galpi";

/// One stored credential.
#[derive(Debug, Clone, Copy, PartialEq, Eq, Structural)]
pub enum Secret {
    HuggingFaceToken,
    AssistantApiKey,
}

pub open spec fn account_name(secret: Secret) -> Seq<char> {
    match secret {
        Secret::HuggingFaceToken => "hugging-face-token"@,
        Secret::AssistantApiKey => "assistant-api-key"@,
    }
}

impl Secret {
    /// The keychain account a secret is filed under.
    pub fn account(self) -> (account: &'static str)
        ensures
            account@ == account_name(self),
    {
        match self {
            Secret::HuggingFaceToken => "hugging-face-token",
            Secret::AssistantApiKey => "assistant-api-key",
        }
    }
}

/// Where secrets are kept. A store that is the settings document itself
/// (`plaintext_in_settings`) holds nothing of its own: the value lives in the
/// document.
pub trait SecretStore {
    /// What the store holds for a secret.
    spec fn stored(&self, secret: Secret) -> Option<Seq<char>>;

    /// Whether the store is the settings document itself, so a secret's
    /// value stays in the document rather than being scrubbed from it.
    spec fn plaintext_in_settings(&self) -> bool;

    /// Whether the store answers every read and write without failing, as a
    /// store kept in the process does; a keychain may refuse.
    spec fn infallible(&self) -> bool;

    fn read(&mut self, secret: Secret) -> (value: Result<Option<String>, AppError>)
        ensures
            forall|s: Secret| #[trigger] final(self).stored(s) == old(self).stored(s),
            final(self).plaintext_in_settings() == old(self).plaintext_in_settings(),
            final(self).infallible() == old(self).infallible(),
            old(self).infallible() ==> value is Ok,
            old(self).plaintext_in_settings() ==> value == Ok::<Option<String>, AppError>(None),
            !old(self).plaintext_in_settings() ==> (value matches Ok(v) ==> match v {
                Some(t) => old(self).stored(secret) == Some(t@),
                None => old(self).stored(secret).is_none(),
            });

    fn write(&mut self, secret: Secret, value: Option<&str>) -> (written: Result<(), AppError>)
        ensures
            final(self).plaintext_in_settings() == old(self).plaintext_in_settings(),
            final(self).infallible() == old(self).infallible(),
            old(self).infallible() ==> written is Ok,
            forall|s: Secret| s != secret ==> #[trigger] final(self).stored(s) == old(self).stored(s),
            written is Ok && !old(self).plaintext_in_settings() ==> final(self).stored(secret) == match value {
                Some(t) => Some(t@),
                None => None::<Seq<char>>,
            },
            written is Err ==> final(self).stored(secret) == old(self).stored(secret);

    fn keeps_plaintext_in_settings(&self) -> (kept: bool)
        ensures
            kept == self.plaintext_in_settings();
}

/// What a keychain lookup means for a secret: a failed lookup (nothing filed,
/// or access declined) is nothing stored, and what is stored must be UTF-8
/// text.
pub fn keychain_value(found: Option<Vec<u8>>) -> (value: Result<Option<String>, AppError>)
    ensures
        match found {
            None => value == Ok::<Option<String>, AppError>(None),
            Some(bytes) => if valid_utf8(bytes@) {
                value matches Ok(Some(text)) && text@ == decode_utf8(bytes@)
            } else {
                value matches Err(e) && e.code@ == "KEYCHAIN_INVALID"@
            },
        },
{
    match found {
        None => Ok(None),
        Some(bytes) => {
            proof {
                assert(bytes@.take(bytes@.len() as int) =~= bytes@);
            }
            match utf8_prefix(bytes.as_slice(), bytes.len()) {
                Some(text) => Ok(Some(text)),
                None => Err(AppError::new("KEYCHAIN_INVALID", "키체인에 저장된 값이 UTF-8 텍스트가 아닙니다.")),
            }
        },
    }
}

/// A store that is the settings document itself, for builds whose signature
/// the keychain does not trust yet: the value stays in the document.
#[derive(Debug, Clone, Copy, PartialEq, Eq, Structural)]
pub struct SettingsFile;

impl SecretStore for SettingsFile {
    open spec fn stored(&self, secret: Secret) -> Option<Seq<char>> {
        None
    }

    open spec fn plaintext_in_settings(&self) -> bool {
        true
    }

    open spec fn infallible(&self) -> bool {
        true
    }

    fn read(&mut self, secret: Secret) -> (value: Result<Option<String>, AppError>) {
        Ok(None)
    }

    fn write(&mut self, secret: Secret, value: Option<&str>) -> (written: Result<(), AppError>)
        ensures
            written is Ok,
    {
        // The document keeps the value; there is nowhere else to put it.
        Ok(())
    }

    fn keeps_plaintext_in_settings(&self) -> (kept: bool) {
        true
    }
}

/// An in-process store, counting how often it was asked, so the storage
/// logic around it can be checked without touching anyone's keychain.
#[derive(Debug, Clone, PartialEq, Eq, Default)]
pub struct InMemorySecrets {
    pub hugging_face_token: Option<String>,
    pub assistant_api_key: Option<String>,
    pub reads: u64,
    pub writes: u64,
}

impl InMemorySecrets {
    pub fn new() -> (store: Self)
        ensures
            store.hugging_face_token.is_none(),
            store.assistant_api_key.is_none(),
            store.reads == 0,
            store.writes == 0,
    {
        InMemorySecrets { hugging_face_token: None, assistant_api_key: None, reads: 0, writes: 0 }
    }

    pub fn reads(&self) -> (reads: u64)
        ensures
            reads == self.reads,
    {
        self.reads
    }

    pub fn writes(&self) -> (writes: u64)
        ensures
            writes == self.writes,
    {
        self.writes
    }
}

impl SecretStore for InMemorySecrets {
    open spec fn stored(&self, secret: Secret) -> Option<Seq<char>> {
        match secret {
            Secret::HuggingFaceToken => crate::roster::opt_text(self.hugging_face_token),
            Secret::AssistantApiKey => crate::roster::opt_text(self.assistant_api_key),
        }
    }

    open spec fn plaintext_in_settings(&self) -> bool {
        false
    }

    open spec fn infallible(&self) -> bool {
        true
    }

    fn read(&mut self, secret: Secret) -> (value: Result<Option<String>, AppError>)
        ensures
            value == Ok::<Option<String>, AppError>(match secret {
                Secret::HuggingFaceToken => old(self).hugging_face_token,
                Secret::AssistantApiKey => old(self).assistant_api_key,
            }),
            final(self).hugging_face_token == old(self).hugging_face_token,
            final(self).assistant_api_key == old(self).assistant_api_key,
            final(self).reads == if old(self).reads == u64::MAX { u64::MAX } else { (old(self).reads + 1) as u64 },
            final(self).writes == old(self).writes,
    {
        self.reads = self.reads.saturating_add(1);
        match secret {
            Secret::HuggingFaceToken => Ok(self.hugging_face_token.clone()),
            Secret::AssistantApiKey => Ok(self.assistant_api_key.clone()),
        }
    }

    fn write(&mut self, secret: Secret, value: Option<&str>) -> (written: Result<(), AppError>)
        ensures
            written is Ok,
            crate::roster::opt_text(match secret {
                Secret::HuggingFaceToken => final(self).hugging_face_token,
                Secret::AssistantApiKey => final(self).assistant_api_key,
            }) == match value {
                Some(t) => Some(t@),
                None => None::<Seq<char>>,
            },
            secret != Secret::HuggingFaceToken ==> final(self).hugging_face_token == old(self).hugging_face_token,
            secret != Secret::AssistantApiKey ==> final(self).assistant_api_key == old(self).assistant_api_key,
            final(self).writes == if old(self).writes == u64::MAX { u64::MAX } else { (old(self).writes + 1) as u64 },
            final(self).reads == old(self).reads,
    {
        self.writes = self.writes.saturating_add(1);
        let owned = match value {
            Some(t) => Some(t.to_owned()),
            None => None,
        };
        match secret {
            Secret::HuggingFaceToken => self.hugging_face_token = owned,
            Secret::AssistantApiKey => self.assistant_api_key = owned,
        }
        Ok(())
    }

    fn keeps_plaintext_in_settings(&self) -> (kept: bool) {
        false
    }
}

/// The settings document as it is kept on disk.
#[derive(Debug, Clone, PartialEq, Eq)]
pub struct LocalSettings {
    pub engine_preset: EnginePreset,
    pub hugging_face_token: Option<String>,
    pub assistant_api_key: Option<String>,
    pub hugging_face_token_stored: bool,
    pub assistant_api_key_stored: bool,
    pub assistant_model: Option<String>,
    pub assistant_base_url: Option<String>,
    pub assistant_reasoning_effort: Option<String>,
    pub assistant_background: Option<String>,
    pub participants: Vec<Participant>,
    pub glossary: Vec<GlossaryEntry>,
}

/// The plaintext copy of a secret in the document.
pub open spec fn plaintext_of(doc: LocalSettings, secret: Secret) -> Option<String> {
    match secret {
        Secret::HuggingFaceToken => doc.hugging_face_token,
        Secret::AssistantApiKey => doc.assistant_api_key,
    }
}

/// Whether the document records that a secret is on file.
pub open spec fn flag_of(doc: LocalSettings, secret: Secret) -> bool {
    match secret {
        Secret::HuggingFaceToken => doc.hugging_face_token_stored,
        Secret::AssistantApiKey => doc.assistant_api_key_stored,
    }
}

/// The document with a secret's plaintext copy and flag replaced.
pub open spec fn with_secret_fields(doc: LocalSettings, secret: Secret, plaintext: Option<String>, flag: bool) -> LocalSettings {
    match secret {
        Secret::HuggingFaceToken => LocalSettings {
            hugging_face_token: plaintext,
            hugging_face_token_stored: flag,
            ..doc
        },
        Secret::AssistantApiKey => LocalSettings {
            assistant_api_key: plaintext,
            assistant_api_key_stored: flag,
            ..doc
        },
    }
}

impl LocalSettings {
    pub fn new() -> (doc: Self)
        ensures
            doc.is_empty_spec(),
    {
        LocalSettings {
            engine_preset: EnginePreset::Qwen3,
            hugging_face_token: None,
            assistant_api_key: None,
            hugging_face_token_stored: false,
            assistant_api_key_stored: false,
            assistant_model: None,
            assistant_base_url: None,
            assistant_reasoning_effort: None,
            assistant_background: None,
            participants: Vec::new(),
            glossary: Vec::new(),
        }
    }

    /// Nothing worth a file: the default preset is what an absent file means.
    pub open spec fn is_empty_spec(self) -> bool {
        &&& self.engine_preset == EnginePreset::Qwen3
        &&& self.hugging_face_token.is_none()
        &&& self.assistant_api_key.is_none()
        &&& !self.hugging_face_token_stored
        &&& !self.assistant_api_key_stored
        &&& self.assistant_model.is_none()
        &&& self.assistant_base_url.is_none()
        &&& self.assistant_reasoning_effort.is_none()
        &&& self.assistant_background.is_none()
        &&& self.participants@.len() == 0
        &&& self.glossary@.len() == 0
    }

    pub fn is_empty(&self) -> (empty: bool)
        ensures
            empty == self.is_empty_spec(),
    {
        self.engine_preset == EnginePreset::Qwen3 && self.hugging_face_token.is_none()
            && self.assistant_api_key.is_none() && !self.hugging_face_token_stored
            && !self.assistant_api_key_stored && self.assistant_model.is_none()
            && self.assistant_base_url.is_none() && self.assistant_reasoning_effort.is_none()
            && self.assistant_background.is_none() && self.participants.len() == 0
            && self.glossary.len() == 0
    }
}

fn copy_opt(value: &Option<String>) -> (copy: Option<String>)
    ensures
        copy == *value,
{
    match value {
        Some(s) => Some(s.clone()),
        None => None,
    }
}

/// The settings of one launch: the document, the secret store, and what each
/// secret held when it was last read or written.
///
/// Every access to the store may be a question to the user, so each secret is
/// read at most once per launch and an unchanged value is never written again.
/// After each call that changes `document`, the caller writes it out (or
/// removes the file when the document is empty).
pub struct SettingsStore<S: SecretStore> {
    pub document: LocalSettings,
    pub secrets: S,
    pub hugging_face_cache: Option<Option<String>>,
    pub assistant_cache: Option<Option<String>>,
}

impl<S: SecretStore> SettingsStore<S> {
    /// What the cache holds for a secret: `None` until it was read or written.
    pub open spec fn cached(self, secret: Secret) -> Option<Option<String>> {
        match secret {
            Secret::HuggingFaceToken => self.hugging_face_cache,
            Secret::AssistantApiKey => self.assistant_cache,
        }
    }

    /// The same store with one secret's cache replaced.
    pub open spec fn cached_as(self, secret: Secret, value: Option<Option<String>>) -> Self {
        match secret {
            Secret::HuggingFaceToken => SettingsStore { hugging_face_cache: value, ..self },
            Secret::AssistantApiKey => SettingsStore { assistant_cache: value, ..self },
        }
    }

    pub fn new(document: LocalSettings, secrets: S) -> (store: Self)
        ensures
            store.document == document,
            store.secrets == secrets,
            store.hugging_face_cache.is_none(),
            store.assistant_cache.is_none(),
    {
        SettingsStore { document, secrets, hugging_face_cache: None, assistant_cache: None }
    }

    fn cache_get(&self, secret: Secret) -> (cached: Option<Option<String>>)
        ensures
            cached == self.cached(secret),
    {
        match secret {
            Secret::HuggingFaceToken => match &self.hugging_face_cache {
                Some(v) => Some(copy_opt(v)),
                None => None,
            },
            Secret::AssistantApiKey => match &self.assistant_cache {
                Some(v) => Some(copy_opt(v)),
                None => None,
            },
        }
    }

    fn cache_set(&mut self, secret: Secret, value: Option<String>)
        ensures
            *final(self) == old(self).cached_as(secret, Some(value)),
    {
        match secret {
            Secret::HuggingFaceToken => self.hugging_face_cache = Some(value),
            Secret::AssistantApiKey => self.assistant_cache = Some(value),
        }
    }

    fn set_secret_fields(&mut self, secret: Secret, plaintext: Option<String>, flag: bool)
        ensures
            final(self).document == with_secret_fields(old(self).document, secret, plaintext, flag),
            final(self).secrets == old(self).secrets,
            final(self).hugging_face_cache == old(self).hugging_face_cache,
            final(self).assistant_cache == old(self).assistant_cache,
    {
        match secret {
            Secret::HuggingFaceToken => {
                self.document.hugging_face_token = plaintext;
                self.document.hugging_face_token_stored = flag;
            },
            Secret::AssistantApiKey => {
                self.document.assistant_api_key = plaintext;
                self.document.assistant_api_key_stored = flag;
            },
        }
    }

    /// What a successful or failed `store_secret` leaves behind.
    pub open spec fn store_secret_post(
        before: Self,
        after: Self,
        secret: Secret,
        value: Option<Seq<char>>,
        result: Result<(), AppError>,
    ) -> bool {
        let known = before.cached(secret) matches Some(c) && crate::roster::opt_text(c) == value;
        &&& known ==> result is Ok && after == before
        &&& !known && before.secrets.infallible() ==> result is Ok
        &&& !known && result is Ok ==> {
            &&& !before.secrets.plaintext_in_settings() ==> after.secrets.stored(secret) == value
            &&& (after.cached(secret) matches Some(c) && crate::roster::opt_text(c) == value)
            &&& after.document == with_secret_fields(
                before.document,
                secret,
                plaintext_of(after.document, secret),
                value.is_some(),
            )
            &&& crate::roster::opt_text(plaintext_of(after.document, secret)) == if before.secrets.plaintext_in_settings() {
                value
            } else {
                None
            }
        }
        &&& result is Err ==> after.document == before.document && after.cached(secret) == before.cached(secret)
            && after.secrets.stored(secret) == before.secrets.stored(secret)
        &&& forall|s: Secret| s != secret ==> #[trigger] after.secrets.stored(s) == before.secrets.stored(s)
        &&& forall|s: Secret| s != secret ==> #[trigger] after.cached(s) == before.cached(s)
        &&& after.secrets.plaintext_in_settings() == before.secrets.plaintext_in_settings()
        &&& after.secrets.infallible() == before.secrets.infallible()
    }

    /// Take in the outcome of writing a secret to the store: when the write
    /// succeeded, remember the value and record in the document that a secret
    /// is on file (keeping the value there only when the document is the
    /// store); when it failed, hand the failure on and change nothing.
    pub fn commit_secret(&mut self, secret: Secret, value: Option<String>, written: Result<(), AppError>) -> (stored: Result<(), AppError>)
        ensures
            stored == written,
            written is Ok ==> {
                &&& final(self).secrets == old(self).secrets
                &&& final(self).cached(secret) == Some(value)
                &&& forall|s: Secret| s != secret ==> #[trigger] final(self).cached(s) == old(self).cached(s)
                &&& final(self).document == with_secret_fields(
                    old(self).document,
                    secret,
                    if old(self).secrets.plaintext_in_settings() {
                        value
                    } else {
                        None
                    },
                    value.is_some(),
                )
            },
            written is Err ==> *final(self) == *old(self),
    {
        if written.is_err() {
            return written;
        }
        let present = value.is_some();
        let retained = if self.secrets.keeps_plaintext_in_settings() {
            copy_opt(&value)
        } else {
            None
        };
        self.cache_set(secret, value);
        self.set_secret_fields(secret, retained, present);
        written
    }

    /// Publish a secret to the store and keep the document free of its
    /// plaintext unless the document is the store. A value identical to the
    /// one already known does nothing at all.
    pub fn store_secret(&mut self, secret: Secret, value: Option<&str>) -> (stored: Result<(), AppError>)
        ensures
            Self::store_secret_post(*old(self), *final(self), secret, match value {
                Some(t) => Some(t@),
                None => None,
            }, stored),
    {
        let owned = match value {
            Some(t) => Some(t.to_owned()),
            None => None,
        };
        let known = match self.cache_get(secret) {
            Some(Some(c)) => match &owned {
                Some(o) => c == *o,
                None => false,
            },
            Some(None) => owned.is_none(),
            None => false,
        };
        proof {
            let v = match value {
                Some(t) => Some(t@),
                None => None::<Seq<char>>,
            };
            assert(crate::roster::opt_text(owned) == v);
        }
        if known {
            return Ok(());
        }
        let written = self.secrets.write(secret, value);
        self.commit_secret(secret, owned, written)
    }

    /// Where a secret's value comes from when it is first read: the store,
    /// or else the plaintext an older settings file left behind.
    pub open spec fn secret_source(self, secret: Secret) -> Option<Seq<char>> {
        if !self.secrets.plaintext_in_settings() && self.secrets.stored(secret).is_some() {
            self.secrets.stored(secret)
        } else {
            crate::roster::opt_text(plaintext_of(self.document, secret))
        }
    }

    /// What a `secret` call leaves behind.
    pub open spec fn secret_post(before: Self, after: Self, secret: Secret, result: Result<Option<String>, AppError>) -> bool {
        match before.cached(secret) {
            Some(c) => result == Ok::<Option<String>, AppError>(c) && after == before,
            None => {
                &&& result matches Ok(v) ==> {
                    &&& crate::roster::opt_text(v) == before.secret_source(secret)
                    &&& (after.cached(secret) matches Some(c) && crate::roster::opt_text(c) == crate::roster::opt_text(v))
                    &&& v.is_some() ==> flag_of(after.document, secret)
                    &&& !before.secrets.plaintext_in_settings() ==> after.secrets.stored(secret)
                        == crate::roster::opt_text(v)
                    &&& !before.secrets.plaintext_in_settings() && before.secrets.stored(secret).is_none()
                        ==> plaintext_of(after.document, secret).is_none()
                }
                &&& after.document == with_secret_fields(
                    before.document,
                    secret,
                    plaintext_of(after.document, secret),
                    flag_of(after.document, secret),
                )
                &&& before.secrets.infallible() ==> result is Ok
                &&& result is Err ==> after.document == before.document && after.cached(secret) == before.cached(secret)
                    && after.secrets.stored(secret) == before.secrets.stored(secret)
                &&& forall|s: Secret| s != secret ==> #[trigger] after.secrets.stored(s) == before.secrets.stored(s)
                &&& forall|s: Secret| s != secret ==> #[trigger] after.cached(s) == before.cached(s)
                &&& after.secrets.plaintext_in_settings() == before.secrets.plaintext_in_settings()
                &&& after.secrets.infallible() == before.secrets.infallible()
            },
        }
    }

    /// What the settings make of what the store answered when a secret was
    /// read: a failure is handed on and changes nothing; a value is returned,
    /// remembered, and recorded in the document as on file; nothing at all is
    /// remembered as nothing, unless an older settings file left the secret
    /// in plaintext, which then moves into the store and is returned.
    pub fn settle_read(&mut self, secret: Secret, read: Result<Option<String>, AppError>) -> (value: Result<Option<String>, AppError>)
        ensures
            match read {
                Err(e) => value == Err::<Option<String>, AppError>(e) && *final(self) == *old(self),
                Ok(Some(v)) => {
                    &&& value == Ok::<Option<String>, AppError>(Some(v))
                    &&& final(self).cached(secret) == Some(Some(v))
                    &&& forall|s: Secret| s != secret ==> #[trigger] final(self).cached(s) == old(self).cached(s)
                    &&& final(self).document == with_secret_fields(
                        old(self).document,
                        secret,
                        plaintext_of(old(self).document, secret),
                        true,
                    )
                    &&& final(self).secrets == old(self).secrets
                },
                Ok(None) => match plaintext_of(old(self).document, secret) {
                    None => {
                        &&& value == Ok::<Option<String>, AppError>(None)
                        &&& final(self).cached(secret) == Some(None::<String>)
                        &&& forall|s: Secret| s != secret ==> #[trigger] final(self).cached(s) == old(self).cached(s)
                        &&& final(self).document == old(self).document
                        &&& final(self).secrets == old(self).secrets
                    },
                    Some(legacy) => {
                        &&& Self::store_secret_post(*old(self), *final(self), secret, Some(legacy@), match value {
                            Ok(_) => Ok::<(), AppError>(()),
                            Err(e) => Err::<(), AppError>(e),
                        })
                        &&& value is Ok ==> value == Ok::<Option<String>, AppError>(Some(legacy))
                    },
                },
            },
    {
        let stored = match read {
            Ok(v) => v,
            Err(e) => return Err(e),
        };
        match stored {
            Some(v) => {
                self.cache_set(secret, Some(v.clone()));
                self.note_secret_present(secret);
                return Ok(Some(v));
            },
            None => {},
        }
        match self.plaintext(secret) {
            None => {
                self.cache_set(secret, None);
                Ok(None)
            },
            Some(legacy) => {
                match self.store_secret(secret, Some(legacy.as_str())) {
                    Ok(()) => Ok(Some(legacy)),
                    Err(e) => Err(e),
                }
            },
        }
    }

    fn plaintext(&self, secret: Secret) -> (plaintext: Option<String>)
        ensures
            plaintext == plaintext_of(self.document, secret),
    {
        match secret {
            Secret::HuggingFaceToken => copy_opt(&self.document.hugging_face_token),
            Secret::AssistantApiKey => copy_opt(&self.document.assistant_api_key),
        }
    }

    fn flag(&self, secret: Secret) -> (flag: bool)
        ensures
            flag == flag_of(self.document, secret),
    {
        match secret {
            Secret::HuggingFaceToken => self.document.hugging_face_token_stored,
            Secret::AssistantApiKey => self.document.assistant_api_key_stored,
        }
    }

    /// Record that a secret is on file, so the flag survives into the next launch.
    fn note_secret_present(&mut self, secret: Secret)
        ensures
            final(self).document == with_secret_fields(
                old(self).document,
                secret,
                plaintext_of(old(self).document, secret),
                true,
            ),
            final(self).secrets == old(self).secrets,
            final(self).hugging_face_cache == old(self).hugging_face_cache,
            final(self).assistant_cache == old(self).assistant_cache,
    {
        let plaintext = self.plaintext(secret);
        self.set_secret_fields(secret, plaintext, true);
    }

    /// Read a secret: from the cache when it was read or written before, else
    /// from the store, else from the plaintext an older settings file left,
    /// which then moves into the store.
    pub fn secret(&mut self, secret: Secret) -> (value: Result<Option<String>, AppError>)
        ensures
            Self::secret_post(*old(self), *final(self), secret, value),
    {
        match self.cache_get(secret) {
            Some(c) => return Ok(c),
            None => {},
        }
        let read = self.secrets.read(secret);
        self.settle_read(secret, read)
    }

    /// Whether a secret is on file, answered from the cache or the document's
    /// flag whenever they know, so the store is asked at most once.
    /// What a `secret_stored` call answers and leaves behind.
    pub open spec fn secret_stored_post(before: Self, after: Self, secret: Secret, present: Result<bool, AppError>) -> bool {
        if let Some(c) = before.cached(secret) {
            present == Ok::<bool, AppError>(c.is_some()) && after == before
        } else if flag_of(before.document, secret) || plaintext_of(before.document, secret).is_some() {
            present == Ok::<bool, AppError>(true) && after == before
        } else {
            exists|r: Result<Option<String>, AppError>| {
                &&& Self::secret_post(before, after, secret, r)
                &&& match r {
                    Ok(v) => present == Ok::<bool, AppError>(v.is_some()),
                    Err(e) => present == Err::<bool, AppError>(e),
                }
            }
        }
    }

    pub fn secret_stored(&mut self, secret: Secret) -> (present: Result<bool, AppError>)
        ensures
            Self::secret_stored_post(*old(self), *final(self), secret, present),
    {
        match self.cache_get(secret) {
            Some(c) => return Ok(c.is_some()),
            None => {},
        }
        if self.flag(secret) || self.plaintext(secret).is_some() {
            return Ok(true);
        }
        let r = self.secret(secret);
        match r {
            Ok(v) => Ok(v.is_some()),
            Err(e) => Err(e),
        }
    }

    pub fn load_engine_preset(&self) -> (preset: EnginePreset)
        ensures
            preset == self.document.engine_preset,
    {
        self.document.engine_preset
    }

    pub fn save_engine_preset(&mut self, preset: EnginePreset)
        ensures
            final(self).document == (LocalSettings { engine_preset: preset, ..old(self).document }),
            final(self).secrets == old(self).secrets,
            final(self).hugging_face_cache == old(self).hugging_face_cache,
            final(self).assistant_cache == old(self).assistant_cache,
    {
        self.document.engine_preset = preset;
    }

    /// The assistant settings as the settings sheet sees them: whether a key
    /// is on file, never the key itself.
    pub fn load_assistant(&mut self) -> (loaded: Result<AssistantSettings, AppError>)
        ensures
            loaded matches Ok(a) ==> {
                &&& a.model == old(self).document.assistant_model
                &&& a.base_url == old(self).document.assistant_base_url
                &&& a.reasoning_effort == old(self).document.assistant_reasoning_effort
                &&& a.background == old(self).document.assistant_background
                &&& participant_views(a.participants@) == participant_views(old(self).document.participants@)
                &&& glossary_views(a.glossary@) == glossary_views(old(self).document.glossary@)
                &&& (old(self).cached(Secret::AssistantApiKey) matches Some(c) ==> a.api_key_stored == c.is_some())
                &&& (old(self).cached(Secret::AssistantApiKey).is_none() && (flag_of(old(self).document, Secret::AssistantApiKey)
                    || plaintext_of(old(self).document, Secret::AssistantApiKey).is_some()) ==> a.api_key_stored)
            },
            Self::secret_stored_post(*old(self), *final(self), Secret::AssistantApiKey, match loaded {
                Ok(a) => Ok::<bool, AppError>(a.api_key_stored),
                Err(e) => Err::<bool, AppError>(e),
            }),
    {
        let api_key_stored = match self.secret_stored(Secret::AssistantApiKey) {
            Ok(b) => b,
            Err(e) => return Err(e),
        };
        Ok(AssistantSettings {
            api_key_stored,
            model: copy_opt(&self.document.assistant_model),
            base_url: copy_opt(&self.document.assistant_base_url),
            reasoning_effort: copy_opt(&self.document.assistant_reasoning_effort),
            background: copy_opt(&self.document.assistant_background),
            participants: copy_participants(&self.document.participants),
            glossary: copy_glossary(&self.document.glossary),
        })
    }

    /// Save the assistant settings; the key has a save of its own.
    pub fn save_assistant(&mut self, assistant: AssistantSettings)
        ensures
            final(self).document == (LocalSettings {
                assistant_model: assistant.model,
                assistant_base_url: assistant.base_url,
                assistant_reasoning_effort: assistant.reasoning_effort,
                assistant_background: assistant.background,
                participants: assistant.participants,
                glossary: assistant.glossary,
                ..old(self).document
            }),
            final(self).secrets == old(self).secrets,
            final(self).hugging_face_cache == old(self).hugging_face_cache,
            final(self).assistant_cache == old(self).assistant_cache,
    {
        let AssistantSettings { model, base_url, reasoning_effort, background, participants, glossary, .. } = assistant;
        self.document.assistant_model = model;
        self.document.assistant_base_url = base_url;
        self.document.assistant_reasoning_effort = reasoning_effort;
        self.document.assistant_background = background;
        self.document.participants = participants;
        self.document.glossary = glossary;
    }

    pub fn hugging_face_token_stored(&mut self) -> (present: Result<bool, AppError>)
        ensures
            Self::secret_stored_post(*old(self), *final(self), Secret::HuggingFaceToken, present),
    {
        self.secret_stored(Secret::HuggingFaceToken)
    }

    pub fn load_hugging_face_token(&mut self) -> (token: Result<Option<String>, AppError>)
        ensures
            Self::secret_post(*old(self), *final(self), Secret::HuggingFaceToken, token),
    {
        self.secret(Secret::HuggingFaceToken)
    }

    pub fn save_hugging_face_token(&mut self, token: Option<String>) -> (saved: Result<(), AppError>)
        ensures
            Self::store_secret_post(*old(self), *final(self), Secret::HuggingFaceToken, crate::roster::opt_text(token), saved),
    {
        match token {
            Some(t) => self.store_secret(Secret::HuggingFaceToken, Some(t.as_str())),
            None => self.store_secret(Secret::HuggingFaceToken, None),
        }
    }

    pub fn load_assistant_api_key(&mut self) -> (key: Result<Option<String>, AppError>)
        ensures
            Self::secret_post(*old(self), *final(self), Secret::AssistantApiKey, key),
    {
        self.secret(Secret::AssistantApiKey)
    }

    pub fn save_assistant_api_key(&mut self, key: Option<String>) -> (saved: Result<(), AppError>)
        ensures
            Self::store_secret_post(*old(self), *final(self), Secret::AssistantApiKey, crate::roster::opt_text(key), saved),
    {
        match key {
            Some(k) => self.store_secret(Secret::AssistantApiKey, Some(k.as_str())),
            None => self.store_secret(Secret::AssistantApiKey, None),
        }
    }
}

/// A secret reads back as it was written, from the cache: the store is not
/// asked again.
pub proof fn law_written_secret_reads_back<S: SecretStore>(
    before: SettingsStore<S>,
    written: SettingsStore<S>,
    after: SettingsStore<S>,
    secret: Secret,
    value: Option<Seq<char>>,
    read: Result<Option<String>, AppError>,
)
    requires
        SettingsStore::store_secret_post(before, written, secret, value, Ok(())),
        SettingsStore::secret_post(written, after, secret, read),
    ensures
        read matches Ok(v) && crate::roster::opt_text(v) == value,
        after == written,
{
}

/// Saving the value a secret already holds touches neither the store nor
/// the document, so the user is not asked to authorize the store again.
pub proof fn law_unchanged_secret_is_not_written_again<S: SecretStore>(
    before: SettingsStore<S>,
    after: SettingsStore<S>,
    secret: Secret,
    value: Option<Seq<char>>,
    result: Result<(), AppError>,
)
    requires
        before.cached(secret) matches Some(c) && crate::roster::opt_text(c) == value,
        SettingsStore::store_secret_post(before, after, secret, value, result),
    ensures
        result is Ok,
        after == before,
{
}

/// Once a secret has been read, later reads in the same launch answer from
/// the cache with the same value and leave the store alone.
pub proof fn law_secret_is_read_once_per_launch<S: SecretStore>(
    before: SettingsStore<S>,
    first: SettingsStore<S>,
    second: SettingsStore<S>,
    secret: Secret,
    r1: Result<Option<String>, AppError>,
    r2: Result<Option<String>, AppError>,
)
    requires
        r1 is Ok,
        SettingsStore::secret_post(before, first, secret, r1),
        SettingsStore::secret_post(first, second, secret, r2),
    ensures
        second == first,
        r2 matches Ok(v2) && r1 matches Ok(v1) && crate::roster::opt_text(v2) == crate::roster::opt_text(v1),
{
}

/// With a real secret store, a newly saved secret never stays in the
/// settings document, and the document records that one is on file exactly
/// when a value was saved.
pub proof fn law_saved_secret_stays_out_of_the_document<S: SecretStore>(
    before: SettingsStore<S>,
    after: SettingsStore<S>,
    secret: Secret,
    value: Option<Seq<char>>,
)
    requires
        !before.secrets.plaintext_in_settings(),
        !(before.cached(secret) matches Some(c) && crate::roster::opt_text(c) == value),
        SettingsStore::store_secret_post(before, after, secret, value, Ok(())),
    ensures
        plaintext_of(after.document, secret).is_none(),
        flag_of(after.document, secret) == value.is_some(),
        after.secrets.stored(secret) == value,
{
}

/// A secret found only in an older settings file moves into the store on its
/// first read and leaves the document.
pub proof fn law_legacy_secret_moves_into_the_store<S: SecretStore>(
    before: SettingsStore<S>,
    after: SettingsStore<S>,
    secret: Secret,
    read: Result<Option<String>, AppError>,
)
    requires
        !before.secrets.plaintext_in_settings(),
        before.cached(secret).is_none(),
        before.secrets.stored(secret).is_none(),
        plaintext_of(before.document, secret).is_some(),
        before.secrets.infallible(),
        SettingsStore::secret_post(before, after, secret, read),
    ensures
        read matches Ok(v) && crate::roster::opt_text(v) == crate::roster::opt_text(plaintext_of(before.document, secret)),
        after.secrets.stored(secret) == crate::roster::opt_text(plaintext_of(before.document, secret)),
        plaintext_of(after.document, secret).is_none(),
        flag_of(after.document, secret),
{
}

/// Saving or clearing one secret leaves the other secret, the assistant
/// settings, the roster and the glossary as they were.
pub proof fn law_one_secret_leaves_the_rest<S: SecretStore>(
    before: SettingsStore<S>,
    after: SettingsStore<S>,
    value: Option<Seq<char>>,
    result: Result<(), AppError>,
)
    requires
        SettingsStore::store_secret_post(before, after, Secret::HuggingFaceToken, value, result),
    ensures
        after.cached(Secret::AssistantApiKey) == before.cached(Secret::AssistantApiKey),
        after.secrets.stored(Secret::AssistantApiKey) == before.secrets.stored(Secret::AssistantApiKey),
        after.document.assistant_api_key == before.document.assistant_api_key,
        after.document.assistant_api_key_stored == before.document.assistant_api_key_stored,
        after.document.assistant_model == before.document.assistant_model,
        after.document.assistant_base_url == before.document.assistant_base_url,
        after.document.assistant_reasoning_effort == before.document.assistant_reasoning_effort,
        after.document.assistant_background == before.document.assistant_background,
        after.document.participants == before.document.participants,
        after.document.glossary == before.document.glossary,
        after.document.engine_preset == before.document.engine_preset,
{
}

/// Over a store that never fails, saving a secret succeeds and the saved
/// value, or its absence when it was cleared, is what the next read returns,
/// without asking the store again.
pub proof fn law_saving_into_a_reliable_store<S: SecretStore>(
    before: SettingsStore<S>,
    written: SettingsStore<S>,
    after: SettingsStore<S>,
    secret: Secret,
    value: Option<Seq<char>>,
    result: Result<(), AppError>,
    read: Result<Option<String>, AppError>,
)
    requires
        before.secrets.infallible(),
        SettingsStore::store_secret_post(before, written, secret, value, result),
        SettingsStore::secret_post(written, after, secret, read),
    ensures
        result is Ok,
        read matches Ok(v) && crate::roster::opt_text(v) == value,
        after == written,
{
}

/// Over a store that never fails, a cleared secret is reported as not on
/// file.
pub proof fn law_cleared_secret_is_not_on_file<S: SecretStore>(
    before: SettingsStore<S>,
    cleared: SettingsStore<S>,
    after: SettingsStore<S>,
    secret: Secret,
    result: Result<(), AppError>,
    present: Result<bool, AppError>,
)
    requires
        before.secrets.infallible(),
        SettingsStore::store_secret_post(before, cleared, secret, None, result),
        SettingsStore::secret_stored_post(cleared, after, secret, present),
    ensures
        result is Ok,
        present == Ok::<bool, AppError>(false),
        after == cleared,
{
}

/// A secret found in a store that never fails is returned and recorded in
/// the document as on file, so a later launch over that document answers
/// that it is stored without asking the store.
pub proof fn law_found_secret_is_remembered<S: SecretStore>(
    before: SettingsStore<S>,
    after: SettingsStore<S>,
    next: SettingsStore<S>,
    later: SettingsStore<S>,
    secret: Secret,
    read: Result<Option<String>, AppError>,
    present: Result<bool, AppError>,
)
    requires
        !before.secrets.plaintext_in_settings(),
        before.secrets.infallible(),
        before.cached(secret).is_none(),
        before.secrets.stored(secret).is_some(),
        SettingsStore::secret_post(before, after, secret, read),
        next.document == after.document,
        next.cached(secret).is_none(),
        SettingsStore::secret_stored_post(next, later, secret, present),
    ensures
        read matches Ok(v) && crate::roster::opt_text(v) == before.secrets.stored(secret),
        flag_of(after.document, secret),
        present == Ok::<bool, AppError>(true),
        later == next,
{
}

} // verus!
