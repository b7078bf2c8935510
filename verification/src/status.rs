//! The daemon's status: how it is built from what the daemon found out, and
//! how updates published during a session change it.
use vstd::prelude::*;
use crate::config::{AppConfig, IntelligenceConfig};
use crate::models::{
    copy_opt_device, copy_opt_string, device_view, opt_app_view, opt_device_view, opt_view,
    ActiveAppClass, ActiveAppContext, DaemonStatus, DecisionKind, DeviceChoice, DictationState,
    StatusView, TranscriptionProvider,
};
use crate::text::{concat3, is_blank_str, owned, trim};
use crate::whisper::{is_model_installed, model_path, runtime_ready, WhisperRuntimeStatus};

verus! {

// ---------------------------------------------------------------------------
// Updates
// ---------------------------------------------------------------------------

/// A change of some fields of the status: each field that is `Some` is set
/// to what it holds, the others are left as they are.
#[derive(Debug)]
pub struct StatusUpdate {
    pub state: Option<DictationState>,
    pub current_mic: Option<Option<DeviceChoice>>,
    pub partial_transcript: Option<Option<String>>,
    pub last_error: Option<Option<String>>,
    pub transcription_provider: Option<TranscriptionProvider>,
    pub transcription_ready: Option<bool>,
    pub transcription_state: Option<Option<String>>,
    pub selected_whisper_model: Option<Option<String>>,
    pub last_transcription_error: Option<Option<String>>,
    pub intelligence_ready: Option<bool>,
    pub llm_ready: Option<bool>,
    pub last_llm_error: Option<Option<String>>,
    pub last_decision_kind: Option<Option<DecisionKind>>,
    pub intelligence_state: Option<Option<String>>,
    pub active_app: Option<Option<ActiveAppContext>>,
    pub last_resolution: Option<Option<String>>,
    pub generation_active: Option<bool>,
    pub generation_ready: Option<bool>,
    pub last_generation_error: Option<Option<String>>,
    pub generation_state: Option<Option<String>>,
}

/// An update as plain values.
pub ghost struct UpdateView {
    pub state: Option<DictationState>,
    pub current_mic: Option<Option<(Seq<char>, Seq<char>, Seq<char>)>>,
    pub partial_transcript: Option<Option<Seq<char>>>,
    pub last_error: Option<Option<Seq<char>>>,
    pub transcription_provider: Option<TranscriptionProvider>,
    pub transcription_ready: Option<bool>,
    pub transcription_state: Option<Option<Seq<char>>>,
    pub selected_whisper_model: Option<Option<Seq<char>>>,
    pub last_transcription_error: Option<Option<Seq<char>>>,
    pub intelligence_ready: Option<bool>,
    pub llm_ready: Option<bool>,
    pub last_llm_error: Option<Option<Seq<char>>>,
    pub last_decision_kind: Option<Option<DecisionKind>>,
    pub intelligence_state: Option<Option<Seq<char>>>,
    pub active_app: Option<Option<(ActiveAppClass, Option<Seq<char>>)>>,
    pub last_resolution: Option<Option<Seq<char>>>,
    pub generation_active: Option<bool>,
    pub generation_ready: Option<bool>,
    pub last_generation_error: Option<Option<Seq<char>>>,
    pub generation_state: Option<Option<Seq<char>>>,
}

/// The view of an optional text field of an update.
pub open spec fn set_text(u: Option<Option<String>>) -> Option<Option<Seq<char>>> {
    match u {
        Some(v) => Some(opt_view(v)),
        None => None,
    }
}

impl View for StatusUpdate {
    type V = UpdateView;

    open spec fn view(&self) -> UpdateView {
        UpdateView {
            state: self.state,
            current_mic: match self.current_mic {
                Some(v) => Some(opt_device_view(v)),
                None => None,
            },
            partial_transcript: set_text(self.partial_transcript),
            last_error: set_text(self.last_error),
            transcription_provider: self.transcription_provider,
            transcription_ready: self.transcription_ready,
            transcription_state: set_text(self.transcription_state),
            selected_whisper_model: set_text(self.selected_whisper_model),
            last_transcription_error: set_text(self.last_transcription_error),
            intelligence_ready: self.intelligence_ready,
            llm_ready: self.llm_ready,
            last_llm_error: set_text(self.last_llm_error),
            last_decision_kind: self.last_decision_kind,
            intelligence_state: set_text(self.intelligence_state),
            active_app: match self.active_app {
                Some(v) => Some(opt_app_view(v)),
                None => None,
            },
            last_resolution: set_text(self.last_resolution),
            generation_active: self.generation_active,
            generation_ready: self.generation_ready,
            last_generation_error: set_text(self.last_generation_error),
            generation_state: set_text(self.generation_state),
        }
    }
}

/// The value a field takes: the update's when it sets one, else the old.
pub open spec fn pick<T>(u: Option<T>, old: T) -> T {
    match u {
        Some(v) => v,
        None => old,
    }
}

/// The status after an update at time `now_ms`.
pub open spec fn updated(s: StatusView, u: UpdateView, now_ms: i64) -> StatusView {
    StatusView {
        state: pick(u.state, s.state),
        mic_ready: s.mic_ready,
        typing_ready: s.typing_ready,
        hotkey_ready: s.hotkey_ready,
        transcription_provider: pick(u.transcription_provider, s.transcription_provider),
        transcription_ready: pick(u.transcription_ready, s.transcription_ready),
        transcription_state: pick(u.transcription_state, s.transcription_state),
        selected_whisper_model: pick(u.selected_whisper_model, s.selected_whisper_model),
        last_transcription_error: pick(u.last_transcription_error, s.last_transcription_error),
        intelligence_ready: pick(u.intelligence_ready, s.intelligence_ready),
        llm_ready: pick(u.llm_ready, s.llm_ready),
        current_mic: pick(u.current_mic, s.current_mic),
        partial_transcript: pick(u.partial_transcript, s.partial_transcript),
        last_error: pick(u.last_error, s.last_error),
        last_llm_error: pick(u.last_llm_error, s.last_llm_error),
        last_decision_kind: pick(u.last_decision_kind, s.last_decision_kind),
        intelligence_state: pick(u.intelligence_state, s.intelligence_state),
        active_app: pick(u.active_app, s.active_app),
        last_resolution: pick(u.last_resolution, s.last_resolution),
        generation_active: pick(u.generation_active, s.generation_active),
        generation_ready: pick(u.generation_ready, s.generation_ready),
        last_generation_error: pick(u.last_generation_error, s.last_generation_error),
        generation_state: pick(u.generation_state, s.generation_state),
        updated_at_ms: now_ms,
    }
}

/// The update that sets nothing.
pub open spec fn empty_update() -> UpdateView {
    UpdateView {
        state: None,
        current_mic: None,
        partial_transcript: None,
        last_error: None,
        transcription_provider: None,
        transcription_ready: None,
        transcription_state: None,
        selected_whisper_model: None,
        last_transcription_error: None,
        intelligence_ready: None,
        llm_ready: None,
        last_llm_error: None,
        last_decision_kind: None,
        intelligence_state: None,
        active_app: None,
        last_resolution: None,
        generation_active: None,
        generation_ready: None,
        last_generation_error: None,
        generation_state: None,
    }
}

/// The field set by `b`, else by `a`.
pub open spec fn later<T>(a: Option<T>, b: Option<T>) -> Option<T> {
    match b {
        Some(v) => Some(v),
        None => a,
    }
}

/// One update that does what `a` and then `b` do.
pub open spec fn combined(a: UpdateView, b: UpdateView) -> UpdateView {
    UpdateView {
        state: later(a.state, b.state),
        current_mic: later(a.current_mic, b.current_mic),
        partial_transcript: later(a.partial_transcript, b.partial_transcript),
        last_error: later(a.last_error, b.last_error),
        transcription_provider: later(a.transcription_provider, b.transcription_provider),
        transcription_ready: later(a.transcription_ready, b.transcription_ready),
        transcription_state: later(a.transcription_state, b.transcription_state),
        selected_whisper_model: later(a.selected_whisper_model, b.selected_whisper_model),
        last_transcription_error: later(a.last_transcription_error, b.last_transcription_error),
        intelligence_ready: later(a.intelligence_ready, b.intelligence_ready),
        llm_ready: later(a.llm_ready, b.llm_ready),
        last_llm_error: later(a.last_llm_error, b.last_llm_error),
        last_decision_kind: later(a.last_decision_kind, b.last_decision_kind),
        intelligence_state: later(a.intelligence_state, b.intelligence_state),
        active_app: later(a.active_app, b.active_app),
        last_resolution: later(a.last_resolution, b.last_resolution),
        generation_active: later(a.generation_active, b.generation_active),
        generation_ready: later(a.generation_ready, b.generation_ready),
        last_generation_error: later(a.last_generation_error, b.last_generation_error),
        generation_state: later(a.generation_state, b.generation_state),
    }
}

impl StatusUpdate {
    /// The update that sets nothing.
    pub fn none() -> (r: Self)
        ensures
            r@ == empty_update(),
    {
        StatusUpdate {
            state: None,
            current_mic: None,
            partial_transcript: None,
            last_error: None,
            transcription_provider: None,
            transcription_ready: None,
            transcription_state: None,
            selected_whisper_model: None,
            last_transcription_error: None,
            intelligence_ready: None,
            llm_ready: None,
            last_llm_error: None,
            last_decision_kind: None,
            intelligence_state: None,
            active_app: None,
            last_resolution: None,
            generation_active: None,
            generation_ready: None,
            last_generation_error: None,
            generation_state: None,
        }
    }
}

/// Sets `field` to what `u` holds, if anything.
fn set_if<T>(field: &mut T, u: Option<T>)
    ensures
        *final(field) == pick(u, *old(field)),
{
    if let Some(v) = u {
        *field = v;
    }
}

/// Publishes an update: every field it sets is changed, the others stay as
/// they are, and the status is stamped `now_ms`.
pub fn publish_status(status: &mut DaemonStatus, update: StatusUpdate, now_ms: i64)
    ensures
        final(status)@ == updated(old(status)@, update@, now_ms),
{
    set_if(&mut status.state, update.state);
    set_if(&mut status.current_mic, update.current_mic);
    set_if(&mut status.partial_transcript, update.partial_transcript);
    set_if(&mut status.last_error, update.last_error);
    set_if(&mut status.transcription_provider, update.transcription_provider);
    set_if(&mut status.transcription_ready, update.transcription_ready);
    set_if(&mut status.transcription_state, update.transcription_state);
    set_if(&mut status.selected_whisper_model, update.selected_whisper_model);
    set_if(&mut status.last_transcription_error, update.last_transcription_error);
    set_if(&mut status.intelligence_ready, update.intelligence_ready);
    set_if(&mut status.llm_ready, update.llm_ready);
    set_if(&mut status.last_llm_error, update.last_llm_error);
    set_if(&mut status.last_decision_kind, update.last_decision_kind);
    set_if(&mut status.intelligence_state, update.intelligence_state);
    set_if(&mut status.active_app, update.active_app);
    set_if(&mut status.last_resolution, update.last_resolution);
    set_if(&mut status.generation_active, update.generation_active);
    set_if(&mut status.generation_ready, update.generation_ready);
    set_if(&mut status.last_generation_error, update.last_generation_error);
    set_if(&mut status.generation_state, update.generation_state);
    status.updated_at_ms = now_ms;
}

/// An update that sets nothing changes only the time stamp.
pub proof fn law_empty_update_only_stamps(s: StatusView, now_ms: i64)
    ensures
        updated(s, empty_update(), now_ms) == (StatusView { updated_at_ms: now_ms, ..s }),
{
}

/// Publishing the same update twice is publishing it once.
pub proof fn law_update_idempotent(s: StatusView, u: UpdateView, t1: i64, t2: i64)
    ensures
        updated(updated(s, u, t1), u, t2) == updated(s, u, t2),
{
}

/// Publishing two updates one after the other is publishing their
/// combination, where the later one wins on the fields both set.
pub proof fn law_updates_compose(s: StatusView, a: UpdateView, b: UpdateView, t1: i64, t2: i64)
    ensures
        updated(updated(s, a, t1), b, t2) == updated(s, combined(a, b), t2),
{
}

// ---------------------------------------------------------------------------
// Labels
// ---------------------------------------------------------------------------

/// The interpreter's status line.
pub open spec fn intelligence_label(enabled: bool, llm_ready: bool) -> Seq<char> {
    if enabled {
        if llm_ready {
            "Interpreter ready"@
        } else {
            "Literal fallback"@
        }
    } else {
        "Intelligence disabled"@
    }
}

/// The interpreter's status line.
pub fn intelligence_state_label(config: &IntelligenceConfig, llm_ready: bool) -> (r: String)
    ensures
        r@ == intelligence_label(config.enabled, llm_ready),
{
    if config.enabled {
        if llm_ready {
            owned("Interpreter ready")
        } else {
            owned("Literal fallback")
        }
    } else {
        owned("Intelligence disabled")
    }
}

/// The generation status line.
pub open spec fn generation_label(generation_enabled: bool, generation_ready: bool) -> Seq<char> {
    if generation_enabled {
        if generation_ready {
            "Generation ready"@
        } else {
            "Generation unavailable"@
        }
    } else {
        "Generation disabled"@
    }
}

/// The generation status line.
pub fn generation_state_label(config: &IntelligenceConfig, generation_ready: bool) -> (r: String)
    ensures
        r@ == generation_label(config.generation_enabled, generation_ready),
{
    if config.generation_enabled {
        if generation_ready {
            owned("Generation ready")
        } else {
            owned("Generation unavailable")
        }
    } else {
        owned("Generation disabled")
    }
}

/// Generation can be used: it is not wanted, or the interpreter is ready.
pub open spec fn generation_ready_spec(config: IntelligenceConfig, llm_ready: bool) -> bool {
    !config.enabled || !config.generation_enabled || llm_ready
}

/// Whether the interpreter is configured enough to look for its API key:
/// it is enabled, and has a base URL and a model that are not blank.
pub fn llm_configured(config: &IntelligenceConfig) -> (r: bool)
    ensures
        r == (config.enabled && trim(config.base_url@).len() > 0 && trim(config.model@).len() > 0),
{
    config.enabled && !is_blank_str(config.base_url.as_str()) && !is_blank_str(config.model.as_str())
}

/// The warning shown when the interpreter is enabled but not usable.
pub fn llm_setup_error(config: &IntelligenceConfig, llm_ready: bool) -> (r: Option<String>)
    ensures
        (config.enabled && !llm_ready) ==> (r matches Some(m) && m@
            == "Intelligence is enabled but the LLM backend is not configured. Falling back to literal dictation."@),
        !(config.enabled && !llm_ready) ==> r is None,
{
    if config.enabled && !llm_ready {
        Some(owned("Intelligence is enabled but the LLM backend is not configured. Falling back to literal dictation."))
    } else {
        None
    }
}

/// The Whisper model shown in the status: the configured one when local
/// Whisper transcribes.
pub fn selected_whisper_model(config: &AppConfig) -> (r: Option<String>)
    ensures
        config.transcription.provider == TranscriptionProvider::WhisperLocal ==> opt_view(r)
            == Some(config.transcription.whisper_local.model@),
        config.transcription.provider == TranscriptionProvider::Deepgram ==> r is None,
{
    match config.transcription.provider {
        TranscriptionProvider::WhisperLocal => Some(owned(config.transcription.whisper_local.model.as_str())),
        TranscriptionProvider::Deepgram => None,
    }
}

/// The transcription status line while listening.
pub fn active_transcription_label(config: &AppConfig) -> (r: String)
    ensures
        r@ == match config.transcription.provider {
            TranscriptionProvider::Deepgram => "Listening (cloud)"@,
            TranscriptionProvider::WhisperLocal => "Listening (local)"@,
        },
{
    match config.transcription.provider {
        TranscriptionProvider::Deepgram => owned("Listening (cloud)"),
        TranscriptionProvider::WhisperLocal => owned("Listening (local)"),
    }
}

/// An API key is stored and not blank.
pub open spec fn key_present(key: Option<Seq<char>>) -> bool {
    key matches Some(k) && trim(k).len() > 0
}

/// Whether a stored key is present and not blank.
fn key_usable(key: &Option<String>) -> (r: bool)
    ensures
        r == key_present(opt_view(*key)),
{
    match key {
        Some(k) => !is_blank_str(k.as_str()),
        None => false,
    }
}

// ---------------------------------------------------------------------------
// Transcription readiness
// ---------------------------------------------------------------------------

/// Whether transcription can run, its status line, and its last error.
pub struct TranscriptionStatus {
    pub ready: bool,
    pub state: Option<String>,
    pub error: Option<String>,
}

/// The transcription readiness for the configured provider: for the cloud,
/// whether its API key is stored; for local Whisper, whether the runtime is
/// ready and the model's file is present.
pub open spec fn transcription_spec(
    provider: TranscriptionProvider,
    deepgram_key: Option<Seq<char>>,
    runtime_ready: bool,
    runtime_detail: Option<Seq<char>>,
    model_installed: bool,
    model: Seq<char>,
) -> (bool, Option<Seq<char>>, Option<Seq<char>>) {
    match provider {
        TranscriptionProvider::Deepgram => {
            let ready = key_present(deepgram_key);
            (ready, Some(if ready { "Deepgram ready"@ } else { "Deepgram not configured"@ }), None)
        },
        TranscriptionProvider::WhisperLocal => {
            let ready = runtime_ready && model_installed;
            let state = if ready {
                "Whisper ready ("@ + model + ")"@
            } else if !runtime_ready {
                "Whisper unavailable"@
            } else {
                "Whisper model not installed"@
            };
            let error = if !model_installed {
                Some("Whisper model "@ + model + " is not installed."@)
            } else {
                runtime_detail
            };
            (ready, Some(state), error)
        },
    }
}

/// The transcription readiness from what was found out: the stored cloud
/// key, the probed Whisper runtime, and whether the model's file is present.
pub fn transcription_status_from(
    config: &AppConfig,
    deepgram_key: &Option<String>,
    runtime: &WhisperRuntimeStatus,
    model_installed: bool,
) -> (r: TranscriptionStatus)
    ensures
        (r.ready, opt_view(r.state), opt_view(r.error)) == transcription_spec(
            config.transcription.provider,
            opt_view(*deepgram_key),
            runtime_ready(*runtime),
            opt_view(runtime.detail),
            model_installed,
            config.transcription.whisper_local.model@,
        ),
{
    match config.transcription.provider {
        TranscriptionProvider::Deepgram => {
            let ready = key_usable(deepgram_key);
            let state = if ready {
                owned("Deepgram ready")
            } else {
                owned("Deepgram not configured")
            };
            TranscriptionStatus { ready, state: Some(state), error: None }
        },
        TranscriptionProvider::WhisperLocal => {
            let model = config.transcription.whisper_local.model.as_str();
            let backend = runtime.backend_ready();
            let ready = backend && model_installed;
            let state = if ready {
                concat3("Whisper ready (", model, ")")
            } else if !backend {
                owned("Whisper unavailable")
            } else {
                owned("Whisper model not installed")
            };
            let error = if !model_installed {
                Some(concat3("Whisper model ", model, " is not installed."))
            } else {
                copy_opt_string(&runtime.detail)
            };
            TranscriptionStatus { ready, state: Some(state), error }
        },
    }
}

/// The transcription readiness; for local Whisper the model's file is
/// looked for on disk.
pub fn transcription_status(
    config: &AppConfig,
    deepgram_key: &Option<String>,
    runtime: &WhisperRuntimeStatus,
) -> (r: TranscriptionStatus)
    ensures
        exists|installed: bool|
            (installed ==> model_path(
                config.transcription.whisper_local.model_dir@,
                config.transcription.whisper_local.model@,
            ) is Some) && (r.ready, opt_view(r.state), opt_view(r.error)) == #[trigger] transcription_spec(
                config.transcription.provider,
                opt_view(*deepgram_key),
                runtime_ready(*runtime),
                opt_view(runtime.detail),
                installed,
                config.transcription.whisper_local.model@,
            ),
{
    let installed = match config.transcription.provider {
        TranscriptionProvider::WhisperLocal => is_model_installed(
            &config.transcription.whisper_local,
            config.transcription.whisper_local.model.as_str(),
        ),
        TranscriptionProvider::Deepgram => false,
    };
    transcription_status_from(config, deepgram_key, runtime, installed)
}

// ---------------------------------------------------------------------------
// Building and refreshing the status
// ---------------------------------------------------------------------------

/// What the daemon found out before building its status: whether a
/// microphone can be resolved, whether the typing device opens, whether the
/// hotkey is registered, the stored interpreter key, and the transcription
/// readiness.
pub struct StatusProbe {
    pub mic_ready: bool,
    pub typing_ready: bool,
    pub hotkey_ready: bool,
    pub llm_api_key: Option<String>,
    pub transcription: TranscriptionStatus,
}

/// The status built from the configuration and what was found out; the
/// interpreter is ready when it is enabled and its key is stored.
pub fn build_status(
    config: &AppConfig,
    state_override: Option<DictationState>,
    error: Option<String>,
    probe: StatusProbe,
    now_ms: i64,
) -> (r: DaemonStatus)
    ensures
        ({
            let llm_ready = config.intelligence.enabled && key_present(opt_view(probe.llm_api_key));
            let generation_ready = generation_ready_spec(config.intelligence, llm_ready);
            r@ == StatusView {
                state: match state_override {
                    Some(s) => s,
                    None => DictationState::Idle,
                },
                mic_ready: probe.mic_ready,
                typing_ready: probe.typing_ready,
                hotkey_ready: probe.hotkey_ready,
                transcription_provider: config.transcription.provider,
                transcription_ready: probe.transcription.ready,
                transcription_state: opt_view(probe.transcription.state),
                selected_whisper_model: match config.transcription.provider {
                    TranscriptionProvider::WhisperLocal => Some(config.transcription.whisper_local.model@),
                    TranscriptionProvider::Deepgram => None,
                },
                last_transcription_error: opt_view(probe.transcription.error),
                intelligence_ready: !config.intelligence.enabled || llm_ready,
                llm_ready,
                current_mic: opt_device_view(config.selected_device),
                partial_transcript: None,
                last_error: opt_view(error),
                last_llm_error: None,
                last_decision_kind: None,
                intelligence_state: Some(intelligence_label(config.intelligence.enabled, llm_ready)),
                active_app: None,
                last_resolution: None,
                generation_active: false,
                generation_ready,
                last_generation_error: None,
                generation_state: Some(generation_label(config.intelligence.generation_enabled, generation_ready)),
                updated_at_ms: now_ms,
            }
        }),
{
    let llm_ready = config.intelligence.enabled && key_usable(&probe.llm_api_key);
    let generation_ready = !config.intelligence.enabled || !config.intelligence.generation_enabled
        || llm_ready;
    DaemonStatus {
        state: match state_override {
            Some(s) => s,
            None => DictationState::Idle,
        },
        mic_ready: probe.mic_ready,
        typing_ready: probe.typing_ready,
        hotkey_ready: probe.hotkey_ready,
        transcription_provider: config.transcription.provider,
        transcription_ready: probe.transcription.ready,
        transcription_state: probe.transcription.state,
        selected_whisper_model: selected_whisper_model(config),
        last_transcription_error: probe.transcription.error,
        intelligence_ready: !config.intelligence.enabled || llm_ready,
        llm_ready,
        current_mic: copy_opt_device(&config.selected_device),
        partial_transcript: None,
        last_error: error,
        last_llm_error: None,
        last_decision_kind: None,
        intelligence_state: Some(intelligence_state_label(&config.intelligence, llm_ready)),
        active_app: None,
        last_resolution: None,
        generation_active: false,
        generation_ready,
        last_generation_error: None,
        generation_state: Some(generation_state_label(&config.intelligence, generation_ready)),
        updated_at_ms: now_ms,
    }
}

/// `a`, else `b`.
pub open spec fn or_else<T>(a: Option<T>, b: Option<T>) -> Option<T> {
    match a {
        Some(v) => Some(v),
        None => b,
    }
}

/// A freshly built status that keeps what the running session set: the
/// partial transcript, the interpreter's and generation's last results, the
/// focus context, and the interpreter and generation status lines unless
/// the session had none.
pub fn sync_status(built: DaemonStatus, existing: &DaemonStatus) -> (r: DaemonStatus)
    ensures
        r@ == (StatusView {
            partial_transcript: existing@.partial_transcript,
            last_llm_error: existing@.last_llm_error,
            last_decision_kind: existing@.last_decision_kind,
            intelligence_state: or_else(existing@.intelligence_state, built@.intelligence_state),
            active_app: existing@.active_app,
            last_resolution: existing@.last_resolution,
            generation_active: existing@.generation_active,
            last_generation_error: existing@.last_generation_error,
            generation_state: or_else(existing@.generation_state, built@.generation_state),
            ..built@
        }),
{
    let mut status = built;
    status.partial_transcript = copy_opt_string(&existing.partial_transcript);
    status.last_llm_error = copy_opt_string(&existing.last_llm_error);
    status.last_decision_kind = existing.last_decision_kind;
    if existing.intelligence_state.is_some() {
        status.intelligence_state = copy_opt_string(&existing.intelligence_state);
    }
    status.active_app = crate::models::copy_app_context(&existing.active_app);
    status.last_resolution = copy_opt_string(&existing.last_resolution);
    status.generation_active = existing.generation_active;
    status.last_generation_error = copy_opt_string(&existing.last_generation_error);
    if existing.generation_state.is_some() {
        status.generation_state = copy_opt_string(&existing.generation_state);
    }
    status
}

// ---------------------------------------------------------------------------
// Updates published by a session
// ---------------------------------------------------------------------------

/// The update published when a session starts listening on `selected`.
pub fn session_started_update(config: &AppConfig, selected: &DeviceChoice, llm_ready: bool) -> (r: StatusUpdate)
    ensures
        ({
            let generation_ready = generation_ready_spec(config.intelligence, llm_ready);
            r@ == UpdateView {
                state: Some(DictationState::Listening),
                current_mic: Some(Some(device_view(*selected))),
                partial_transcript: Some(match config.transcription.provider {
                    TranscriptionProvider::Deepgram => Some(Seq::<char>::empty()),
                    TranscriptionProvider::WhisperLocal => None,
                }),
                last_error: Some(None),
                transcription_provider: Some(config.transcription.provider),
                transcription_ready: Some(true),
                transcription_state: Some(Some(match config.transcription.provider {
                    TranscriptionProvider::Deepgram => "Listening (cloud)"@,
                    TranscriptionProvider::WhisperLocal => "Listening (local)"@,
                })),
                selected_whisper_model: Some(match config.transcription.provider {
                    TranscriptionProvider::WhisperLocal => Some(config.transcription.whisper_local.model@),
                    TranscriptionProvider::Deepgram => None,
                }),
                last_transcription_error: Some(None),
                intelligence_ready: Some(!config.intelligence.enabled || llm_ready),
                llm_ready: Some(llm_ready),
                last_llm_error: Some(if config.intelligence.enabled && !llm_ready {
                    Some("Intelligence is enabled but the LLM backend is not configured. Falling back to literal dictation."@)
                } else {
                    None
                }),
                last_decision_kind: Some(None),
                intelligence_state: Some(Some(intelligence_label(config.intelligence.enabled, llm_ready))),
                active_app: Some(None),
                last_resolution: Some(None),
                generation_active: Some(false),
                generation_ready: Some(generation_ready),
                last_generation_error: Some(None),
                generation_state: Some(Some(generation_label(config.intelligence.generation_enabled, generation_ready))),
            }
        }),
{
    let generation_ready = !config.intelligence.enabled || !config.intelligence.generation_enabled
        || llm_ready;
    let partial = match config.transcription.provider {
        TranscriptionProvider::Deepgram => Some(String::new()),
        TranscriptionProvider::WhisperLocal => None,
    };
    assert(partial matches Some(p) ==> p@ =~= Seq::<char>::empty());
    let mut u = StatusUpdate::none();
    u.state = Some(DictationState::Listening);
    u.current_mic = Some(Some(crate::models::copy_device(selected)));
    u.partial_transcript = Some(partial);
    u.transcription_provider = Some(config.transcription.provider);
    u.transcription_ready = Some(true);
    u.transcription_state = Some(Some(active_transcription_label(config)));
    u.selected_whisper_model = Some(selected_whisper_model(config));
    u.last_transcription_error = Some(None);
    u.intelligence_ready = Some(!config.intelligence.enabled || llm_ready);
    u.llm_ready = Some(llm_ready);
    u.last_error = Some(None);
    u.last_llm_error = Some(llm_setup_error(&config.intelligence, llm_ready));
    u.last_generation_error = Some(None);
    u.last_decision_kind = Some(None);
    u.intelligence_state = Some(Some(intelligence_state_label(&config.intelligence, llm_ready)));
    u.active_app = Some(None);
    u.last_resolution = Some(None);
    u.generation_active = Some(false);
    u.generation_ready = Some(generation_ready);
    u.generation_state = Some(Some(generation_state_label(&config.intelligence, generation_ready)));
    u
}

/// The update published when a session ends: idle, with the session's
/// transient lines cleared.
pub open spec fn ended_view() -> UpdateView {
    UpdateView {
        state: Some(DictationState::Idle),
        partial_transcript: Some(None),
        transcription_state: Some(None),
        intelligence_state: Some(None),
        active_app: Some(None),
        last_resolution: Some(None),
        generation_active: Some(false),
        ..empty_update()
    }
}

/// The update published when the session fails with `message`; a failure
/// of transcription is also recorded as its last error.
pub open spec fn failed_view(message: Seq<char>, from_transcription: bool) -> UpdateView {
    UpdateView {
        state: Some(DictationState::Error),
        last_error: Some(Some(message)),
        last_transcription_error: if from_transcription {
            Some(Some(message))
        } else {
            None
        },
        generation_active: Some(false),
        ..empty_update()
    }
}

/// The update published when a session ends: idle, with the session's
/// transient lines cleared.
pub fn session_ended_update() -> (r: StatusUpdate)
    ensures
        r@ == ended_view(),
{
    let mut u = StatusUpdate::none();
    u.state = Some(DictationState::Idle);
    u.partial_transcript = Some(None);
    u.transcription_state = Some(None);
    u.intelligence_state = Some(None);
    u.active_app = Some(None);
    u.last_resolution = Some(None);
    u.generation_active = Some(false);
    u
}

/// The update published when a session stops on request.
pub fn session_stopped_update() -> (r: StatusUpdate)
    ensures
        r@ == (UpdateView {
            state: Some(DictationState::Idle),
            partial_transcript: Some(None),
            intelligence_state: Some(None),
            active_app: Some(None),
            last_resolution: Some(None),
            generation_active: Some(false),
            generation_state: Some(Some("Generation stopped"@)),
            ..empty_update()
        }),
{
    let mut u = StatusUpdate::none();
    u.state = Some(DictationState::Idle);
    u.partial_transcript = Some(None);
    u.intelligence_state = Some(None);
    u.active_app = Some(None);
    u.last_resolution = Some(None);
    u.generation_active = Some(false);
    u.generation_state = Some(Some(owned("Generation stopped")));
    u
}

/// The update published when the session fails with `message`; a failure
/// of transcription is also recorded as its last error.
pub fn session_failed_update(message: &str, from_transcription: bool) -> (r: StatusUpdate)
    ensures
        r@ == failed_view(message@, from_transcription),
{
    let mut u = StatusUpdate::none();
    u.state = Some(DictationState::Error);
    u.last_error = Some(Some(owned(message)));
    if from_transcription {
        u.last_transcription_error = Some(Some(owned(message)));
    }
    u.generation_active = Some(false);
    u
}

/// Records that typing failed: the error is shown, and the status stamped.
pub fn record_typing_failure(status: &mut DaemonStatus, error: &str, now_ms: i64)
    ensures
        final(status)@ == (StatusView {
            last_error: Some("Text injection failed: "@ + error@),
            updated_at_ms: now_ms,
            ..old(status)@
        }),
{
    status.last_error = Some(crate::text::concat2("Text injection failed: ", error));
    status.updated_at_ms = now_ms;
}

/// Records what is now typed as the partial transcript, and stamps the
/// status.
pub fn record_typed_text(status: &mut DaemonStatus, latest: &str, now_ms: i64)
    ensures
        final(status)@ == (StatusView {
            partial_transcript: Some(latest@),
            updated_at_ms: now_ms,
            ..old(status)@
        }),
{
    status.partial_transcript = Some(owned(latest));
    status.updated_at_ms = now_ms;
}

} // verus!
