//! Texts for people: the status line of the settings window, the Whisper
//! runtime summary, and the parsing of what a user typed on the command line
//! or in the settings.
use vstd::prelude::*;
use crate::config::{data_base, join_path, venv_dir_in, HostPlatform, IntelligenceConfig};
use crate::error::{is_invalid_state, Result, WisprError};
use crate::models::{
    app_class_name, app_class_name_spec, opt_view, ActiveAppClass, ActiveAppContext, CommandMode,
    CorrectionScope, DaemonStatus, DictationState, FormattingTriggerPolicy, PreferredListStyle,
    SegmentDecisionRequest, ShortcutDenylistProfile, TextOutputMode, TranscriptionProvider,
    WhisperLocalConfig,
};
use crate::text::{
    chars_of, concat2, concat3, join, join_strings, lower, owned, split, split_chars, str_eq,
    str_views, string_of, to_lower_chars, trim, trim_chars, views,
};
use crate::whisper::{default_venv_dir, WhisperManagerStatus};

verus! {

// ---------------------------------------------------------------------------
// Names
// ---------------------------------------------------------------------------

/// How a dictation state is named.
pub open spec fn state_name(s: DictationState) -> Seq<char> {
    match s {
        DictationState::Idle => "Idle"@,
        DictationState::Listening => "Listening"@,
        DictationState::Error => "Error"@,
    }
}

/// How a dictation state is named.
pub fn dictation_state_name(s: DictationState) -> (r: &'static str)
    ensures
        r@ == state_name(s),
{
    match s {
        DictationState::Idle => "Idle",
        DictationState::Listening => "Listening",
        DictationState::Error => "Error",
    }
}

/// How a provider is named in the status line.
pub open spec fn provider_name(p: TranscriptionProvider) -> Seq<char> {
    match p {
        TranscriptionProvider::Deepgram => "Deepgram"@,
        TranscriptionProvider::WhisperLocal => "WhisperLocal"@,
    }
}

/// How a provider is named in the status line.
pub fn transcription_provider_name(p: TranscriptionProvider) -> (r: &'static str)
    ensures
        r@ == provider_name(p),
{
    match p {
        TranscriptionProvider::Deepgram => "Deepgram",
        TranscriptionProvider::WhisperLocal => "WhisperLocal",
    }
}

/// A truth value in words.
pub open spec fn bool_text(b: bool) -> Seq<char> {
    if b {
        "true"@
    } else {
        "false"@
    }
}

/// A truth value in words.
pub fn bool_word(b: bool) -> (r: &'static str)
    ensures
        r@ == bool_text(b),
{
    if b {
        "true"
    } else {
        "false"
    }
}

/// Whether a part of the runtime is there.
pub open spec fn yes_no_spec(value: bool) -> Seq<char> {
    if value {
        "ready"@
    } else {
        "missing"@
    }
}

/// Whether a part of the runtime is there.
pub fn yes_no(value: bool) -> (r: &'static str)
    ensures
        r@ == yes_no_spec(value),
{
    if value {
        "ready"
    } else {
        "missing"
    }
}

// ---------------------------------------------------------------------------
// The status line
// ---------------------------------------------------------------------------

/// `label` followed by the value, when there is one.
pub open spec fn opt_part(label: Seq<char>, v: Option<Seq<char>>) -> Seq<Seq<char>> {
    match v {
        Some(x) => seq![label + x],
        None => Seq::empty(),
    }
}

/// The parts of the status line.
pub open spec fn status_parts(s: DaemonStatus) -> Seq<Seq<char>> {
    seq![
        "State: "@ + state_name(s.state),
        "Provider: "@ + provider_name(s.transcription_provider),
        "Transcription ready: "@ + bool_text(s.transcription_ready),
        "Mic ready: "@ + bool_text(s.mic_ready),
        "Typing ready: "@ + bool_text(s.typing_ready),
        "Hotkey ready: "@ + bool_text(s.hotkey_ready),
        "Intelligence ready: "@ + bool_text(s.intelligence_ready),
        "LLM ready: "@ + bool_text(s.llm_ready),
        "Generation ready: "@ + bool_text(s.generation_ready),
    ] + opt_part("Transcription: "@, opt_view(s.transcription_state)) + opt_part(
        "Whisper model: "@,
        opt_view(s.selected_whisper_model),
    ) + opt_part("Transcription error: "@, opt_view(s.last_transcription_error)) + opt_part(
        "Mic: "@,
        match s.current_mic {
            Some(m) => Some(m.display_name@),
            None => None,
        },
    ) + opt_part("Intelligence: "@, opt_view(s.intelligence_state)) + opt_part(
        "LLM error: "@,
        opt_view(s.last_llm_error),
    ) + opt_part("Generation: "@, opt_view(s.generation_state)) + opt_part(
        "Generation error: "@,
        opt_view(s.last_generation_error),
    ) + opt_part("Error: "@, opt_view(s.last_error)) + opt_part(
        "App: "@,
        match s.active_app {
            Some(a) => Some(app_class_name_spec(a.app_class) + match a.app_id {
                Some(id) => " ("@ + id@ + ")"@,
                None => Seq::empty(),
            }),
            None => None,
        },
    ) + opt_part("Resolution: "@, opt_view(s.last_resolution))
}

/// Appends `label` and the value, when there is one.
fn push_opt(parts: &mut Vec<String>, label: &str, v: Option<String>)
    ensures
        str_views(final(parts)@) == str_views(old(parts)@) + opt_part(label@, opt_view(v)),
{
    let ghost before = str_views(parts@);
    match v {
        Some(x) => {
            parts.push(concat2(label, x.as_str()));
            assert(str_views(parts@) =~= before + seq![label@ + x@]);
        },
        None => {
            assert(str_views(parts@) =~= before + Seq::<Seq<char>>::empty());
        },
    }
}

/// Appends `label` and a truth value.
fn push_flag(parts: &mut Vec<String>, label: &str, b: bool)
    ensures
        str_views(final(parts)@) == str_views(old(parts)@).push(label@ + bool_text(b)),
{
    let ghost before = str_views(parts@);
    parts.push(concat2(label, bool_word(b)));
    assert(str_views(parts@) =~= before.push(label@ + bool_text(b)));
}

/// The status line of the settings window: the state and readiness, then
/// every status text that is set, separated by `" | "`.
pub fn format_status(status: &DaemonStatus) -> (r: String)
    ensures
        r@ == join(status_parts(*status), " | "@),
{
    let mut parts: Vec<String> = Vec::new();
    parts.push(concat2("State: ", dictation_state_name(status.state)));
    parts.push(concat2("Provider: ", transcription_provider_name(status.transcription_provider)));
    push_flag(&mut parts, "Transcription ready: ", status.transcription_ready);
    push_flag(&mut parts, "Mic ready: ", status.mic_ready);
    push_flag(&mut parts, "Typing ready: ", status.typing_ready);
    push_flag(&mut parts, "Hotkey ready: ", status.hotkey_ready);
    push_flag(&mut parts, "Intelligence ready: ", status.intelligence_ready);
    push_flag(&mut parts, "LLM ready: ", status.llm_ready);
    push_flag(&mut parts, "Generation ready: ", status.generation_ready);
    let ghost base = str_views(parts@);
    assert(base =~= seq![
        "State: "@ + state_name(status.state),
        "Provider: "@ + provider_name(status.transcription_provider),
        "Transcription ready: "@ + bool_text(status.transcription_ready),
        "Mic ready: "@ + bool_text(status.mic_ready),
        "Typing ready: "@ + bool_text(status.typing_ready),
        "Hotkey ready: "@ + bool_text(status.hotkey_ready),
        "Intelligence ready: "@ + bool_text(status.intelligence_ready),
        "LLM ready: "@ + bool_text(status.llm_ready),
        "Generation ready: "@ + bool_text(status.generation_ready),
    ]);
    push_opt(&mut parts, "Transcription: ", crate::models::copy_opt_string(&status.transcription_state));
    push_opt(&mut parts, "Whisper model: ", crate::models::copy_opt_string(&status.selected_whisper_model));
    push_opt(&mut parts, "Transcription error: ", crate::models::copy_opt_string(&status.last_transcription_error));
    let mic = match &status.current_mic {
        Some(m) => Some(owned(m.display_name.as_str())),
        None => None,
    };
    push_opt(&mut parts, "Mic: ", mic);
    push_opt(&mut parts, "Intelligence: ", crate::models::copy_opt_string(&status.intelligence_state));
    push_opt(&mut parts, "LLM error: ", crate::models::copy_opt_string(&status.last_llm_error));
    push_opt(&mut parts, "Generation: ", crate::models::copy_opt_string(&status.generation_state));
    push_opt(&mut parts, "Generation error: ", crate::models::copy_opt_string(&status.last_generation_error));
    push_opt(&mut parts, "Error: ", crate::models::copy_opt_string(&status.last_error));
    let app = match &status.active_app {
        Some(a) => {
            let class = app_class_name(&a.app_class);
            let suffix = match &a.app_id {
                Some(id) => concat3(" (", id.as_str(), ")"),
                None => String::new(),
            };
            Some(concat2(class, suffix.as_str()))
        },
        None => None,
    };
    push_opt(&mut parts, "App: ", app);
    push_opt(&mut parts, "Resolution: ", crate::models::copy_opt_string(&status.last_resolution));
    assert(str_views(parts@) =~= status_parts(*status));
    join_strings(&parts, " | ")
}

// ---------------------------------------------------------------------------
// Whisper runtime
// ---------------------------------------------------------------------------

/// The installed models, or a note that there are none.
pub fn format_installed_models(models: &Vec<String>) -> (r: String)
    ensures
        models@.len() == 0 ==> r@ == "No models installed in the Wispr Whisper directory"@,
        models@.len() > 0 ==> r@ == join(str_views(models@), ", "@),
{
    if models.len() == 0 {
        owned("No models installed in the Wispr Whisper directory")
    } else {
        join_strings(models, ", ")
    }
}

/// The parts of the runtime summary, for a virtualenv directory.
pub open spec fn runtime_parts(config: WhisperLocalConfig, status: WhisperManagerStatus, venv_dir: Seq<char>) -> Seq<Seq<char>> {
    seq![
        "venv python: "@ + yes_no_spec(status.runtime.python_ready),
        "Whisper: "@ + yes_no_spec(status.runtime.whisper_ready),
        "ffmpeg: "@ + yes_no_spec(status.runtime.ffmpeg_ready),
    ] + (match status.runtime.detail {
        Some(d) => seq![d@],
        None => Seq::empty(),
    }) + seq!["venv: "@ + venv_dir, "model dir: "@ + config.model_dir@]
}

/// The summary of the Whisper runtime in the settings window.
pub fn format_whisper_runtime_status(
    config: &WhisperLocalConfig,
    status: &WhisperManagerStatus,
    platform: HostPlatform,
) -> (r: String)
    ensures
        exists|d: Option<Seq<char>>, h: Option<Seq<char>>|
            r@ == join(
                #[trigger] runtime_parts(*config, *status, venv_dir_in(data_base(d, h), platform)),
                " | "@,
            ),
{
    let mut parts: Vec<String> = Vec::new();
    parts.push(concat2("venv python: ", yes_no(status.runtime.python_ready)));
    parts.push(concat2("Whisper: ", yes_no(status.runtime.whisper_ready)));
    parts.push(concat2("ffmpeg: ", yes_no(status.runtime.ffmpeg_ready)));
    if let Some(d) = &status.runtime.detail {
        parts.push(owned(d.as_str()));
    }
    let venv = default_venv_dir(platform);
    parts.push(concat2("venv: ", venv.as_str()));
    parts.push(concat2("model dir: ", config.model_dir.as_str()));
    assert(str_views(parts@) =~= runtime_parts(*config, *status, venv@));
    join_strings(&parts, " | ")
}

// ---------------------------------------------------------------------------
// What the user typed
// ---------------------------------------------------------------------------

/// The entries of a list typed with commas or line breaks between them,
/// trimmed, the empty ones left out.
pub open spec fn combo_entries(parts: Seq<Seq<char>>) -> Seq<Seq<char>>
    decreases parts.len(),
{
    if parts.len() == 0 {
        Seq::empty()
    } else {
        let rest = combo_entries(parts.drop_last());
        if trim(parts.last()).len() > 0 {
            rest.push(trim(parts.last()))
        } else {
            rest
        }
    }
}

/// Splits a list typed in the settings.
pub fn split_combo_text(value: &str) -> (r: Vec<String>)
    ensures
        str_views(r@) == combo_entries(split(value@, seq![',', '\n'])),
{
    let cs = chars_of(value);
    let seps = [',', '\n'];
    assert(seps@ =~= seq![',', '\n']);
    let pieces = split_chars(&cs, &seps);
    let ghost pv = views(pieces@);
    let mut out: Vec<String> = Vec::new();
    let n = pieces.len();
    for i in 0..n
        invariant
            n == pieces@.len(),
            pv == views(pieces@),
            str_views(out@) == combo_entries(pv.take(i as int)),
    {
        let t = trim_chars(pieces[i].as_slice());
        assert(pv.take(i + 1).drop_last() =~= pv.take(i as int));
        assert(pv[i as int] == pieces@[i as int]@);
        if t.len() > 0 {
            let ghost before = str_views(out@);
            out.push(string_of(&t));
            assert(str_views(out@) =~= before.push(t@));
        }
    }
    assert(pv.take(n as int) =~= pv);
    out
}

/// The provider chosen in the settings: local Whisper for
/// `"whisper_local"`, else the cloud.
pub fn provider_from_choice(value: Option<&str>) -> (r: TranscriptionProvider)
    ensures
        r == (if value matches Some(v) && v@ == "whisper_local"@ {
            TranscriptionProvider::WhisperLocal
        } else {
            TranscriptionProvider::Deepgram
        }),
{
    match value {
        Some(v) => {
            if str_eq(v, "whisper_local") {
                TranscriptionProvider::WhisperLocal
            } else {
                TranscriptionProvider::Deepgram
            }
        },
        None => TranscriptionProvider::Deepgram,
    }
}

/// The provider named on the command line, trimmed and lower-cased:
/// `deepgram` or `cloud`, `whisper_local`, `whisper` or `local`.
pub open spec fn provider_named(name: Seq<char>) -> Option<TranscriptionProvider> {
    if name == "deepgram"@ || name == "cloud"@ {
        Some(TranscriptionProvider::Deepgram)
    } else if name == "whisper_local"@ || name == "whisper"@ || name == "local"@ {
        Some(TranscriptionProvider::WhisperLocal)
    } else {
        None
    }
}

/// Reads the provider named on the command line.
pub fn parse_provider(text: &str) -> (r: Result<TranscriptionProvider>)
    ensures
        match provider_named(lower(trim(text@))) {
            Some(p) => r matches Ok(q) && q == p,
            None => r matches Err(e) && is_invalid_state(
                e,
                "unsupported provider: "@ + lower(trim(text@))
                    + ". Use deepgram/cloud or whisper_local/local."@,
            ),
        },
{
    let cs = chars_of(text);
    let t = trim_chars(&cs);
    let l = to_lower_chars(&t);
    let name = string_of(&l);
    let n = name.as_str();
    if str_eq(n, "deepgram") || str_eq(n, "cloud") {
        Ok(TranscriptionProvider::Deepgram)
    } else if str_eq(n, "whisper_local") || str_eq(n, "whisper") || str_eq(n, "local") {
        Ok(TranscriptionProvider::WhisperLocal)
    } else {
        Err(WisprError::InvalidState(concat3(
            "unsupported provider: ",
            n,
            ". Use deepgram/cloud or whisper_local/local.",
        )))
    }
}

/// The stable name of a provider, as the settings store it.
pub fn provider_id(provider: TranscriptionProvider) -> (r: &'static str)
    ensures
        r@ == match provider {
            TranscriptionProvider::Deepgram => "deepgram"@,
            TranscriptionProvider::WhisperLocal => "whisper_local"@,
        },
{
    match provider {
        TranscriptionProvider::Deepgram => "deepgram",
        TranscriptionProvider::WhisperLocal => "whisper_local",
    }
}

/// The application class named on the command line, trimmed and
/// lower-cased.
pub open spec fn app_class_named(name: Seq<char>) -> Option<ActiveAppClass> {
    if name == "browser"@ {
        Some(ActiveAppClass::Browser)
    } else if name == "editor"@ {
        Some(ActiveAppClass::Editor)
    } else if name == "terminal"@ {
        Some(ActiveAppClass::Terminal)
    } else if name == "generic"@ {
        Some(ActiveAppClass::Generic)
    } else {
        None
    }
}

/// The focus context given on the command line: none without a class; the
/// class and the optional id otherwise; an error for an unknown class.
pub fn build_active_app(app_class: Option<&str>, app_id: Option<&str>) -> (r: Result<Option<ActiveAppContext>>)
    ensures
        app_class is None ==> (r matches Ok(c) && c is None),
        app_class matches Some(name) ==> (match app_class_named(lower(trim(name@))) {
            Some(k) => r matches Ok(Some(c)) && c.app_class == k && opt_view(c.app_id) == match app_id {
                Some(id) => Some(id@),
                None => None,
            },
            None => r matches Err(e) && is_invalid_state(e, "unsupported app class: "@ + lower(trim(name@))),
        }),
{
    let name = match app_class {
        Some(n) => n,
        None => return Ok(None),
    };
    let cs = chars_of(name);
    let t = trim_chars(&cs);
    let l = to_lower_chars(&t);
    let lowered = string_of(&l);
    let n = lowered.as_str();
    let class = if str_eq(n, "browser") {
        ActiveAppClass::Browser
    } else if str_eq(n, "editor") {
        ActiveAppClass::Editor
    } else if str_eq(n, "terminal") {
        ActiveAppClass::Terminal
    } else if str_eq(n, "generic") {
        ActiveAppClass::Generic
    } else {
        return Err(WisprError::InvalidState(concat2("unsupported app class: ", n)));
    };
    let id = match app_id {
        Some(x) => Some(owned(x)),
        None => None,
    };
    Ok(Some(ActiveAppContext { app_class: class, app_id: id }))
}

/// The request that tests the interpreter from the command line with the
/// given words and focus context.
pub fn cli_test_request(config: &IntelligenceConfig, text: &str, active_app: Option<ActiveAppContext>) -> (r: SegmentDecisionRequest)
    ensures
        r.segment_id@ == "wisprctl-test"@,
        r.finalized_text@ == text@,
        r.literal_text@ == text@,
        r.recent_text@.len() == 0,
        r.active_block_raw@.len() == 0,
        r.active_block_rendered@.len() == 0,
        r.action_scope == config.action_scope,
        r.command_mode == CommandMode::AlwaysInfer,
        r.text_output_mode == TextOutputMode::Literal,
        r.preferred_list_style == PreferredListStyle::Numbered,
        r.formatting_trigger_policy == FormattingTriggerPolicy::ClearStructureOnly,
        r.correction_scope == CorrectionScope::CurrentBlockOnly,
        r.active_app == active_app,
{
    let r = SegmentDecisionRequest {
        segment_id: owned("wisprctl-test"),
        finalized_text: owned(text),
        literal_text: owned(text),
        recent_text: String::new(),
        active_block_raw: String::new(),
        active_block_rendered: String::new(),
        action_scope: config.action_scope,
        command_mode: CommandMode::AlwaysInfer,
        text_output_mode: TextOutputMode::Literal,
        preferred_list_style: PreferredListStyle::Numbered,
        formatting_trigger_policy: FormattingTriggerPolicy::ClearStructureOnly,
        correction_scope: CorrectionScope::CurrentBlockOnly,
        active_app,
    };
    assert(r.recent_text@ =~= Seq::<char>::empty());
    r
}

/// The models offered in the settings: the curated ones, and the selected
/// one after them when it is not among them.
pub fn model_choices(models: &Vec<String>, selected: &str) -> (r: Vec<String>)
    ensures
        str_views(models@).contains(selected@) ==> str_views(r@) == str_views(models@),
        !str_views(models@).contains(selected@) ==> str_views(r@) == str_views(models@).push(selected@),
{
    let mut r: Vec<String> = Vec::new();
    let n = models.len();
    for i in 0..n
        invariant
            n == models@.len(),
            str_views(r@) == str_views(models@).take(i as int),
    {
        let ghost before = str_views(r@);
        r.push(owned(models[i].as_str()));
        assert(str_views(r@) =~= before.push(models@[i as int]@));
        assert(str_views(models@).take(i + 1) =~= str_views(models@).take(i as int).push(models@[i as int]@));
    }
    assert(str_views(models@).take(n as int) =~= str_views(models@));
    if !crate::text::strings_contain(models, selected) {
        let ghost before = str_views(r@);
        r.push(owned(selected));
        assert(str_views(r@) =~= before.push(selected@));
    }
    r
}

/// The report of a successful interpreter test in the settings.
pub fn llm_test_report(decision: &crate::models::SegmentDecision) -> (r: String)
    ensures
        r@ == "LLM test succeeded. Decision: "@ + crate::models::decision_kind_label(decision.kind) + " | Text: "@
            + decision.text_to_emit@ + match decision.generation_prompt {
            Some(p) => " | Generation prompt: "@ + p@,
            None => Seq::<char>::empty(),
        },
{
    let head = concat3("LLM test succeeded. Decision: ", decision.kind.as_label(), " | Text: ");
    let body = concat2(head.as_str(), decision.text_to_emit.as_str());
    match &decision.generation_prompt {
        Some(p) => {
            let tail = concat2(" | Generation prompt: ", p.as_str());
            concat2(body.as_str(), tail.as_str())
        },
        None => body,
    }
}


/// The denylist profile chosen in the settings: there is only the minimal
/// one, whatever was chosen.
pub fn parse_denylist_profile(value: Option<&str>) -> (r: ShortcutDenylistProfile)
    ensures
        r == ShortcutDenylistProfile::Minimal,
{
    match value {
        Some(_) => ShortcutDenylistProfile::Minimal,
        None => ShortcutDenylistProfile::Minimal,
    }
}

} // verus!
