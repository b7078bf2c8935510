//! What saving the settings window does to the configuration: every field
//! of the form is copied over, the lists are split, the provider and the
//! denylist profile are read from their choices, and the chosen microphone
//! is looked up among the devices.
use vstd::prelude::*;
use crate::config::AppConfig;
use crate::error::WisprError;
use crate::models::{device_view, DeviceChoice, ShortcutDenylistProfile, TranscriptionProvider};
use crate::reports::{combo_entries, parse_denylist_profile, provider_from_choice, split_combo_text};
use crate::text::{concat2, is_blank, is_blank_str, split, str_eq, str_views, trim, trim_str};

verus! {

/// What the settings window holds when it is saved. The choices are the
/// ids of the selected entries, if any: the provider (`"deepgram"` or
/// `"whisper_local"`), the Whisper model, the denylist profile, and the
/// microphone's node name. The shortcut lists are typed with commas or
/// line breaks between entries.
pub struct SettingsForm {
    pub autostart: bool,
    pub overlay_enabled: bool,
    pub preferred_trigger: String,
    pub provider_choice: Option<String>,
    pub whisper_model_choice: Option<String>,
    pub intelligence_enabled: bool,
    pub base_url: String,
    pub model: String,
    pub timeout_ms: u64,
    pub generation_timeout_ms: u64,
    pub debug_overlay: bool,
    pub dynamic_shortcuts_enabled: bool,
    pub semantic_commands_enabled: bool,
    pub generation_enabled: bool,
    pub denylist_profile_choice: Option<String>,
    pub allowlist_text: String,
    pub denylist_text: String,
    pub microphone_choice: Option<String>,
}

/// `i` is the first device whose node name is `name`.
pub open spec fn first_with_node(devices: Seq<DeviceChoice>, name: Seq<char>, i: int) -> bool {
    0 <= i < devices.len() && devices[i].node_name@ == name && forall|j: int|
        0 <= j < i ==> devices[j].node_name@ != name
}

/// The first device whose node name is `name`.
fn find_device(devices: &Vec<DeviceChoice>, name: &str) -> (r: Option<usize>)
    ensures
        match r {
            Some(i) => first_with_node(devices@, name@, i as int),
            None => forall|j: int| 0 <= j < devices@.len() ==> devices@[j].node_name@ != name@,
        },
{
    let n = devices.len();
    for i in 0..n
        invariant
            n == devices@.len(),
            forall|j: int| 0 <= j < i ==> devices@[j].node_name@ != name@,
    {
        if str_eq(devices[i].node_name.as_str(), name) {
            return Some(i);
        }
    }
    None
}

/// Copies the saved form into the configuration. The provider and the
/// denylist profile come from their choices; the Whisper model changes only
/// when one is chosen; the microphone changes only when the chosen node
/// name is among `devices`, to the first device with it. Everything the
/// form does not hold stays as it was.
pub fn apply_settings(config: &mut AppConfig, form: SettingsForm, devices: &Vec<DeviceChoice>)
    ensures
        final(config).autostart == form.autostart,
        final(config).overlay.enabled == form.overlay_enabled,
        final(config).overlay.show_partial_text == old(config).overlay.show_partial_text,
        final(config).typing == old(config).typing,
        final(config).hotkey.preferred_trigger@ == form.preferred_trigger@,
        final(config).hotkey.id == old(config).hotkey.id,
        final(config).hotkey.description == old(config).hotkey.description,
        final(config).hotkey.trigger_description == old(config).hotkey.trigger_description,
        final(config).transcription.provider == (if form.provider_choice matches Some(v) && v@
            == "whisper_local"@ {
            TranscriptionProvider::WhisperLocal
        } else {
            TranscriptionProvider::Deepgram
        }),
        final(config).transcription.whisper_local.model@ == match form.whisper_model_choice {
            Some(m) => m@,
            None => old(config).transcription.whisper_local.model@,
        },
        final(config).transcription.whisper_local.model_dir == old(config).transcription.whisper_local.model_dir,
        final(config).intelligence.enabled == form.intelligence_enabled,
        final(config).intelligence.base_url@ == form.base_url@,
        final(config).intelligence.model@ == form.model@,
        final(config).intelligence.timeout_ms == form.timeout_ms,
        final(config).intelligence.generation_timeout_ms == form.generation_timeout_ms,
        final(config).intelligence.debug_overlay == form.debug_overlay,
        final(config).intelligence.dynamic_shortcuts_enabled == form.dynamic_shortcuts_enabled,
        final(config).intelligence.semantic_commands_enabled == form.semantic_commands_enabled,
        final(config).intelligence.generation_enabled == form.generation_enabled,
        final(config).intelligence.shortcut_denylist_profile == ShortcutDenylistProfile::Minimal,
        str_views(final(config).intelligence.shortcut_allowlist@) == combo_entries(
            split(form.allowlist_text@, seq![',', '\n']),
        ),
        str_views(final(config).intelligence.shortcut_denylist@) == combo_entries(
            split(form.denylist_text@, seq![',', '\n']),
        ),
        final(config).intelligence.max_recent_chars == old(config).intelligence.max_recent_chars,
        final(config).intelligence.command_mode == old(config).intelligence.command_mode,
        final(config).intelligence.text_output_mode == old(config).intelligence.text_output_mode,
        final(config).intelligence.action_scope == old(config).intelligence.action_scope,
        final(config).intelligence.generation_trigger_mode == old(config).intelligence.generation_trigger_mode,
        final(config).intelligence.generation_insert_mode == old(config).intelligence.generation_insert_mode,
        final(config).intelligence.generation_target_scope == old(config).intelligence.generation_target_scope,
        match form.microphone_choice {
            Some(name) => if exists|i: int| first_with_node(devices@, name@, i) {
                final(config).selected_device matches Some(d) && exists|i: int|
                    first_with_node(devices@, name@, i) && device_view(d) == device_view(devices@[i])
            } else {
                final(config).selected_device == old(config).selected_device
            },
            None => final(config).selected_device == old(config).selected_device,
        },
{
    let ghost old_config = *config;
    config.autostart = form.autostart;
    config.overlay.enabled = form.overlay_enabled;
    config.hotkey.preferred_trigger = form.preferred_trigger;
    let provider = match &form.provider_choice {
        Some(v) => provider_from_choice(Some(v.as_str())),
        None => provider_from_choice(None),
    };
    config.transcription.provider = provider;
    if let Some(m) = form.whisper_model_choice {
        config.transcription.whisper_local.model = m;
    }
    config.intelligence.enabled = form.intelligence_enabled;
    config.intelligence.base_url = form.base_url;
    config.intelligence.model = form.model;
    config.intelligence.timeout_ms = form.timeout_ms;
    config.intelligence.generation_timeout_ms = form.generation_timeout_ms;
    config.intelligence.debug_overlay = form.debug_overlay;
    config.intelligence.dynamic_shortcuts_enabled = form.dynamic_shortcuts_enabled;
    config.intelligence.semantic_commands_enabled = form.semantic_commands_enabled;
    config.intelligence.generation_enabled = form.generation_enabled;
    config.intelligence.shortcut_denylist_profile = match &form.denylist_profile_choice {
        Some(v) => parse_denylist_profile(Some(v.as_str())),
        None => parse_denylist_profile(None),
    };
    config.intelligence.shortcut_allowlist = split_combo_text(form.allowlist_text.as_str());
    config.intelligence.shortcut_denylist = split_combo_text(form.denylist_text.as_str());
    if let Some(name) = &form.microphone_choice {
        if let Some(i) = find_device(devices, name.as_str()) {
            config.selected_device = Some(crate::models::copy_device(&devices[i]));
            assert(first_with_node(devices@, name@, i as int));
        } else {
            assert(!exists|i: int| first_with_node(devices@, name@, i));
        }
    }
}

/// A key typed in the settings, to be saved: trimmed, unless it is blank,
/// in which case the stored key is left alone.
pub fn key_to_save(typed: &str) -> (r: Option<String>)
    ensures
        is_blank(typed@) ==> r is None,
        !is_blank(typed@) ==> (r matches Some(k) && k@ == trim(typed@)),
{
    if is_blank_str(typed) {
        None
    } else {
        Some(trim_str(typed))
    }
}

/// The error when restarting the daemon's service failed, with how
/// `systemctl` exited.
pub fn restart_failed(status: &str) -> (e: WisprError)
    ensures
        e matches WisprError::Message(m) && m@ == "systemctl exited with status "@ + status@,
{
    WisprError::Message(concat2("systemctl exited with status ", status))
}

} // verus!
