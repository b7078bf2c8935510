//! The user configuration and where it lives.
use vstd::prelude::*;

use crate::error::{gives, invalid_state, is_invalid_state, Result};
use crate::models::{
    opt_view, ActionScope, CommandMode, DeviceChoice, GenerationInsertMode, GenerationTargetScope,
    GenerationTriggerMode, HotkeyBinding, ShortcutDenylistProfile, TextOutputMode,
    TranscriptionConfig, TranscriptionProvider, WhisperLocalConfig,
};
use crate::text::{concat2, concat3, owned, str_views};

verus! {

/// Settings of the on-screen overlay.
#[derive(Clone, Debug, PartialEq, Eq)]
pub struct OverlayConfig {
    pub enabled: bool,
    pub show_partial_text: bool,
}

impl Default for OverlayConfig {
    fn default() -> (r: Self)
        ensures
            r.enabled && r.show_partial_text,
    {
        OverlayConfig { enabled: true, show_partial_text: true }
    }
}

/// Settings of the typing backend.
#[derive(Clone, Debug, PartialEq, Eq)]
pub struct TypingConfig {
    pub enabled: bool,
    pub emit_backspaces: bool,
}

impl Default for TypingConfig {
    fn default() -> (r: Self)
        ensures
            r.enabled && r.emit_backspaces,
    {
        TypingConfig { enabled: true, emit_backspaces: true }
    }
}

/// Settings of the command interpreter.
#[derive(Clone, Debug, PartialEq, Eq)]
pub struct IntelligenceConfig {
    pub enabled: bool,
    pub base_url: String,
    pub model: String,
    pub timeout_ms: u64,
    pub max_recent_chars: usize,
    pub command_mode: CommandMode,
    pub text_output_mode: TextOutputMode,
    pub action_scope: ActionScope,
    pub debug_overlay: bool,
    pub dynamic_shortcuts_enabled: bool,
    pub semantic_commands_enabled: bool,
    pub shortcut_denylist_profile: ShortcutDenylistProfile,
    pub shortcut_allowlist: Vec<String>,
    pub shortcut_denylist: Vec<String>,
    pub generation_enabled: bool,
    pub generation_timeout_ms: u64,
    pub generation_trigger_mode: GenerationTriggerMode,
    pub generation_insert_mode: GenerationInsertMode,
    pub generation_target_scope: GenerationTargetScope,
}

impl Default for IntelligenceConfig {
    fn default() -> (r: Self)
        ensures
            r.enabled,
            r.base_url@ == "https://api.openai.com/v1"@,
            r.model@ == "gpt-4o-mini"@,
            r.timeout_ms == 2500,
            r.max_recent_chars == 256,
            r.command_mode == CommandMode::AlwaysInfer,
            r.text_output_mode == TextOutputMode::Literal,
            r.action_scope == ActionScope::EditingOnly,
            r.debug_overlay,
            r.dynamic_shortcuts_enabled,
            r.semantic_commands_enabled,
            r.shortcut_denylist_profile == ShortcutDenylistProfile::Minimal,
            r.shortcut_allowlist@.len() == 0,
            r.shortcut_denylist@.len() == 0,
            r.generation_enabled,
            r.generation_timeout_ms == 120000,
            r.generation_trigger_mode == GenerationTriggerMode::ExplicitRequests,
            r.generation_insert_mode == GenerationInsertMode::ReplaceRequest,
            r.generation_target_scope == GenerationTargetScope::AnyTextField,
    {
        IntelligenceConfig {
            enabled: true,
            base_url: owned("https://api.openai.com/v1"),
            model: owned("gpt-4o-mini"),
            timeout_ms: 2_500,
            max_recent_chars: 256,
            command_mode: CommandMode::AlwaysInfer,
            text_output_mode: TextOutputMode::Literal,
            action_scope: ActionScope::EditingOnly,
            debug_overlay: true,
            dynamic_shortcuts_enabled: true,
            semantic_commands_enabled: true,
            shortcut_denylist_profile: ShortcutDenylistProfile::Minimal,
            shortcut_allowlist: Vec::new(),
            shortcut_denylist: Vec::new(),
            generation_enabled: true,
            generation_timeout_ms: 120_000,
            generation_trigger_mode: GenerationTriggerMode::ExplicitRequests,
            generation_insert_mode: GenerationInsertMode::ReplaceRequest,
            generation_target_scope: GenerationTargetScope::AnyTextField,
        }
    }
}

/// The whole user configuration.
#[derive(Clone, Debug, PartialEq, Eq)]
pub struct AppConfig {
    pub overlay: OverlayConfig,
    pub typing: TypingConfig,
    pub intelligence: IntelligenceConfig,
    pub transcription: TranscriptionConfig,
    pub autostart: bool,
    pub selected_device: Option<DeviceChoice>,
    pub hotkey: HotkeyBinding,
}

impl AppConfig {
    /// The default configuration on `platform`, whose Whisper model
    /// directory lies in that platform's data folder.
    pub fn default_for(platform: HostPlatform) -> (r: Self)
        ensures
            r.overlay.enabled && r.overlay.show_partial_text,
            r.typing.enabled && r.typing.emit_backspaces,
            r.intelligence.enabled,
            r.intelligence.base_url@ == "https://api.openai.com/v1"@,
            r.intelligence.model@ == "gpt-4o-mini"@,
            r.transcription.provider == TranscriptionProvider::Deepgram,
            r.transcription.whisper_local.model@ == "base.en"@,
            exists|d: Option<Seq<char>>, h: Option<Seq<char>>|
                r.transcription.whisper_local.model_dir@ == model_dir_in(data_base(d, h), platform),
            r.autostart,
            r.selected_device is None,
            r.hotkey.id@ == "toggle-dictation"@,
    {
        AppConfig {
            overlay: OverlayConfig::default(),
            typing: TypingConfig::default(),
            intelligence: IntelligenceConfig::default(),
            transcription: TranscriptionConfig {
                provider: TranscriptionProvider::Deepgram,
                whisper_local: WhisperLocalConfig {
                    model: owned("base.en"),
                    model_dir: default_model_dir(platform),
                },
            },
            autostart: true,
            selected_device: None,
            hotkey: HotkeyBinding::default(),
        }
    }
}

impl Default for AppConfig {
    /// The default configuration with the Linux data folder; `default_for`
    /// gives that of another platform.
    fn default() -> (r: Self)
        ensures
            r.overlay.enabled && r.overlay.show_partial_text,
            r.typing.enabled && r.typing.emit_backspaces,
            r.intelligence.enabled,
            r.intelligence.base_url@ == "https://api.openai.com/v1"@,
            r.intelligence.model@ == "gpt-4o-mini"@,
            r.transcription.provider == TranscriptionProvider::Deepgram,
            r.transcription.whisper_local.model@ == "base.en"@,
            exists|d: Option<Seq<char>>, h: Option<Seq<char>>|
                r.transcription.whisper_local.model_dir@ == model_dir_in(data_base(d, h), HostPlatform::Linux),
            r.autostart,
            r.selected_device is None,
            r.hotkey.id@ == "toggle-dictation"@,
    {
        AppConfig::default_for(HostPlatform::Linux)
    }
}

// ---------------------------------------------------------------------------
// Paths
// ---------------------------------------------------------------------------

/// `Path::join` of a relative segment onto `base`: a `'/'` goes between them
/// unless `base` is empty or already ends with one.
pub open spec fn join_path(base: Seq<char>, seg: Seq<char>) -> Seq<char> {
    if base.len() == 0 {
        seg
    } else if base.last() == '/' {
        base + seg
    } else {
        base + seq!['/'] + seg
    }
}

/// Joins the relative segment `seg` onto `base`.
pub fn path_join(base: &str, seg: &str) -> (r: String)
    ensures
        r@ == join_path(base@, seg@),
{
    let b = crate::text::chars_of(base);
    if b.len() == 0 {
        owned(seg)
    } else if b[b.len() - 1] == '/' {
        concat2(base, seg)
    } else {
        proof {
            reveal_strlit("/");
        }
        concat3(base, "/", seg)
    }
}

/// The text of an optional path.
pub open spec fn opt_path(p: Option<&str>) -> Option<Seq<char>> {
    match p {
        Some(e) => Some(e@),
        None => None,
    }
}

/// The first of `paths` whose flag in `flags` is set, if any.
pub open spec fn first_flagged(paths: Seq<Seq<char>>, flags: Seq<bool>) -> Option<Seq<char>>
    decreases paths.len(),
{
    if paths.len() == 0 || flags.len() == 0 {
        None
    } else if flags[0] {
        Some(paths[0])
    } else {
        first_flagged(paths.drop_first(), flags.drop_first())
    }
}

/// The first candidate whose flag says it is a file, if any.
pub fn first_file(candidates: &Vec<String>, is_file: &Vec<bool>) -> (r: Option<String>)
    requires
        candidates@.len() == is_file@.len(),
    ensures
        opt_view(r) == first_flagged(str_views(candidates@), is_file@),
{
    let ghost all = str_views(candidates@);
    let n = candidates.len();
    assert(all.subrange(0, n as int) =~= all);
    assert(is_file@.subrange(0, n as int) =~= is_file@);
    for i in 0..n
        invariant
            n == candidates@.len(),
            n == is_file@.len(),
            all == str_views(candidates@),
            first_flagged(all, is_file@) == first_flagged(all.subrange(i as int, n as int), is_file@.subrange(i as int, n as int)),
    {
        proof {
            assert(all.subrange(i as int, n as int).drop_first() =~= all.subrange(i + 1, n as int));
            assert(is_file@.subrange(i as int, n as int).drop_first() =~= is_file@.subrange(i + 1, n as int));
        }
        if is_file[i] {
            return Some(owned(candidates[i].as_str()));
        }
    }
    None
}

/// The user's configuration directory (`dirs::config_dir`), as text. It
/// depends on the environment and the platform: nothing is stated of it.
/// The path is turned into text with `to_string_lossy`: a name that is not
/// UTF-8 comes out with replacement characters.
#[verifier::external_body]
pub(crate) fn platform_config_dir() -> (r: Option<String>) {
    dirs::config_dir().map(|p| p.to_string_lossy().into_owned())
}

/// The user's data directory (`dirs::data_dir`), as text. It depends on the
/// environment and the platform: nothing is stated of it. The path is
/// turned into text with `to_string_lossy`: a name that is not UTF-8
/// comes out with replacement characters.
#[verifier::external_body]
pub(crate) fn platform_data_dir() -> (r: Option<String>) {
    dirs::data_dir().map(|p| p.to_string_lossy().into_owned())
}

/// The user's home directory (`dirs::home_dir`), as text. It depends on the
/// environment and the platform: nothing is stated of it. The path is
/// turned into text with `to_string_lossy`: a name that is not UTF-8
/// comes out with replacement characters.
#[verifier::external_body]
pub(crate) fn platform_home_dir() -> (r: Option<String>) {
    dirs::home_dir().map(|p| p.to_string_lossy().into_owned())
}

/// The message of the error returned when no configuration directory exists.
pub open spec fn no_config_dir_msg() -> Seq<char> {
    "could not determine XDG config directory"@
}

/// The Wispr configuration directory under a platform configuration
/// directory, or the error when there is none.
pub fn config_dir_under(base: Option<String>) -> (r: Result<String>)
    ensures
        match base {
            Some(b) => r matches Ok(p) && p@ == join_path(b@, "wispr"@),
            None => r matches Err(e) && is_invalid_state(e, no_config_dir_msg()),
        },
{
    match base {
        Some(b) => Ok(path_join(b.as_str(), "wispr")),
        None => Err(invalid_state("could not determine XDG config directory")),
    }
}

/// The Wispr configuration directory under the platform configuration
/// directory `base`, or the message of the error when there is none.
pub open spec fn wispr_dir(base: Option<Seq<char>>) -> std::result::Result<Seq<char>, Seq<char>> {
    match base {
        Some(b) => Ok(join_path(b, "wispr"@)),
        None => Err(no_config_dir_msg()),
    }
}

/// The file `name` in the Wispr configuration directory under `base`, or
/// the message of the error when there is no such directory.
pub open spec fn wispr_file(base: Option<Seq<char>>, name: Seq<char>) -> std::result::Result<Seq<char>, Seq<char>> {
    match wispr_dir(base) {
        Ok(d) => Ok(join_path(d, name)),
        Err(m) => Err(m),
    }
}

/// The path of `config.toml` under a platform configuration directory.
pub fn config_path_under(base: Option<String>) -> (r: Result<String>)
    ensures
        gives(r, wispr_file(opt_view(base), "config.toml"@)),
{
    match config_dir_under(base) {
        Ok(dir) => Ok(path_join(dir.as_str(), "config.toml")),
        Err(e) => Err(e),
    }
}

impl AppConfig {
    /// The Wispr configuration directory.
    pub fn config_dir() -> (r: Result<String>)
        ensures
            match r {
                Ok(p) => exists|b: Seq<char>| p@ == join_path(b, "wispr"@),
                Err(e) => is_invalid_state(e, no_config_dir_msg()),
            },
    {
        config_dir_under(platform_config_dir())
    }

    /// The path of `config.toml`, in the Wispr configuration directory.
    pub fn config_path() -> (r: Result<String>)
        ensures
            exists|base: Option<Seq<char>>| gives(r, #[trigger] wispr_file(base, "config.toml"@)),
    {
        let base = platform_config_dir();
        let ghost b = opt_view(base);
        let r = config_path_under(base);
        assert(gives(r, wispr_file(b, "config.toml"@)));
        r
    }
}

/// The base data directory: the platform data directory, else
/// `.local/share` under the home directory, else `.local/share`.
pub open spec fn data_base(data: Option<Seq<char>>, home: Option<Seq<char>>) -> Seq<char> {
    match data {
        Some(d) => d,
        None => match home {
            Some(h) => join_path(h, ".local/share"@),
            None => ".local/share"@,
        },
    }
}

/// The base data directory, from what the platform reported.
pub fn data_base_from(data: Option<String>, home: Option<String>) -> (r: String)
    ensures
        r@ == data_base(
            match data {
                Some(d) => Some(d@),
                None => None,
            },
            match home {
                Some(h) => Some(h@),
                None => None,
            },
        ),
{
    match data {
        Some(d) => d,
        None => match home {
            Some(h) => path_join(h.as_str(), ".local/share"),
            None => owned(".local/share"),
        },
    }
}

/// The base data directory of this machine.
pub fn data_base_dir() -> (r: String)
    ensures
        exists|d: Option<Seq<char>>, h: Option<Seq<char>>| r@ == data_base(d, h),
{
    let data = platform_data_dir();
    let home = match data {
        Some(_) => None,
        None => platform_home_dir(),
    };
    let ghost d = match &data {
        Some(x) => Some(x@),
        None => None::<Seq<char>>,
    };
    let ghost h = match &home {
        Some(x) => Some(x@),
        None => None::<Seq<char>>,
    };
    let r = data_base_from(data, home);
    assert(r@ == data_base(d, h));
    r
}

/// The desktop platform Wispr runs on, as far as where its data lives is
/// concerned.
#[derive(Clone, Copy, Debug, PartialEq, Eq, Structural)]
pub enum HostPlatform {
    Linux,
    MacOs,
}

/// The folder under the data directory that holds Wispr's data: `wispr` on
/// Linux, `Wispr` on macOS.
pub open spec fn data_folder(platform: HostPlatform) -> Seq<char> {
    match platform {
        HostPlatform::Linux => "wispr"@,
        HostPlatform::MacOs => "Wispr"@,
    }
}

/// The name of the folder that holds Wispr's data on `platform`.
pub fn data_folder_name(platform: HostPlatform) -> (r: &'static str)
    ensures
        r@ == data_folder(platform),
{
    match platform {
        HostPlatform::Linux => "wispr",
        HostPlatform::MacOs => "Wispr",
    }
}

/// The Whisper model directory under the base data directory `base`.
pub open spec fn model_dir_in(base: Seq<char>, platform: HostPlatform) -> Seq<char> {
    join_path(join_path(base, data_folder(platform)), "whisper"@)
}

/// The Whisper virtualenv under the base data directory `base`.
pub open spec fn venv_dir_in(base: Seq<char>, platform: HostPlatform) -> Seq<char> {
    join_path(join_path(base, data_folder(platform)), "whisper-venv"@)
}

/// Where downloaded Whisper models are kept: `whisper` in Wispr's data
/// folder under the base data directory.
pub fn default_model_dir(platform: HostPlatform) -> (r: String)
    ensures
        exists|d: Option<Seq<char>>, h: Option<Seq<char>>| r@ == model_dir_in(data_base(d, h), platform),
{
    let base = data_base_dir();
    let folder = path_join(base.as_str(), data_folder_name(platform));
    path_join(folder.as_str(), "whisper")
}

} // verus!
