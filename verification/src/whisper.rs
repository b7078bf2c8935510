//! Local Whisper transcription: the curated model list, where models and the
//! Python runtime live, and what the runtime probes mean for the user.
use vstd::prelude::*;
use crate::config::{
    data_base, data_base_dir, data_folder_name, join_path, path_join, venv_dir_in, HostPlatform,
};
use crate::error::{is_invalid_state, Result, WisprError};
use crate::models::{opt_view, TranscriptionProvider, WhisperLocalConfig};
use crate::text::{
    chars_of, concat3, has_substr, lines, lines_of, lossy_text, owned, str_contains, str_eq,
    str_views, string_of, trim, trim_chars, trim_str, utf8_lossy,
};

verus! {

// ---------------------------------------------------------------------------
// Runtime status
// ---------------------------------------------------------------------------

/// What the probes found out about the local Whisper runtime.
#[derive(Debug, Clone)]
pub struct WhisperRuntimeStatus {
    pub python_ready: bool,
    pub whisper_ready: bool,
    pub ffmpeg_ready: bool,
    pub available_models: Vec<String>,
    pub detail: Option<String>,
}

/// A runtime status as plain values.
pub open spec fn runtime_view(s: WhisperRuntimeStatus) -> (bool, bool, bool, Seq<Seq<char>>, Option<Seq<char>>) {
    (s.python_ready, s.whisper_ready, s.ffmpeg_ready, str_views(s.available_models@), opt_view(s.detail))
}

impl Default for WhisperRuntimeStatus {
    fn default() -> (r: Self)
        ensures
            runtime_view(r) == (false, false, false, Seq::<Seq<char>>::empty(), None::<Seq<char>>),
    {
        let r = WhisperRuntimeStatus {
            python_ready: false,
            whisper_ready: false,
            ffmpeg_ready: false,
            available_models: Vec::new(),
            detail: None,
        };
        assert(str_views(r.available_models@) =~= Seq::<Seq<char>>::empty());
        r
    }
}

/// Python, Whisper and ffmpeg are all usable.
pub open spec fn runtime_ready(s: WhisperRuntimeStatus) -> bool {
    s.python_ready && s.whisper_ready && s.ffmpeg_ready
}

impl WhisperRuntimeStatus {
    /// Python, Whisper and ffmpeg are all usable.
    pub fn backend_ready(&self) -> (r: bool)
        ensures
            r == (self.python_ready && self.whisper_ready && self.ffmpeg_ready),
    {
        self.python_ready && self.whisper_ready && self.ffmpeg_ready
    }
}

/// The runtime status together with the models offered and installed.
#[derive(Debug, Clone)]
pub struct WhisperManagerStatus {
    pub runtime: WhisperRuntimeStatus,
    pub curated_models: Vec<String>,
    pub installed_models: Vec<String>,
}

impl Default for WhisperManagerStatus {
    fn default() -> (r: Self)
        ensures
            runtime_view(r.runtime) == (false, false, false, Seq::<Seq<char>>::empty(), None::<Seq<char>>),
            r.curated_models@.len() == 0,
            r.installed_models@.len() == 0,
    {
        WhisperManagerStatus {
            runtime: WhisperRuntimeStatus::default(),
            curated_models: Vec::new(),
            installed_models: Vec::new(),
        }
    }
}

// ---------------------------------------------------------------------------
// Models
// ---------------------------------------------------------------------------

/// The English models that are always offered, smallest first.
pub open spec fn core_models() -> Seq<Seq<char>> {
    seq!["tiny.en"@, "base.en"@, "small.en"@, "medium.en"@]
}

/// The models offered: the English models, then `turbo` and `large` when
/// the runtime reports them available.
pub open spec fn curated_spec(available: Seq<Seq<char>>) -> Seq<Seq<char>> {
    core_models() + (if available.contains("turbo"@) {
        seq!["turbo"@]
    } else {
        Seq::empty()
    }) + (if available.contains("large"@) {
        seq!["large"@]
    } else {
        Seq::empty()
    })
}

/// The models that the settings offer for this runtime.
pub fn curated_models(runtime: &WhisperRuntimeStatus) -> (r: Vec<String>)
    ensures
        str_views(r@) == curated_spec(str_views(runtime.available_models@)),
{
    let mut models: Vec<String> = Vec::new();
    models.push(owned("tiny.en"));
    models.push(owned("base.en"));
    models.push(owned("small.en"));
    models.push(owned("medium.en"));
    let ghost avail = str_views(runtime.available_models@);
    let ghost core = str_views(models@);
    assert(core =~= core_models());
    if crate::text::strings_contain(&runtime.available_models, "turbo") {
        models.push(owned("turbo"));
    }
    let ghost mid = str_views(models@);
    assert(mid =~= core_models() + (if avail.contains("turbo"@) {
        seq!["turbo"@]
    } else {
        Seq::empty()
    }));
    if crate::text::strings_contain(&runtime.available_models, "large") {
        models.push(owned("large"));
    }
    assert(str_views(models@) =~= curated_spec(avail));
    models
}

/// The curated list always begins with the four English models, in order.
pub proof fn law_curated_models_start_with_english(available: Seq<Seq<char>>)
    ensures
        curated_spec(available).len() >= 4,
        curated_spec(available).take(4) == core_models(),
{
    assert(curated_spec(available).take(4) =~= core_models());
}

/// The file name under which a model is stored, for the models Wispr knows.
pub open spec fn model_file(model: Seq<char>) -> Option<Seq<char>> {
    if model == "tiny.en"@ {
        Some("tiny.en.pt"@)
    } else if model == "base.en"@ {
        Some("base.en.pt"@)
    } else if model == "small.en"@ {
        Some("small.en.pt"@)
    } else if model == "medium.en"@ {
        Some("medium.en.pt"@)
    } else if model == "turbo"@ {
        Some("large-v3-turbo.pt"@)
    } else if model == "large"@ {
        Some("large-v3.pt"@)
    } else {
        None
    }
}

/// Each model is stored under its own name with `.pt` added, but `turbo`
/// and `large`, stored under their full names `large-v3-turbo.pt` and
/// `large-v3.pt`; every English model offered has a file. So no two models
/// share a file.
pub proof fn law_models_are_stored_under_their_names(m: Seq<char>, n: Seq<char>)
    ensures
        match model_file(m) {
            Some(f) => f == m + ".pt"@ || (m == "turbo"@ && f == "large-v3-turbo.pt"@) || (m == "large"@
                && f == "large-v3.pt"@),
            None => true,
        },
        forall|i: int| 0 <= i < core_models().len() ==> model_file(#[trigger] core_models()[i]) == Some(
            core_models()[i] + ".pt"@,
        ),
        model_file(m) is Some && model_file(m) == model_file(n) ==> m == n,
{
    reveal_strlit(".pt");
    reveal_strlit("tiny.en");
    reveal_strlit("tiny.en.pt");
    assert("tiny.en"@ + ".pt"@ =~= "tiny.en.pt"@);
    reveal_strlit("base.en");
    reveal_strlit("base.en.pt");
    assert("base.en"@ + ".pt"@ =~= "base.en.pt"@);
    reveal_strlit("small.en");
    reveal_strlit("small.en.pt");
    assert("small.en"@ + ".pt"@ =~= "small.en.pt"@);
    reveal_strlit("medium.en");
    reveal_strlit("medium.en.pt");
    assert("medium.en"@ + ".pt"@ =~= "medium.en.pt"@);
    reveal_strlit("turbo");
    reveal_strlit("large");
    reveal_strlit("large-v3-turbo.pt");
    reveal_strlit("large-v3.pt");
    assert("tiny.en.pt"@[0] != "base.en.pt"@[0]);
    assert("tiny.en.pt"@.len() != "small.en.pt"@.len());
    assert("tiny.en.pt"@.len() != "medium.en.pt"@.len());
    assert("tiny.en.pt"@.len() != "large-v3-turbo.pt"@.len());
    assert("tiny.en.pt"@.len() != "large-v3.pt"@.len());
    assert("base.en.pt"@.len() != "small.en.pt"@.len());
    assert("base.en.pt"@.len() != "medium.en.pt"@.len());
    assert("base.en.pt"@.len() != "large-v3-turbo.pt"@.len());
    assert("base.en.pt"@.len() != "large-v3.pt"@.len());
    assert("small.en.pt"@.len() != "medium.en.pt"@.len());
    assert("small.en.pt"@.len() != "large-v3-turbo.pt"@.len());
    assert("small.en.pt"@[0] != "large-v3.pt"@[0]);
    assert("medium.en.pt"@.len() != "large-v3-turbo.pt"@.len());
    assert("medium.en.pt"@.len() != "large-v3.pt"@.len());
    assert("large-v3-turbo.pt"@.len() != "large-v3.pt"@.len());
}

/// Where a model is stored under `model_dir`, or `None` for a model Wispr
/// does not know.
pub open spec fn model_path(model_dir: Seq<char>, model: Seq<char>) -> Option<Seq<char>> {
    match model_file(model) {
        Some(f) => Some(join_path(model_dir, f)),
        None => None,
    }
}

/// The path at which a downloaded model is expected.
pub fn expected_model_path(model_dir: &str, model: &str) -> (r: Option<String>)
    ensures
        opt_view(r) == model_path(model_dir@, model@),
{
    let file = if str_eq(model, "tiny.en") {
        "tiny.en.pt"
    } else if str_eq(model, "base.en") {
        "base.en.pt"
    } else if str_eq(model, "small.en") {
        "small.en.pt"
    } else if str_eq(model, "medium.en") {
        "medium.en.pt"
    } else if str_eq(model, "turbo") {
        "large-v3-turbo.pt"
    } else if str_eq(model, "large") {
        "large-v3.pt"
    } else {
        return None;
    };
    Some(path_join(model_dir, file))
}

/// Whether something exists at `path` (`std::path::Path::exists`). It
/// depends on what is on disk: nothing is stated of it.
#[verifier::external_body]
pub(crate) fn path_exists(path: &str) -> (r: bool) {
    std::path::Path::new(path).exists()
}

/// Whether the model's file is present in the configured model directory;
/// never for a model Wispr does not know.
pub fn is_model_installed(config: &WhisperLocalConfig, model: &str) -> (r: bool)
    ensures
        r ==> model_path(config.model_dir@, model@) is Some,
{
    match expected_model_path(config.model_dir.as_str(), model) {
        Some(path) => path_exists(path.as_str()),
        None => false,
    }
}

/// The elements of `s` whose flag in `keep` is set, in order.
pub open spec fn kept(s: Seq<Seq<char>>, keep: Seq<bool>) -> Seq<Seq<char>>
    decreases s.len(),
{
    if s.len() == 0 || keep.len() == 0 {
        Seq::empty()
    } else {
        let rest = kept(s.drop_last(), keep.drop_last());
        if keep.last() {
            rest.push(s.last())
        } else {
            rest
        }
    }
}

/// The models whose flag in `present` is set, in order.
pub fn installed_of(models: &Vec<String>, present: &Vec<bool>) -> (r: Vec<String>)
    requires
        models@.len() == present@.len(),
    ensures
        str_views(r@) == kept(str_views(models@), present@),
{
    let ghost all = str_views(models@);
    let mut out: Vec<String> = Vec::new();
    let n = models.len();
    for i in 0..n
        invariant
            n == models@.len(),
            n == present@.len(),
            all == str_views(models@),
            str_views(out@) == kept(all.take(i as int), present@.take(i as int)),
    {
        proof {
            assert(all.take(i + 1).drop_last() =~= all.take(i as int));
            assert(present@.take(i + 1).drop_last() =~= present@.take(i as int));
        }
        if present[i] {
            out.push(owned(models[i].as_str()));
            assert(str_views(out@) =~= kept(all.take(i as int), present@.take(i as int)).push(all[i as int]));
        }
    }
    assert(all.take(n as int) =~= all);
    assert(present@.take(n as int) =~= present@);
    out
}

/// Presence flags for `models`: each set only for a model Wispr knows.
pub open spec fn presence_of(dir: Seq<char>, models: Seq<Seq<char>>, present: Seq<bool>) -> bool {
    &&& present.len() == models.len()
    &&& forall|i: int| 0 <= i < present.len() && #[trigger] present[i] ==> model_path(dir, models[i]) is Some
}

/// The curated models whose files are present, in curated order: those
/// whose presence flag the disk gave is set.
pub fn list_installed_models(config: &WhisperLocalConfig, runtime: &WhisperRuntimeStatus) -> (r: Vec<String>)
    ensures
        exists|present: Seq<bool>|
            presence_of(config.model_dir@, curated_spec(str_views(runtime.available_models@)), present)
                && str_views(r@) == kept(curated_spec(str_views(runtime.available_models@)), present),
{
    let curated = curated_models(runtime);
    let mut present: Vec<bool> = Vec::new();
    let n = curated.len();
    for i in 0..n
        invariant
            n == curated@.len(),
            present@.len() == i,
            forall|j: int| 0 <= j < i && #[trigger] present@[j] ==> model_path(config.model_dir@, curated@[j]@) is Some,
    {
        let found = is_model_installed(config, curated[i].as_str());
        present.push(found);
    }
    let r = installed_of(&curated, &present);
    assert(presence_of(config.model_dir@, str_views(curated@), present@));
    r
}

/// The status of the runtime together with the curated and the installed
/// models, for a runtime probed just before.
pub fn collect_manager_status(config: &WhisperLocalConfig, runtime: WhisperRuntimeStatus) -> (r: WhisperManagerStatus)
    ensures
        runtime_view(r.runtime) == runtime_view(runtime),
        str_views(r.curated_models@) == curated_spec(str_views(runtime.available_models@)),
        exists|present: Seq<bool>|
            presence_of(config.model_dir@, str_views(r.curated_models@), present) && str_views(
                r.installed_models@,
            ) == kept(str_views(r.curated_models@), present),
{
    let curated = curated_models(&runtime);
    let installed = list_installed_models(config, &runtime);
    WhisperManagerStatus { runtime, curated_models: curated, installed_models: installed }
}

/// The label of a transcription provider in the user interface.
pub fn provider_label(provider: &TranscriptionProvider) -> (r: &'static str)
    ensures
        r@ == match provider {
            TranscriptionProvider::Deepgram => "Cloud (Deepgram)"@,
            TranscriptionProvider::WhisperLocal => "Local (Whisper)"@,
        },
{
    match provider {
        TranscriptionProvider::Deepgram => "Cloud (Deepgram)",
        TranscriptionProvider::WhisperLocal => "Local (Whisper)",
    }
}

// ---------------------------------------------------------------------------
// Runtime locations
// ---------------------------------------------------------------------------

/// The virtualenv that holds the Whisper runtime.
pub fn default_venv_dir(platform: HostPlatform) -> (r: String)
    ensures
        exists|d: Option<Seq<char>>, h: Option<Seq<char>>|
            r@ == venv_dir_in(data_base(d, h), platform),
{
    let base = data_base_dir();
    let folder = path_join(base.as_str(), data_folder_name(platform));
    path_join(folder.as_str(), "whisper-venv")
}

/// The Python interpreter of the virtualenv.
pub fn venv_python_path(platform: HostPlatform) -> (r: String)
    ensures
        exists|d: Option<Seq<char>>, h: Option<Seq<char>>|
            r@ == join_path(venv_dir_in(data_base(d, h), platform), "bin/python"@),
{
    let venv = default_venv_dir(platform);
    path_join(venv.as_str(), "bin/python")
}

/// The pip of the virtualenv.
pub fn venv_pip_path(platform: HostPlatform) -> (r: String)
    ensures
        exists|d: Option<Seq<char>>, h: Option<Seq<char>>|
            r@ == join_path(venv_dir_in(data_base(d, h), platform), "bin/pip"@),
{
    let venv = default_venv_dir(platform);
    path_join(venv.as_str(), "bin/pip")
}

/// Where the PyPA virtualenv bootstrap is kept when `python3 -m venv` is not
/// available.
pub fn virtualenv_bootstrap_path() -> (r: String)
    ensures
        exists|d: Option<Seq<char>>, h: Option<Seq<char>>|
            r@ == join_path(join_path(data_base(d, h), "wispr/bootstrap"@), "virtualenv.pyz"@),
{
    let base = data_base_dir();
    let dir = path_join(base.as_str(), "wispr/bootstrap");
    path_join(dir.as_str(), "virtualenv.pyz")
}

// ---------------------------------------------------------------------------
// Probe results
// ---------------------------------------------------------------------------

/// The text of a failed command's standard error, trimmed; a fixed message
/// when it is blank.
pub open spec fn stderr_spec(stderr: Seq<u8>) -> Seq<char> {
    if trim(utf8_lossy(stderr)).len() == 0 {
        "command failed without stderr output"@
    } else {
        trim(utf8_lossy(stderr))
    }
}

/// What a failed command wrote to its standard error, for an error message.
pub fn stderr_text(stderr: &[u8]) -> (r: String)
    ensures
        r@ == stderr_spec(stderr@),
{
    let raw = lossy_text(stderr);
    let text = trim_str(raw.as_str());
    if text.as_str().unicode_len() == 0 {
        owned("command failed without stderr output")
    } else {
        text
    }
}

/// The user-facing explanation of a failed runtime probe: known failures get
/// a fixed sentence, anything else its first line, trimmed.
pub open spec fn friendly_spec(message: Seq<char>) -> Seq<char> {
    if has_substr(message, "No module named 'whisper'"@) {
        "openai-whisper is not installed in the Wispr Whisper virtualenv"@
    } else if has_substr(message, "Wispr Whisper probe failed"@) {
        "Whisper could not be imported from the Wispr Whisper virtualenv"@
    } else if has_substr(message, "failed to execute Wispr Whisper virtualenv python"@) {
        "The Wispr Whisper virtualenv python could not be executed"@
    } else if lines(message).len() > 0 {
        trim(lines(message)[0])
    } else {
        trim(message)
    }
}

/// Explains a failed runtime probe to the user.
pub fn friendly_runtime_error(message: &str) -> (r: String)
    ensures
        r@ == friendly_spec(message@),
{
    if str_contains(message, "No module named 'whisper'") {
        return owned("openai-whisper is not installed in the Wispr Whisper virtualenv");
    }
    if str_contains(message, "Wispr Whisper probe failed") {
        return owned("Whisper could not be imported from the Wispr Whisper virtualenv");
    }
    if str_contains(message, "failed to execute Wispr Whisper virtualenv python") {
        return owned("The Wispr Whisper virtualenv python could not be executed");
    }
    let cs = chars_of(message);
    let ls = lines_of(&cs);
    if ls.len() > 0 {
        let first = trim_chars(ls[0].as_slice());
        string_of(&first)
    } else {
        trim_str(message)
    }
}

/// What the probes of the local runtime returned: whether the virtualenv's
/// Python exists, whether `ffmpeg -version` succeeded, the outcome of listing
/// Whisper's models from that Python (asked only when it exists; `Err` holds
/// the failure's message), and whether `whisper --help` succeeded (asked only
/// when the listing failed).
#[derive(Debug)]
pub struct RuntimeProbe {
    pub python_ready: bool,
    pub ffmpeg_ready: bool,
    pub models: std::result::Result<Vec<String>, String>,
    pub whisper_cli_ready: bool,
}

/// The message shown when the virtualenv is missing.
pub open spec fn venv_missing_msg(venv_dir: Seq<char>) -> Seq<char> {
    "Wispr Whisper virtualenv is missing. Create it with `python3 -m venv "@ + venv_dir
        + "` and install openai-whisper inside it."@
}

/// The runtime status that a set of probe results describes.
pub open spec fn runtime_spec(
    python_ready: bool,
    ffmpeg_ready: bool,
    models: std::result::Result<Seq<Seq<char>>, Seq<char>>,
    whisper_cli_ready: bool,
    venv_dir: Seq<char>,
) -> (bool, bool, bool, Seq<Seq<char>>, Option<Seq<char>>) {
    if !python_ready {
        (false, false, ffmpeg_ready, Seq::empty(), Some(venv_missing_msg(venv_dir)))
    } else {
        match models {
            Ok(ms) => (true, true, ffmpeg_ready, ms, None),
            Err(e) => (true, whisper_cli_ready, ffmpeg_ready, Seq::empty(), Some(friendly_spec(e))),
        }
    }
}

/// The probe's model listing as plain values.
pub open spec fn probe_models(p: RuntimeProbe) -> std::result::Result<Seq<Seq<char>>, Seq<char>> {
    match p.models {
        Ok(ms) => Ok(str_views(ms@)),
        Err(e) => Err(e@),
    }
}

/// A copy of a list of strings.
fn copy_strings(v: &Vec<String>) -> (r: Vec<String>)
    ensures
        str_views(r@) == str_views(v@),
{
    let mut out: Vec<String> = Vec::new();
    let n = v.len();
    for i in 0..n
        invariant
            n == v@.len(),
            str_views(out@) == str_views(v@).take(i as int),
    {
        let c = owned(v[i].as_str());
        let ghost old_out = str_views(out@);
        out.push(c);
        assert(str_views(out@) =~= old_out.push(v@[i as int]@));
        assert(str_views(v@).take(i + 1) =~= str_views(v@).take(i as int).push(v@[i as int]@));
    }
    assert(str_views(v@).take(n as int) =~= str_views(v@));
    out
}

/// The runtime status for the probe results, with `venv_dir` named in the
/// message about a missing virtualenv.
pub fn runtime_status_from(probe: &RuntimeProbe, venv_dir: &str) -> (r: WhisperRuntimeStatus)
    ensures
        runtime_view(r) == runtime_spec(
            probe.python_ready,
            probe.ffmpeg_ready,
            probe_models(*probe),
            probe.whisper_cli_ready,
            venv_dir@,
        ),
{
    if !probe.python_ready {
        let msg = concat3(
            "Wispr Whisper virtualenv is missing. Create it with `python3 -m venv ",
            venv_dir,
            "` and install openai-whisper inside it.",
        );
        let r = WhisperRuntimeStatus {
            python_ready: false,
            whisper_ready: false,
            ffmpeg_ready: probe.ffmpeg_ready,
            available_models: Vec::new(),
            detail: Some(msg),
        };
        assert(str_views(r.available_models@) =~= Seq::<Seq<char>>::empty());
        return r;
    }
    match &probe.models {
        Ok(ms) => WhisperRuntimeStatus {
            python_ready: true,
            whisper_ready: true,
            ffmpeg_ready: probe.ffmpeg_ready,
            available_models: copy_strings(ms),
            detail: None,
        },
        Err(e) => {
            let r = WhisperRuntimeStatus {
                python_ready: true,
                whisper_ready: probe.whisper_cli_ready,
                ffmpeg_ready: probe.ffmpeg_ready,
                available_models: Vec::new(),
                detail: Some(friendly_runtime_error(e.as_str())),
            };
            assert(str_views(r.available_models@) =~= Seq::<Seq<char>>::empty());
            r
        },
    }
}

/// The runtime status for the probe results, naming this machine's
/// virtualenv directory.
pub fn collect_runtime_status(probe: &RuntimeProbe, platform: HostPlatform) -> (r: WhisperRuntimeStatus)
    ensures
        exists|d: Option<Seq<char>>, h: Option<Seq<char>>|
            runtime_view(r) == runtime_spec(
                probe.python_ready,
                probe.ffmpeg_ready,
                probe_models(*probe),
                probe.whisper_cli_ready,
                venv_dir_in(data_base(d, h), platform),
            ),
{
    let venv = default_venv_dir(platform);
    runtime_status_from(probe, venv.as_str())
}

// ---------------------------------------------------------------------------
// Readiness
// ---------------------------------------------------------------------------

/// The message when the virtualenv is not installed.
pub open spec fn venv_not_installed_msg(venv_dir: Seq<char>) -> Seq<char> {
    "Wispr Whisper virtualenv is not installed. Create "@ + venv_dir
        + " and install openai-whisper into it."@
}

/// The message when ffmpeg is missing.
pub open spec fn ffmpeg_missing_msg() -> Seq<char> {
    "ffmpeg is not available. Install ffmpeg to use local Whisper transcription."@
}

/// The message when Whisper is missing from the virtualenv.
pub open spec fn whisper_missing_msg() -> Seq<char> {
    "Whisper is not installed in the Wispr Whisper virtualenv. Install openai-whisper to use local transcription."@
}

/// The message when the configured model is not downloaded.
pub open spec fn model_missing_msg(model: Seq<char>, model_dir: Seq<char>) -> Seq<char> {
    "Whisper model "@ + model + " is not installed in "@ + model_dir + "."@
}

/// The first problem that keeps local transcription from starting, in the
/// order they are checked, or `None`.
pub open spec fn backend_problem(
    python_ready: bool,
    ffmpeg_ready: bool,
    whisper_ready: bool,
    model_present: bool,
    model: Seq<char>,
    model_dir: Seq<char>,
    venv_dir: Seq<char>,
) -> Option<Seq<char>> {
    if !python_ready {
        Some(venv_not_installed_msg(venv_dir))
    } else if !ffmpeg_ready {
        Some(ffmpeg_missing_msg())
    } else if !whisper_ready {
        Some(whisper_missing_msg())
    } else if !model_present {
        Some(model_missing_msg(model, model_dir))
    } else {
        None
    }
}

/// `r` reports exactly the problem `p`: an invalid-state error with its
/// message, or success when there is none.
pub open spec fn reports(r: Result<()>, p: Option<Seq<char>>) -> bool {
    match p {
        Some(m) => r matches Err(e) && is_invalid_state(e, m),
        None => r is Ok,
    }
}

/// Checks a probed runtime, whether the configured model is present and the
/// virtualenv directory, and reports the first problem.
pub fn check_backend(
    status: &WhisperRuntimeStatus,
    config: &WhisperLocalConfig,
    model_present: bool,
    venv_dir: &str,
) -> (r: Result<()>)
    ensures
        reports(
            r,
            backend_problem(
                status.python_ready,
                status.ffmpeg_ready,
                status.whisper_ready,
                model_present,
                config.model@,
                config.model_dir@,
                venv_dir@,
            ),
        ),
{
    if !status.python_ready {
        return Err(WisprError::InvalidState(concat3(
            "Wispr Whisper virtualenv is not installed. Create ",
            venv_dir,
            " and install openai-whisper into it.",
        )));
    }
    if !status.ffmpeg_ready {
        return Err(WisprError::InvalidState(
            owned("ffmpeg is not available. Install ffmpeg to use local Whisper transcription."),
        ));
    }
    if !status.whisper_ready {
        return Err(WisprError::InvalidState(
            owned(
                "Whisper is not installed in the Wispr Whisper virtualenv. Install openai-whisper to use local transcription.",
            ),
        ));
    }
    if !model_present {
        let head = concat3("Whisper model ", config.model.as_str(), " is not installed in ");
        return Err(WisprError::InvalidState(concat3(head.as_str(), config.model_dir.as_str(), ".")));
    }
    Ok(())
}

/// Whether local transcription can start with this configuration, for a
/// runtime probed just before; the model's file is looked for on disk only
/// when the runtime itself is ready.
pub fn ensure_backend_ready(config: &WhisperLocalConfig, status: &WhisperRuntimeStatus, platform: HostPlatform) -> (r: Result<()>)
    ensures
        exists|present: bool, d: Option<Seq<char>>, h: Option<Seq<char>>|
            (present ==> model_path(config.model_dir@, config.model@) is Some) && reports(
                r,
                backend_problem(
                    status.python_ready,
                    status.ffmpeg_ready,
                    status.whisper_ready,
                    present,
                    config.model@,
                    config.model_dir@,
                    venv_dir_in(data_base(d, h), platform),
                ),
            ),
{
    let venv = default_venv_dir(platform);
    let present = if status.backend_ready() {
        is_model_installed(config, config.model.as_str())
    } else {
        false
    };
    check_backend(status, config, present, venv.as_str())
}

// ---------------------------------------------------------------------------
// Model scripts
// ---------------------------------------------------------------------------

/// The outcome of a Python script run in the virtualenv: success, or an
/// invalid-state error with the script's standard error.
pub fn script_outcome(success: bool, stderr: &[u8]) -> (r: Result<()>)
    ensures
        success ==> r is Ok,
        !success ==> (r matches Err(e) && is_invalid_state(e, stderr_spec(stderr@))),
{
    if success {
        Ok(())
    } else {
        Err(WisprError::InvalidState(stderr_text(stderr)))
    }
}

/// The report of a model download, given the outcome of the download
/// script: the script's error, or a message naming the model and directory.
pub fn download_model(config: &WhisperLocalConfig, model: &str, script: Result<()>) -> (r: Result<String>)
    ensures
        match script {
            Ok(_) => r matches Ok(m) && m@ == "Downloaded Whisper model "@ + model@ + " into "@
                + config.model_dir@ + "."@,
            Err(e) => r matches Err(e2) && e2 == e,
        },
{
    match script {
        Ok(_) => {
            let head = concat3("Downloaded Whisper model ", model, " into ");
            Ok(concat3(head.as_str(), config.model_dir.as_str(), "."))
        },
        Err(e) => Err(e),
    }
}

/// The report of a model load test, given the outcome of the load script:
/// the script's error, or a message naming the model.
pub fn test_model_load(_config: &WhisperLocalConfig, model: &str, script: Result<()>) -> (r: Result<String>)
    ensures
        match script {
            Ok(_) => r matches Ok(m) && m@ == "Whisper model "@ + model@ + " loaded successfully."@,
            Err(e) => r matches Err(e2) && e2 == e,
        },
{
    match script {
        Ok(_) => Ok(concat3("Whisper model ", model, " loaded successfully.")),
        Err(e) => Err(e),
    }
}

// ---------------------------------------------------------------------------
// Installing and running
// ---------------------------------------------------------------------------

/// What a failed install command reported: its error output, else its
/// standard output (each trimmed, when not blank), else how it exited.
pub open spec fn install_error_spec(stderr: Seq<u8>, stdout: Seq<u8>, exit_status: Seq<char>) -> Seq<char> {
    if trim(utf8_lossy(stderr)).len() > 0 {
        trim(utf8_lossy(stderr))
    } else if trim(utf8_lossy(stdout)).len() > 0 {
        trim(utf8_lossy(stdout))
    } else {
        "command exited with status "@ + exit_status
    }
}

/// What a failed install command reported.
pub fn install_command_error(stderr: &[u8], stdout: &[u8], exit_status: &str) -> (r: String)
    ensures
        r@ == install_error_spec(stderr@, stdout@, exit_status@),
{
    let err = trim_str(lossy_text(stderr).as_str());
    if err.as_str().unicode_len() > 0 {
        return err;
    }
    let out = trim_str(lossy_text(stdout).as_str());
    if out.as_str().unicode_len() > 0 {
        return out;
    }
    crate::text::concat2("command exited with status ", exit_status)
}

/// The error of a failed install step: the step's context, then what the
/// command reported.
pub fn install_step_error(context: &str, detail: &str) -> (e: WisprError)
    ensures
        is_invalid_state(e, context@ + " "@ + detail@),
{
    WisprError::InvalidState(concat3(context, " ", detail))
}

/// The error when both ways of creating the virtualenv failed.
pub fn virtualenv_error(venv_error: &str, bootstrap_error: &str) -> (e: WisprError)
    ensures
        is_invalid_state(e, venv_error@ + " Fallback bootstrap also failed: "@ + bootstrap_error@),
{
    WisprError::InvalidState(concat3(venv_error, " Fallback bootstrap also failed: ", bootstrap_error))
}

/// The report of an installed runtime.
pub fn runtime_installed_message(venv_dir: &str, method: &str) -> (r: String)
    ensures
        r@ == "Installed Wispr Whisper runtime in "@ + venv_dir@ + " using "@ + method@ + "."@,
{
    let head = concat3("Installed Wispr Whisper runtime in ", venv_dir, " using ");
    concat3(head.as_str(), method, ".")
}

/// The file to delete for a model, when the model is known and its file is
/// present; else the error explaining why nothing can be deleted.
pub fn deletion_target(config: &WhisperLocalConfig, model: &str) -> (r: Result<String>)
    ensures
        model_path(config.model_dir@, model@) is None ==> (r matches Err(e) && is_invalid_state(
            e,
            "unsupported Whisper model: "@ + model@,
        )),
        model_path(config.model_dir@, model@) matches Some(p) ==> (r matches Ok(q) ==> q@ == p),
        model_path(config.model_dir@, model@) is Some ==> (r matches Err(e) ==> is_invalid_state(
            e,
            model_missing_msg(model@, config.model_dir@),
        )),
{
    let path = match expected_model_path(config.model_dir.as_str(), model) {
        Some(p) => p,
        None => return Err(WisprError::InvalidState(crate::text::concat2("unsupported Whisper model: ", model))),
    };
    if !path_exists(path.as_str()) {
        let head = concat3("Whisper model ", model, " is not installed in ");
        return Err(WisprError::InvalidState(concat3(head.as_str(), config.model_dir.as_str(), ".")));
    }
    Ok(path)
}

/// The report of a deleted model.
pub fn deleted_message(model: &str) -> (r: String)
    ensures
        r@ == "Deleted Whisper model "@ + model@ + "."@,
{
    concat3("Deleted Whisper model ", model, ".")
}

/// The arguments of the Whisper command line that transcribes `wav_path`
/// into JSON in `output_dir` with the configured model.
pub fn whisper_cli_args(config: &WhisperLocalConfig, wav_path: &str, output_dir: &str) -> (r: Vec<String>)
    ensures
        str_views(r@) == seq![
            wav_path@,
            "--model"@,
            config.model@,
            "--language"@,
            "en"@,
            "--task"@,
            "transcribe"@,
            "--verbose"@,
            "False"@,
            "--output_format"@,
            "json"@,
            "--output_dir"@,
            output_dir@,
            "--model_dir"@,
            config.model_dir@,
            "--fp16"@,
            "False"@,
        ],
{
    let mut r: Vec<String> = Vec::new();
    r.push(owned(wav_path));
    r.push(owned("--model"));
    r.push(owned(config.model.as_str()));
    r.push(owned("--language"));
    r.push(owned("en"));
    r.push(owned("--task"));
    r.push(owned("transcribe"));
    r.push(owned("--verbose"));
    r.push(owned("False"));
    r.push(owned("--output_format"));
    r.push(owned("json"));
    r.push(owned("--output_dir"));
    r.push(owned(output_dir));
    r.push(owned("--model_dir"));
    r.push(owned(config.model_dir.as_str()));
    r.push(owned("--fp16"));
    r.push(owned("False"));
    assert(str_views(r@) =~= seq![
        wav_path@,
        "--model"@,
        config.model@,
        "--language"@,
        "en"@,
        "--task"@,
        "transcribe"@,
        "--verbose"@,
        "False"@,
        "--output_format"@,
        "json"@,
        "--output_dir"@,
        output_dir@,
        "--model_dir"@,
        config.model_dir@,
        "--fp16"@,
        "False"@,
    ]);
    r
}

/// The JSON file the Whisper command line writes for a recording named
/// `stem`.
pub fn transcript_json_path(output_dir: &str, stem: &str) -> (r: String)
    ensures
        r@ == join_path(output_dir@, stem@ + ".json"@),
{
    let name = crate::text::concat2(stem, ".json");
    path_join(output_dir, name.as_str())
}


// ---------------------------------------------------------------------------
// The model listing probe
// ---------------------------------------------------------------------------

/// What `serde_json` reads from the listing probe's output: the entries of
/// its `models` array, each as text when it is a string (`None` when the
/// output has no such array), or the parser's error message.
pub uninterp spec fn model_listing(stdout: Seq<u8>) -> std::result::Result<Option<Seq<Option<Seq<char>>>>, Seq<char>>;

/// The entries of a listing as plain values.
pub open spec fn listing_view(l: Option<Vec<Option<String>>>) -> Option<Seq<Option<Seq<char>>>> {
    match l {
        Some(v) => Some(v@.map_values(|e: Option<String>| opt_view(e))),
        None => None,
    }
}

/// Parses the listing probe's output with `serde_json::from_slice` and
/// reads the `models` array with `Value::get`, `Value::as_array` and
/// `Value::as_str`; the result is named, not stated.
#[verifier::external_body]
fn parse_model_listing(stdout: &[u8]) -> (r: std::result::Result<Option<Vec<Option<String>>>, String>)
    ensures
        match r {
            Ok(l) => model_listing(stdout@) == Ok::<Option<Seq<Option<Seq<char>>>>, Seq<char>>(listing_view(l)),
            Err(e) => model_listing(stdout@) == Err::<Option<Seq<Option<Seq<char>>>>, Seq<char>>(e@),
        },
{
    let v: serde_json::Value = serde_json::from_slice(stdout).map_err(|e| e.to_string())?;
    Ok(v.get("models").and_then(|m| m.as_array()).map(|ms| ms.iter().map(|m| m.as_str().map(|s| s.to_owned())).collect()))
}

/// The names among the entries of a listing, in order.
pub open spec fn listed_names(entries: Seq<Option<Seq<char>>>) -> Seq<Seq<char>>
    decreases entries.len(),
{
    if entries.len() == 0 {
        Seq::empty()
    } else {
        let rest = listed_names(entries.drop_last());
        match entries.last() {
            Some(n) => rest.push(n),
            None => rest,
        }
    }
}

/// The models that the listing probe printed: the string entries of its
/// `models` array (none when there is no such array), or the message of the
/// JSON error, as the probe reports it.
pub fn probe_model_names(stdout: &[u8]) -> (r: std::result::Result<Vec<String>, String>)
    ensures
        match model_listing(stdout@) {
            Ok(None) => r matches Ok(v) && v@.len() == 0,
            Ok(Some(entries)) => r matches Ok(v) && str_views(v@) == listed_names(entries),
            Err(e) => r matches Err(m) && m@ == "serde json error: "@ + e,
        },
{
    match parse_model_listing(stdout) {
        Err(e) => Err(crate::text::concat2("serde json error: ", e.as_str())),
        Ok(None) => Ok(Vec::new()),
        Ok(Some(entries)) => {
            let ghost ev = listing_view(Some(entries))->0;
            let mut out: Vec<String> = Vec::new();
            let n = entries.len();
            for i in 0..n
                invariant
                    n == entries@.len(),
                    ev == entries@.map_values(|e: Option<String>| opt_view(e)),
                    str_views(out@) == listed_names(ev.take(i as int)),
            {
                assert(ev.take(i + 1).drop_last() =~= ev.take(i as int));
                assert(ev[i as int] == opt_view(entries@[i as int]));
                match &entries[i] {
                    Some(name) => {
                        let ghost before = str_views(out@);
                        out.push(owned(name.as_str()));
                        assert(str_views(out@) =~= before.push(name@));
                    },
                    None => {},
                }
            }
            assert(ev.take(n as int) =~= ev);
            Ok(out)
        },
    }
}


// ---------------------------------------------------------------------------
// Installing the runtime
// ---------------------------------------------------------------------------

/// Where the PyPA virtualenv bootstrap is downloaded from.
pub const VIRTUALENV_BOOTSTRAP_URL: &'static str = "https://bootstrap.pypa.io/virtualenv.pyz";

/// Whether an existing virtualenv is unusable and is removed before the
/// runtime is installed: its Python is missing or its pip does not run.
pub fn stale_virtualenv(venv_exists: bool, python_exists: bool, pip_ready: bool) -> (r: bool)
    ensures
        r == (venv_exists && (!python_exists || !pip_ready)),
{
    venv_exists && (!python_exists || !pip_ready)
}

/// A step of installing the runtime.
#[derive(Clone, Copy, Debug, PartialEq, Eq, Structural)]
pub enum InstallStep {
    CreateVenv,
    CreateVenvWithBootstrap,
    PreparePip,
    InstallWhisper,
}

/// What a failed step reports before the command's own output.
pub open spec fn step_context(step: InstallStep) -> Seq<char> {
    match step {
        InstallStep::CreateVenv => "Failed to create the Wispr Whisper virtualenv."@,
        InstallStep::CreateVenvWithBootstrap => "Failed to create the Wispr Whisper virtualenv with the PyPA virtualenv bootstrap."@,
        InstallStep::PreparePip => "Failed to prepare pip inside the Wispr Whisper virtualenv."@,
        InstallStep::InstallWhisper => "Failed to install openai-whisper into the Wispr Whisper virtualenv."@,
    }
}

/// What a failed step reports before the command's own output.
pub fn install_step_context(step: InstallStep) -> (r: &'static str)
    ensures
        r@ == step_context(step),
{
    match step {
        InstallStep::CreateVenv => "Failed to create the Wispr Whisper virtualenv.",
        InstallStep::CreateVenvWithBootstrap => "Failed to create the Wispr Whisper virtualenv with the PyPA virtualenv bootstrap.",
        InstallStep::PreparePip => "Failed to prepare pip inside the Wispr Whisper virtualenv.",
        InstallStep::InstallWhisper => "Failed to install openai-whisper into the Wispr Whisper virtualenv.",
    }
}

/// How the virtualenv was created, for the report: the standard module, or
/// the downloaded bootstrap; an existing one is kept.
pub fn creation_method(existing: bool, bootstrapped: bool) -> (r: &'static str)
    ensures
        existing ==> r@ == "existing virtualenv"@,
        !existing && !bootstrapped ==> r@ == "python3 -m venv"@,
        !existing && bootstrapped ==> r@ == "PyPA virtualenv bootstrap"@,
{
    if existing {
        "existing virtualenv"
    } else if bootstrapped {
        "PyPA virtualenv bootstrap"
    } else {
        "python3 -m venv"
    }
}

/// The error when neither curl nor wget could be started to download the
/// bootstrap.
pub fn bootstrap_launch_error(detail: &str) -> (e: WisprError)
    ensures
        is_invalid_state(e, "Failed to download the PyPA virtualenv bootstrap with curl and wget: "@ + detail@),
{
    WisprError::InvalidState(crate::text::concat2(
        "Failed to download the PyPA virtualenv bootstrap with curl and wget: ",
        detail,
    ))
}

/// The error when the bootstrap download failed, with what the command
/// reported.
pub fn bootstrap_download_error(report: &str) -> (e: WisprError)
    ensures
        is_invalid_state(e, "Failed to download the PyPA virtualenv bootstrap. "@ + report@),
{
    WisprError::InvalidState(crate::text::concat2("Failed to download the PyPA virtualenv bootstrap. ", report))
}

/// The error when the virtualenv's Python could not be started.
pub fn python_launch_error(detail: &str) -> (e: WisprError)
    ensures
        is_invalid_state(e, "failed to execute Wispr Whisper virtualenv python: "@ + detail@),
{
    WisprError::InvalidState(crate::text::concat2("failed to execute Wispr Whisper virtualenv python: ", detail))
}

/// The error when the model listing probe failed, with its standard error.
pub fn probe_failed_error(stderr: &[u8]) -> (e: WisprError)
    ensures
        is_invalid_state(e, "Wispr Whisper probe failed: "@ + stderr_spec(stderr@)),
{
    let detail = stderr_text(stderr);
    WisprError::InvalidState(crate::text::concat2("Wispr Whisper probe failed: ", detail.as_str()))
}

/// The error when the Whisper command line could not be started.
pub fn whisper_launch_error(detail: &str) -> (e: WisprError)
    ensures
        is_invalid_state(e, "failed to execute Whisper CLI: "@ + detail@),
{
    WisprError::InvalidState(crate::text::concat2("failed to execute Whisper CLI: ", detail))
}

/// The error when the Whisper command line failed, with its standard error.
pub fn whisper_failed_error(stderr: &[u8]) -> (e: WisprError)
    ensures
        is_invalid_state(e, "Whisper CLI failed: "@ + stderr_spec(stderr@)),
{
    let detail = stderr_text(stderr);
    WisprError::InvalidState(crate::text::concat2("Whisper CLI failed: ", detail.as_str()))
}

} // verus!
