use wispr_core::config::{data_folder_name, default_model_dir, HostPlatform};
use wispr_core::whisper::{default_venv_dir, venv_pip_path, venv_python_path};
use wispr_core::error::WisprError;
use wispr_core::models::{TranscriptionProvider, WhisperLocalConfig};
use wispr_core::whisper::{
    check_backend, collect_manager_status, curated_models, deleted_message, deletion_target,
    download_model, expected_model_path, friendly_runtime_error, install_command_error,
    is_model_installed, list_installed_models, provider_label, runtime_installed_message,
    runtime_status_from, script_outcome, stderr_text, test_model_load, transcript_json_path,
    whisper_cli_args, RuntimeProbe, WhisperRuntimeStatus, probe_model_names, stale_virtualenv,
    creation_method, install_step_context, python_launch_error, probe_failed_error, InstallStep,
    VIRTUALENV_BOOTSTRAP_URL,
};

fn invalid_state(r: Result<(), WisprError>) -> String {
    match r {
        Err(WisprError::InvalidState(m)) => m,
        other => panic!("expected an invalid state, got {other:?}"),
    }
}

fn config(dir: &str, model: &str) -> WhisperLocalConfig {
    WhisperLocalConfig { model: model.to_string(), model_dir: dir.to_string() }
}

fn ready_runtime() -> WhisperRuntimeStatus {
    WhisperRuntimeStatus {
        python_ready: true,
        whisper_ready: true,
        ffmpeg_ready: true,
        available_models: vec!["tiny.en".to_string(), "large".to_string()],
        detail: None,
    }
}

#[test]
fn curated_models_start_with_english_defaults() {
    let runtime = WhisperRuntimeStatus::default();
    assert_eq!(
        curated_models(&runtime),
        vec![
            "tiny.en".to_string(),
            "base.en".to_string(),
            "small.en".to_string(),
            "medium.en".to_string()
        ]
    );
}

#[test]
fn expected_model_path_matches_curated_aliases() {
    let dir = "/tmp/models";
    assert_eq!(expected_model_path(dir, "large").unwrap(), "/tmp/models/large-v3.pt".to_string());
    assert_eq!(expected_model_path(dir, "turbo").unwrap(), "/tmp/models/large-v3-turbo.pt".to_string());
}

#[test]
fn curated_models_add_the_large_ones_the_runtime_offers() {
    let runtime = ready_runtime();
    assert_eq!(
        curated_models(&runtime),
        vec!["tiny.en", "base.en", "small.en", "medium.en", "large"]
            .into_iter()
            .map(String::from)
            .collect::<Vec<_>>()
    );
}

#[test]
fn unknown_models_have_no_path_and_are_never_installed() {
    assert_eq!(expected_model_path("/m", "giant"), None);
    assert_eq!(expected_model_path("/m/", "base.en"), Some("/m/base.en.pt".to_string()));
    assert!(!is_model_installed(&config("/m", "giant"), "giant"));
}

#[test]
fn models_missing_from_disk_are_not_listed() {
    let cfg = config("/nonexistent/wispr-test-models", "base.en");
    assert!(list_installed_models(&cfg, &ready_runtime()).is_empty());
    let status = collect_manager_status(&cfg, ready_runtime());
    assert_eq!(status.curated_models.len(), 5);
    assert!(status.installed_models.is_empty());
    assert!(status.runtime.backend_ready());
}

#[test]
fn friendly_errors_explain_known_failures() {
    assert_eq!(
        friendly_runtime_error("Traceback\nModuleNotFoundError: No module named 'whisper'"),
        "openai-whisper is not installed in the Wispr Whisper virtualenv"
    );
    assert_eq!(
        friendly_runtime_error("invalid state: Wispr Whisper probe failed: boom"),
        "Whisper could not be imported from the Wispr Whisper virtualenv"
    );
    assert_eq!(
        friendly_runtime_error("invalid state: failed to execute Wispr Whisper virtualenv python: x"),
        "The Wispr Whisper virtualenv python could not be executed"
    );
    assert_eq!(friendly_runtime_error("  first line  \nsecond"), "first line");
    assert_eq!(friendly_runtime_error(""), "");
}

#[test]
fn runtime_status_follows_the_probes() {
    let missing = RuntimeProbe { python_ready: false, ffmpeg_ready: true, models: Ok(Vec::new()), whisper_cli_ready: false };
    let status = runtime_status_from(&missing, "/venv");
    assert!(!status.python_ready && !status.whisper_ready && status.ffmpeg_ready);
    assert_eq!(
        status.detail.as_deref(),
        Some("Wispr Whisper virtualenv is missing. Create it with `python3 -m venv /venv` and install openai-whisper inside it.")
    );

    let listed = RuntimeProbe { python_ready: true, ffmpeg_ready: false, models: Ok(vec!["tiny".to_string()]), whisper_cli_ready: false };
    let status = runtime_status_from(&listed, "/venv");
    assert!(status.python_ready && status.whisper_ready && !status.ffmpeg_ready);
    assert_eq!(status.available_models, vec!["tiny".to_string()]);
    assert!(status.detail.is_none());

    let failed = RuntimeProbe {
        python_ready: true,
        ffmpeg_ready: true,
        models: Err("No module named 'whisper'".to_string()),
        whisper_cli_ready: true,
    };
    let status = runtime_status_from(&failed, "/venv");
    assert!(status.whisper_ready);
    assert!(status.available_models.is_empty());
    assert_eq!(status.detail.as_deref(), Some("openai-whisper is not installed in the Wispr Whisper virtualenv"));
}

#[test]
fn backend_checks_report_the_first_problem() {
    let cfg = config("/m", "base.en");
    let mut runtime = ready_runtime();
    assert!(check_backend(&runtime, &cfg, true, "/venv").is_ok());
    assert_eq!(
        invalid_state(check_backend(&runtime, &cfg, false, "/venv")),
        "Whisper model base.en is not installed in /m."
    );
    runtime.whisper_ready = false;
    assert_eq!(
        invalid_state(check_backend(&runtime, &cfg, true, "/venv")),
        "Whisper is not installed in the Wispr Whisper virtualenv. Install openai-whisper to use local transcription."
    );
    runtime.ffmpeg_ready = false;
    assert_eq!(
        invalid_state(check_backend(&runtime, &cfg, true, "/venv")),
        "ffmpeg is not available. Install ffmpeg to use local Whisper transcription."
    );
    runtime.python_ready = false;
    assert_eq!(
        invalid_state(check_backend(&runtime, &cfg, true, "/venv")),
        "Wispr Whisper virtualenv is not installed. Create /venv and install openai-whisper into it."
    );
}

#[test]
fn stderr_is_trimmed_or_replaced() {
    assert_eq!(stderr_text(b"  boom \n"), "boom");
    assert_eq!(stderr_text(b" \n "), "command failed without stderr output");
    match script_outcome(false, b"bad model\n") {
        Err(WisprError::InvalidState(m)) => assert_eq!(m, "bad model"),
        other => panic!("unexpected {other:?}"),
    }
    assert!(script_outcome(true, b"ignored").is_ok());
}

#[test]
fn model_scripts_report_what_they_did() {
    let cfg = config("/m", "base.en");
    assert_eq!(download_model(&cfg, "small.en", Ok(())).unwrap(), "Downloaded Whisper model small.en into /m.");
    assert_eq!(test_model_load(&cfg, "small.en", Ok(())).unwrap(), "Whisper model small.en loaded successfully.");
    match download_model(&cfg, "small.en", Err(WisprError::InvalidState("boom".to_string()))) {
        Err(WisprError::InvalidState(m)) => assert_eq!(m, "boom"),
        other => panic!("unexpected {other:?}"),
    }
}

#[test]
fn provider_labels() {
    assert_eq!(provider_label(&TranscriptionProvider::Deepgram), "Cloud (Deepgram)");
    assert_eq!(provider_label(&TranscriptionProvider::WhisperLocal), "Local (Whisper)");
}

#[test]
fn install_errors_prefer_stderr_then_stdout_then_status() {
    assert_eq!(install_command_error(b" err ", b"out", "exit status: 1"), "err");
    assert_eq!(install_command_error(b"  ", b" out \n", "exit status: 1"), "out");
    assert_eq!(install_command_error(b"", b"", "exit status: 2"), "command exited with status exit status: 2");
    assert_eq!(
        runtime_installed_message("/v", "python3 -m venv"),
        "Installed Wispr Whisper runtime in /v using python3 -m venv."
    );
}

#[test]
fn deleting_needs_a_known_installed_model() {
    let cfg = config("/nonexistent/wispr-test-models", "base.en");
    match deletion_target(&cfg, "giant") {
        Err(WisprError::InvalidState(m)) => assert_eq!(m, "unsupported Whisper model: giant"),
        other => panic!("unexpected {other:?}"),
    }
    match deletion_target(&cfg, "tiny.en") {
        Err(WisprError::InvalidState(m)) => {
            assert_eq!(m, "Whisper model tiny.en is not installed in /nonexistent/wispr-test-models.")
        }
        other => panic!("unexpected {other:?}"),
    }
    assert_eq!(deleted_message("tiny.en"), "Deleted Whisper model tiny.en.");
}

#[test]
fn whisper_command_line() {
    let cfg = config("/m", "base.en");
    let args = whisper_cli_args(&cfg, "/tmp/a.wav", "/tmp/out");
    assert_eq!(
        args,
        vec![
            "/tmp/a.wav", "--model", "base.en", "--language", "en", "--task", "transcribe", "--verbose",
            "False", "--output_format", "json", "--output_dir", "/tmp/out", "--model_dir", "/m", "--fp16",
            "False",
        ]
        .into_iter()
        .map(String::from)
        .collect::<Vec<_>>()
    );
    assert_eq!(transcript_json_path("/tmp/out", "a"), "/tmp/out/a.json");
}

#[test]
fn model_listing_probe_output_is_read() {
    assert_eq!(
        probe_model_names(b"{\"models\": [\"tiny.en\", 3, \"turbo\"]}\n").expect("listing"),
        vec!["tiny.en".to_string(), "turbo".to_string()]
    );
    assert_eq!(probe_model_names(b"{\"other\": 1}").expect("listing"), Vec::<String>::new());
    let error = probe_model_names(b"not json").unwrap_err();
    assert!(error.starts_with("serde json error: "));
}

#[test]
fn runtime_install_decisions() {
    assert!(stale_virtualenv(true, false, false));
    assert!(stale_virtualenv(true, true, false));
    assert!(!stale_virtualenv(true, true, true));
    assert!(!stale_virtualenv(false, false, false));
    assert_eq!(creation_method(true, true), "existing virtualenv");
    assert_eq!(creation_method(false, false), "python3 -m venv");
    assert_eq!(creation_method(false, true), "PyPA virtualenv bootstrap");
    assert_eq!(install_step_context(InstallStep::PreparePip), "Failed to prepare pip inside the Wispr Whisper virtualenv.");
    assert_eq!(VIRTUALENV_BOOTSTRAP_URL, "https://bootstrap.pypa.io/virtualenv.pyz");
    assert_eq!(python_launch_error("No such file").text(), "invalid state: failed to execute Wispr Whisper virtualenv python: No such file");
    let probe_error = probe_failed_error(b"  Traceback\n").text();
    assert_eq!(probe_error, "invalid state: Wispr Whisper probe failed: Traceback");
    assert_eq!(friendly_runtime_error(&probe_error), "Whisper could not be imported from the Wispr Whisper virtualenv");
}

#[test]
fn installed_models_are_those_flagged_present() {
    let models: Vec<String> = ["tiny.en", "base.en", "small.en", "medium.en", "turbo"].iter().map(|m| m.to_string()).collect();
    let present = vec![false, true, false, true, true];
    assert_eq!(
        wispr_core::whisper::installed_of(&models, &present),
        vec!["base.en".to_string(), "medium.en".to_string(), "turbo".to_string()]
    );
    assert!(wispr_core::whisper::installed_of(&models, &vec![false; 5]).is_empty());
    assert_eq!(wispr_core::whisper::installed_of(&models, &vec![true; 5]), models);
}

#[test]
fn whisper_folders_follow_the_platform() {
    assert_eq!(data_folder_name(HostPlatform::Linux), "wispr");
    assert_eq!(data_folder_name(HostPlatform::MacOs), "Wispr");
    assert!(default_model_dir(HostPlatform::Linux).ends_with("/wispr/whisper"));
    assert!(default_model_dir(HostPlatform::MacOs).ends_with("/Wispr/whisper"));
    assert!(default_venv_dir(HostPlatform::Linux).ends_with("/wispr/whisper-venv"));
    assert!(default_venv_dir(HostPlatform::MacOs).ends_with("/Wispr/whisper-venv"));
    assert!(venv_python_path(HostPlatform::MacOs).ends_with("/Wispr/whisper-venv/bin/python"));
    assert!(venv_pip_path(HostPlatform::Linux).ends_with("/wispr/whisper-venv/bin/pip"));
}
