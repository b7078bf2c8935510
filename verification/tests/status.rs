use wispr_core::config::AppConfig;
use wispr_core::models::{DaemonStatus, DeviceChoice, DictationState, TranscriptionProvider, WhisperLocalConfig};
use wispr_core::status::{
    active_transcription_label, build_status, llm_configured, llm_setup_error, publish_status,
    record_typed_text, record_typing_failure, selected_whisper_model, session_ended_update,
    session_failed_update, session_started_update, session_stopped_update, sync_status,
    transcription_status_from, StatusProbe, StatusUpdate, TranscriptionStatus,
};
use wispr_core::whisper::WhisperRuntimeStatus;

fn mic() -> DeviceChoice {
    DeviceChoice { node_name: "n".to_string(), display_name: "Desk Mic".to_string(), fallback_description: "Desk".to_string() }
}

fn probe(key: Option<&str>) -> StatusProbe {
    StatusProbe {
        mic_ready: true,
        typing_ready: false,
        hotkey_ready: true,
        llm_api_key: key.map(String::from),
        transcription: TranscriptionStatus { ready: true, state: Some("Deepgram ready".to_string()), error: None },
    }
}

#[test]
fn publishing_changes_only_what_the_update_sets() {
    let mut status = DaemonStatus::initial(1);
    status.last_error = Some("old".to_string());
    let mut update = StatusUpdate::none();
    update.state = Some(DictationState::Listening);
    update.partial_transcript = Some(Some("hi".to_string()));
    publish_status(&mut status, update, 7);
    assert_eq!(status.state, DictationState::Listening);
    assert_eq!(status.partial_transcript.as_deref(), Some("hi"));
    assert_eq!(status.last_error.as_deref(), Some("old"));
    assert_eq!(status.updated_at_ms, 7);

    let before = status.clone();
    publish_status(&mut status, StatusUpdate::none(), 9);
    assert_eq!(status, DaemonStatus { updated_at_ms: 9, ..before });
}

#[test]
fn a_session_start_announces_the_session() {
    let config = AppConfig::default();
    let mut status = DaemonStatus::initial(0);
    publish_status(&mut status, session_started_update(&config, &mic(), false), 5);
    assert_eq!(status.state, DictationState::Listening);
    assert_eq!(status.current_mic.as_ref().unwrap().display_name, "Desk Mic");
    assert_eq!(status.partial_transcript.as_deref(), Some(""));
    assert_eq!(status.transcription_state.as_deref(), Some("Listening (cloud)"));
    assert!(!status.llm_ready);
    assert!(!status.intelligence_ready);
    assert_eq!(status.intelligence_state.as_deref(), Some("Literal fallback"));
    assert_eq!(
        status.last_llm_error.as_deref(),
        Some("Intelligence is enabled but the LLM backend is not configured. Falling back to literal dictation.")
    );
    assert!(!status.generation_ready);
    assert_eq!(status.generation_state.as_deref(), Some("Generation unavailable"));
}

#[test]
fn session_end_stop_and_failure_updates() {
    let mut status = DaemonStatus::initial(0);
    publish_status(&mut status, session_failed_update("mic gone", true), 1);
    assert_eq!(status.state, DictationState::Error);
    assert_eq!(status.last_error.as_deref(), Some("mic gone"));
    assert_eq!(status.last_transcription_error.as_deref(), Some("mic gone"));
    publish_status(&mut status, session_stopped_update(), 2);
    assert_eq!(status.state, DictationState::Idle);
    assert_eq!(status.generation_state.as_deref(), Some("Generation stopped"));
    publish_status(&mut status, session_ended_update(), 3);
    assert_eq!(status.transcription_state, None);
    assert_eq!(status.last_error.as_deref(), Some("mic gone"));
}

#[test]
fn built_status_reflects_configuration_and_probes() {
    let mut config = AppConfig::default();
    config.selected_device = Some(mic());
    let status = build_status(&config, None, Some("boom".to_string()), probe(Some("  key ")), 11);
    assert_eq!(status.state, DictationState::Idle);
    assert!(status.llm_ready && status.intelligence_ready && status.generation_ready);
    assert_eq!(status.intelligence_state.as_deref(), Some("Interpreter ready"));
    assert_eq!(status.generation_state.as_deref(), Some("Generation ready"));
    assert_eq!(status.last_error.as_deref(), Some("boom"));
    assert_eq!(status.current_mic.as_ref().unwrap().node_name, "n");
    assert_eq!(status.selected_whisper_model, None);
    assert_eq!(status.updated_at_ms, 11);

    let blank_key = build_status(&config, Some(DictationState::Error), None, probe(Some("   ")), 0);
    assert!(!blank_key.llm_ready);
    assert_eq!(blank_key.state, DictationState::Error);
}

#[test]
fn syncing_keeps_what_the_session_set() {
    let config = AppConfig::default();
    let built = build_status(&config, None, None, probe(None), 3);
    let mut existing = DaemonStatus::initial(0);
    existing.partial_transcript = Some("typing".to_string());
    existing.generation_state = Some("Generating reply".to_string());
    let synced = sync_status(built, &existing);
    assert_eq!(synced.partial_transcript.as_deref(), Some("typing"));
    assert_eq!(synced.generation_state.as_deref(), Some("Generating reply"));
    assert_eq!(synced.intelligence_state.as_deref(), Some("Literal fallback"));
    assert_eq!(synced.updated_at_ms, 3);
}

#[test]
fn transcription_readiness_per_provider() {
    let mut config = AppConfig::default();
    let runtime = WhisperRuntimeStatus::default();
    let t = transcription_status_from(&config, &Some("k".to_string()), &runtime, false);
    assert!(t.ready);
    assert_eq!(t.state.as_deref(), Some("Deepgram ready"));
    let t = transcription_status_from(&config, &None, &runtime, false);
    assert_eq!(t.state.as_deref(), Some("Deepgram not configured"));

    config.transcription.provider = TranscriptionProvider::WhisperLocal;
    config.transcription.whisper_local = WhisperLocalConfig { model: "base.en".to_string(), model_dir: "/m".to_string() };
    let t = transcription_status_from(&config, &None, &runtime, false);
    assert!(!t.ready);
    assert_eq!(t.state.as_deref(), Some("Whisper unavailable"));
    assert_eq!(t.error.as_deref(), Some("Whisper model base.en is not installed."));
    let ready = WhisperRuntimeStatus { python_ready: true, whisper_ready: true, ffmpeg_ready: true, available_models: Vec::new(), detail: None };
    let t = transcription_status_from(&config, &None, &ready, true);
    assert!(t.ready);
    assert_eq!(t.state.as_deref(), Some("Whisper ready (base.en)"));
    assert_eq!(selected_whisper_model(&config).as_deref(), Some("base.en"));
    assert_eq!(active_transcription_label(&config), "Listening (local)");
}

#[test]
fn interpreter_configuration_checks() {
    let mut config = AppConfig::default();
    assert!(llm_configured(&config.intelligence));
    config.intelligence.model = "  ".to_string();
    assert!(!llm_configured(&config.intelligence));
    assert_eq!(llm_setup_error(&config.intelligence, true), None);
    config.intelligence.enabled = false;
    assert_eq!(llm_setup_error(&config.intelligence, false), None);
}

#[test]
fn typing_records() {
    let mut status = DaemonStatus::initial(0);
    record_typed_text(&mut status, "hello", 4);
    assert_eq!(status.partial_transcript.as_deref(), Some("hello"));
    record_typing_failure(&mut status, "no device", 5);
    assert_eq!(status.last_error.as_deref(), Some("Text injection failed: no device"));
    assert_eq!(status.updated_at_ms, 5);
}
