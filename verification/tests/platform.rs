use wispr_core::config::config_path_under;
use wispr_core::ipc::socket_path_under;
use wispr_core::config::first_file;
use wispr_core::install::choose_bin_dir;
use wispr_core::audio::{ffmpeg_capture_args, ffmpeg_list_args};
use wispr_core::settings::{apply_settings, key_to_save, restart_failed, SettingsForm};
use wispr_core::audio::{ffmpeg_candidates, resolve_ffmpeg_path};
use wispr_core::install::{is_root_id, launch_agents_dir, require_root, resolve_bin_dir_for_autostart, systemd_user_dir};
use wispr_core::keyboard::mac_modifier_flags;
use wispr_core::models::{ModifierKey, ShortcutDenylistProfile};
use wispr_core::reports::parse_denylist_profile;
use wispr_core::app_context::{
    classify_app, context_from_process_name, context_from_window_class, matches_browser,
    matches_editor, matches_terminal, normalize_app_id,
};
use wispr_core::config::{config_dir_under, data_base_from, path_join, AppConfig};
use wispr_core::deepgram::{
    authorization_value, into_event, local_transcription_events, DeepgramFields, SessionEvent,
    SpeechEvent,
};
use wispr_core::error::WisprError;
use wispr_core::install::{
    command_failed, default_config_message, launch_agent_file_name, launch_agent_plist,
    remove_launch_agent_message, uinput_rule, uinput_rule_message, user_service_unit,
};
use wispr_core::ipc::{command_outcome, DictationCommand, DictationIpcResponse, DictationProxy};
use wispr_core::models::{
    ActiveAppClass, ActiveAppContext, DaemonStatus, DecisionKind, DeviceChoice, DictationState,
    SegmentDecision, TranscriptionProvider,
};
use wispr_core::overlay::{clip_tail, compact_text, overlay_view, Indicator};
use wispr_core::reports::{
    build_active_app, format_installed_models, format_status, llm_test_report, model_choices,
    parse_provider, provider_from_choice, provider_id, split_combo_text,
};
use wispr_core::secrets::{keychain_read, keychain_write_result, secret_attributes, SecretKind, SecretStore};
use wispr_core::typing::diff_patch;

fn fields(kind: &str) -> DeepgramFields {
    DeepgramFields {
        kind: Some(kind.to_string()),
        alternative: String::new(),
        is_final: false,
        speech_final: false,
        description: None,
        message: None,
        error: None,
        event: None,
        transcript: String::new(),
    }
}

fn speech_text(e: Option<SpeechEvent>) -> (u8, String) {
    match e {
        Some(SpeechEvent::Partial(t)) => (0, t),
        Some(SpeechEvent::Final(t)) => (1, t),
        Some(SpeechEvent::TurnEnded) => (2, String::new()),
        Some(SpeechEvent::TurnEndedWithTranscript(t)) => (3, t),
        Some(SpeechEvent::Warning(t)) => (4, t),
        None => (9, String::new()),
    }
}

#[test]
fn window_classes_are_classified() {
    assert_eq!(normalize_app_id("  Google-Chrome \n"), "google-chrome");
    assert!(matches_browser("org.mozilla.firefox"));
    assert!(matches_editor("code-oss"));
    assert!(matches_terminal("org.gnome.ptyxis"));
    assert_eq!(classify_app("kitty"), ActiveAppClass::Terminal);
    assert_eq!(classify_app("nautilus"), ActiveAppClass::Generic);
    // A browser name wins over the others.
    assert_eq!(classify_app("chrome-terminal"), ActiveAppClass::Browser);
    let ctx = context_from_window_class(" Alacritty ");
    assert_eq!(ctx.app_class, ActiveAppClass::Terminal);
    assert_eq!(ctx.app_id.as_deref(), Some("alacritty"));
    let mac = context_from_process_name("Safari\n").expect("named");
    assert_eq!(mac.app_class, ActiveAppClass::Browser);
    assert_eq!(context_from_process_name("   "), None);
}

#[test]
fn daemon_answers_become_outcomes() {
    let proxy = DictationProxy::new();
    assert_eq!(proxy.request(DictationCommand::Toggle).command, DictationCommand::Toggle);
    let ok = command_outcome(Some(DictationIpcResponse { ok: true, message: "listening".to_string() }));
    assert_eq!(ok.expect("ok"), "listening");
    match command_outcome(Some(DictationIpcResponse { ok: false, message: "no mic".to_string() })) {
        Err(WisprError::InvalidState(m)) => assert_eq!(m, "no mic"),
        other => panic!("unexpected {:?}", other),
    }
    match command_outcome(None) {
        Err(WisprError::InvalidState(m)) => assert_eq!(m, "daemon returned an empty IPC response"),
        other => panic!("unexpected {:?}", other),
    }
}

#[test]
fn deepgram_messages_become_events() {
    assert_eq!(authorization_value("abc"), "Token abc");
    let mut results = fields("Results");
    assert_eq!(speech_text(into_event(results_with(&mut results, "hi", false))), (0, "hi".to_string()));
    assert_eq!(speech_text(into_event(results_with(&mut results, "hi", true))), (1, "hi".to_string()));
    assert_eq!(speech_text(into_event(results_with(&mut results, "", true))), (9, String::new()));
    assert_eq!(speech_text(into_event(fields("UtteranceEnd"))), (2, String::new()));
    assert_eq!(speech_text(into_event(fields("SpeechStarted"))), (9, String::new()));
    assert_eq!(speech_text(into_event(fields("Metadata"))), (9, String::new()));

    let mut turn = fields("TurnInfo");
    turn.event = Some("EndOfTurn".to_string());
    turn.transcript = "done now".to_string();
    assert_eq!(speech_text(into_event(turn)), (3, "done now".to_string()));
    let mut update = fields("TurnInfo");
    update.event = Some("Update".to_string());
    update.transcript = "so far".to_string();
    assert_eq!(speech_text(into_event(update)), (0, "so far".to_string()));
    let mut start = fields("TurnInfo");
    start.event = Some("StartOfTurn".to_string());
    assert_eq!(speech_text(into_event(start)), (9, String::new()));

    let mut error = fields("Error");
    error.message = Some("bad key".to_string());
    error.error = Some("401".to_string());
    assert_eq!(speech_text(into_event(error)), (4, "bad key".to_string()));
    assert_eq!(
        speech_text(into_event(fields("Error"))),
        (4, "Deepgram returned an unspecified error".to_string())
    );
    assert_eq!(
        speech_text(into_event(fields("Surprise"))),
        (4, "Unhandled Deepgram message: Surprise".to_string())
    );
    let mut untyped = fields("Results");
    untyped.kind = None;
    untyped.alternative = "x".to_string();
    assert_eq!(speech_text(into_event(untyped)), (9, String::new()));
}

fn results_with(f: &mut DeepgramFields, text: &str, is_final: bool) -> DeepgramFields {
    f.alternative = text.to_string();
    f.is_final = is_final;
    DeepgramFields {
        kind: f.kind.clone(),
        alternative: f.alternative.clone(),
        is_final: f.is_final,
        speech_final: f.speech_final,
        description: None,
        message: None,
        error: None,
        event: None,
        transcript: String::new(),
    }
}

#[test]
fn local_transcriptions_become_session_events() {
    let events = local_transcription_events(Ok("hello".to_string()));
    assert_eq!(events.len(), 4);
    assert!(matches!(&events[0], SessionEvent::BackendState(s) if s == "Transcribing locally"));
    assert!(matches!(&events[1], SessionEvent::Speech(SpeechEvent::Final(t)) if t == "hello"));
    assert!(matches!(&events[2], SessionEvent::Speech(SpeechEvent::TurnEnded)));
    assert!(matches!(&events[3], SessionEvent::BackendState(s) if s == "Listening (local)"));
    assert_eq!(local_transcription_events(Ok(String::new())).len(), 2);
    let failed = local_transcription_events(Err("boom".to_string()));
    assert_eq!(failed.len(), 2);
    assert!(matches!(&failed[1], SessionEvent::Speech(SpeechEvent::Warning(t)) if t == "Local Whisper transcription failed: boom"));
}

#[test]
fn install_texts() {
    assert_eq!(uinput_rule(), "KERNEL==\"uinput\", GROUP=\"wisprinput\", MODE=\"0660\"\n");
    assert!(uinput_rule_message("ana").contains("so ana picks up the wisprinput group."));
    assert!(user_service_unit("/usr/local/bin").contains("ExecStart=/usr/local/bin/wisprd\n"));
    assert!(launch_agent_plist("/opt/bin/").contains("<string>/opt/bin/wisprd</string>"));
    assert_eq!(launch_agent_file_name(), "io.wispr.wisprd.plist");
    assert_eq!(remove_launch_agent_message("/p", true), "Removed /p.");
    assert_eq!(remove_launch_agent_message("/p", false), "No launch agent was installed at /p.");
    assert_eq!(default_config_message("/c/config.toml"), "Wrote default config under /c/config.toml.");
    match command_failed("udevadm", "exit status: 1") {
        WisprError::Message(m) => assert_eq!(m, "udevadm failed with status exit status: 1"),
        other => panic!("unexpected {:?}", other),
    }
}

#[test]
fn keychain_answers_are_read() {
    let store = SecretStore::connect().expect("store");
    let entry = store.entry(SecretKind::Deepgram);
    assert_eq!(entry.label, "Wispr Deepgram API Key");
    assert_eq!(entry.service, "io.wispr.deepgram");
    let attrs = secret_attributes(&entry);
    assert_eq!(attrs, vec![("service".to_string(), "io.wispr.deepgram".to_string()), ("account".to_string(), "default".to_string())]);
    assert_eq!(keychain_read(true, b"  sk-123\n"), Some("sk-123".to_string()));
    assert_eq!(keychain_read(false, b"sk-123"), None);
    assert!(keychain_write_result(true, &entry, b"").is_ok());
    match keychain_write_result(false, &store.entry(SecretKind::Intelligence), b" denied \n") {
        Err(WisprError::InvalidState(m)) => {
            assert_eq!(m, "failed to write keychain secret for io.wispr.intelligence/default: denied")
        }
        other => panic!("unexpected {:?}", other),
    }
}

#[test]
fn settings_inputs_are_parsed() {
    assert_eq!(split_combo_text(" ctrl+c ,\n\n super+l,"), vec!["ctrl+c".to_string(), "super+l".to_string()]);
    assert_eq!(provider_from_choice(Some("whisper_local")), TranscriptionProvider::WhisperLocal);
    assert_eq!(provider_from_choice(Some("other")), TranscriptionProvider::Deepgram);
    assert_eq!(provider_from_choice(None), TranscriptionProvider::Deepgram);
    assert_eq!(parse_provider(" Local ").expect("known"), TranscriptionProvider::WhisperLocal);
    assert_eq!(parse_provider("CLOUD").expect("known"), TranscriptionProvider::Deepgram);
    match parse_provider(" Azure ") {
        Err(WisprError::InvalidState(m)) => {
            assert_eq!(m, "unsupported provider: azure. Use deepgram/cloud or whisper_local/local.")
        }
        other => panic!("unexpected {:?}", other),
    }
    assert_eq!(provider_id(TranscriptionProvider::WhisperLocal), "whisper_local");
    assert_eq!(build_active_app(None, Some("x")).expect("ok"), None);
    assert_eq!(
        build_active_app(Some(" Editor "), Some("code")).expect("ok"),
        Some(ActiveAppContext { app_class: ActiveAppClass::Editor, app_id: Some("code".to_string()) })
    );
    match build_active_app(Some("phone"), None) {
        Err(WisprError::InvalidState(m)) => assert_eq!(m, "unsupported app class: phone"),
        other => panic!("unexpected {:?}", other),
    }
    let curated = vec!["tiny.en".to_string(), "base.en".to_string()];
    assert_eq!(model_choices(&curated, "base.en"), curated);
    assert_eq!(model_choices(&curated, "mine"), vec!["tiny.en".to_string(), "base.en".to_string(), "mine".to_string()]);
}

#[test]
fn status_and_reports_read_well() {
    let mut status = DaemonStatus::initial(5);
    status.state = DictationState::Listening;
    status.mic_ready = true;
    status.current_mic = Some(DeviceChoice {
        node_name: "n".to_string(),
        display_name: "Desk Mic".to_string(),
        fallback_description: "d".to_string(),
    });
    status.active_app = Some(ActiveAppContext { app_class: ActiveAppClass::Terminal, app_id: Some("kitty".to_string()) });
    assert_eq!(
        format_status(&status),
        "State: Listening | Provider: Deepgram | Transcription ready: false | Mic ready: true | Typing ready: false | Hotkey ready: false | Intelligence ready: false | LLM ready: false | Generation ready: false | Mic: Desk Mic | App: Terminal (kitty)"
    );
    assert_eq!(format_installed_models(&Vec::new()), "No models installed in the Wispr Whisper directory");
    assert_eq!(format_installed_models(&vec!["a".to_string(), "b".to_string()]), "a, b");

    let mut decision = SegmentDecision::literal("hi");
    assert_eq!(llm_test_report(&decision), "LLM test succeeded. Decision: literal | Text: hi");
    decision.kind = DecisionKind::Generation;
    decision.generation_prompt = Some("poem".to_string());
    assert_eq!(
        llm_test_report(&decision),
        "LLM test succeeded. Decision: generation | Text: hi | Generation prompt: poem"
    );
}

#[test]
fn overlay_follows_the_status() {
    let mut status = DaemonStatus::initial(0);
    let idle = overlay_view(&status);
    assert!(!idle.visible);
    assert_eq!(idle.title, "Idle");
    assert_eq!(idle.message, "Waiting for speech");
    assert_eq!(idle.indicator, Indicator::Idle);

    status.state = DictationState::Listening;
    status.transcription_provider = TranscriptionProvider::WhisperLocal;
    status.partial_transcript = Some("  hello \n  world ".to_string());
    let live = overlay_view(&status);
    assert!(live.visible);
    assert_eq!(live.title, "Listening locally");
    assert_eq!(live.provider_badge, "Local");
    assert_eq!(live.message, "hello world");
    assert_eq!(live.indicator, Indicator::Live);
    assert!(!live.detail_visible);

    status.state = DictationState::Error;
    let broken = overlay_view(&status);
    assert_eq!(broken.title, "Transcription issue");
    assert!(broken.card_error);
    assert_eq!(broken.detail, "Check transcription backend readiness.");
    assert!(broken.detail_visible);

    assert_eq!(compact_text("  a \t b  "), "a b");
    assert_eq!(clip_tail("abcdef", 3), "…def");
    assert_eq!(clip_tail("abc", 3), "abc");
}

#[test]
fn paths_and_patches() {
    assert_eq!(path_join("/home/u", "wispr"), "/home/u/wispr");
    assert_eq!(path_join("/home/u/", "wispr"), "/home/u/wispr");
    assert_eq!(config_dir_under(Some("/cfg".to_string())).expect("dir"), "/cfg/wispr");
    assert!(config_dir_under(None).is_err());
    assert_eq!(data_base_from(Some("/data".to_string()), Some("/home".to_string())), "/data");
    assert_eq!(data_base_from(None, Some("/home".to_string())), "/home/.local/share");
    let config = AppConfig::default();
    assert_eq!(config.transcription.whisper_local.model, "base.en");

    let patch = diff_patch("hello wor", "hello world!");
    assert_eq!(patch.backspaces, 0);
    assert_eq!(patch.insertion, "ld!");
    let patch = diff_patch("hello", "help");
    assert_eq!(patch.backspaces, 2);
    assert_eq!(patch.insertion, "p");
}

#[test]
fn ffmpeg_is_looked_for_in_order() {
    let entries = vec!["/usr/local/bin".to_string(), "/custom/".to_string()];
    assert_eq!(
        ffmpeg_candidates(Some("/my/ffmpeg"), &entries),
        vec![
            "/my/ffmpeg".to_string(),
            "/usr/local/bin/ffmpeg".to_string(),
            "/custom/ffmpeg".to_string(),
            "/opt/homebrew/bin/ffmpeg".to_string(),
            "/usr/local/bin/ffmpeg".to_string(),
            "/usr/bin/ffmpeg".to_string(),
        ]
    );
    assert_eq!(ffmpeg_candidates(None, &Vec::new()).len(), 3);
    assert_eq!(resolve_ffmpeg_path(Some("/proc/version"), &Vec::new()), Some("/proc/version".to_string()));
}

#[test]
fn autostart_finds_the_daemon_directory() {
    assert_eq!(
        resolve_bin_dir_for_autostart(Some("/proc/version"), None, Ok("/".to_string())).expect("found"),
        "/proc"
    );
    match resolve_bin_dir_for_autostart(None, None, Err("denied".to_string())) {
        Err(WisprError::InvalidState(m)) => assert_eq!(m, "could not determine current working directory: denied"),
        other => panic!("unexpected {:?}", other),
    }
    match resolve_bin_dir_for_autostart(Some("/no/such/wisprd"), Some("/no/such"), Ok("/no/such/dir".to_string())) {
        Err(WisprError::InvalidState(m)) => assert_eq!(m, "could not locate wisprd for autostart installation"),
        other => panic!("unexpected {:?}", other),
    }
}

#[test]
fn mac_flags_and_profiles() {
    assert_eq!(mac_modifier_flags(&[]), 0);
    assert_eq!(mac_modifier_flags(&[ModifierKey::Ctrl, ModifierKey::Shift]), 0x60000);
    assert_eq!(mac_modifier_flags(&[ModifierKey::Super, ModifierKey::Super, ModifierKey::Alt]), 0x180000);
    assert_eq!(parse_denylist_profile(Some("strict")), ShortcutDenylistProfile::Minimal);
    assert_eq!(parse_denylist_profile(None), ShortcutDenylistProfile::Minimal);
}

#[test]
fn install_locations_and_root() {
    assert!(is_root_id(Some("0\n")));
    assert!(!is_root_id(Some("1000\n")));
    assert!(!is_root_id(None));
    assert!(require_root(true).is_ok());
    match require_root(false) {
        Err(WisprError::InvalidState(m)) => assert_eq!(m, "setup-uinput must be run as root (for example with sudo)"),
        other => panic!("unexpected {:?}", other),
    }
    assert_eq!(systemd_user_dir(Some("/home/u/.config")).expect("dir"), "/home/u/.config/systemd/user");
    assert!(systemd_user_dir(None).is_err());
    assert_eq!(launch_agents_dir(Some("/Users/u")).expect("dir"), "/Users/u/Library/LaunchAgents");
}

#[test]
fn saving_the_settings_form() {
    let mut config = AppConfig::default();
    let devices = vec![
        DeviceChoice { node_name: "0".to_string(), display_name: "Built-in".to_string(), fallback_description: "Built-in".to_string() },
        DeviceChoice { node_name: "1".to_string(), display_name: "USB".to_string(), fallback_description: "USB".to_string() },
    ];
    let form = SettingsForm {
        autostart: false,
        overlay_enabled: false,
        preferred_trigger: "<Super>space".to_string(),
        provider_choice: Some("whisper_local".to_string()),
        whisper_model_choice: None,
        intelligence_enabled: true,
        base_url: "http://localhost:8080/v1".to_string(),
        model: "local".to_string(),
        timeout_ms: 4000,
        generation_timeout_ms: 60000,
        debug_overlay: false,
        dynamic_shortcuts_enabled: false,
        semantic_commands_enabled: true,
        generation_enabled: false,
        denylist_profile_choice: Some("minimal".to_string()),
        allowlist_text: "ctrl+c, ctrl+v\n".to_string(),
        denylist_text: String::new(),
        microphone_choice: Some("1".to_string()),
    };
    apply_settings(&mut config, form, &devices);
    assert!(!config.autostart);
    assert!(!config.overlay.enabled);
    assert_eq!(config.hotkey.preferred_trigger, "<Super>space");
    assert_eq!(config.transcription.provider, TranscriptionProvider::WhisperLocal);
    assert_eq!(config.transcription.whisper_local.model, "base.en");
    assert_eq!(config.intelligence.base_url, "http://localhost:8080/v1");
    assert_eq!(config.intelligence.timeout_ms, 4000);
    assert_eq!(config.intelligence.shortcut_allowlist, vec!["ctrl+c".to_string(), "ctrl+v".to_string()]);
    assert!(config.intelligence.shortcut_denylist.is_empty());
    assert_eq!(config.selected_device.as_ref().map(|d| d.display_name.as_str()), Some("USB"));
    assert_eq!(key_to_save("  sk-1 "), Some("sk-1".to_string()));
    assert_eq!(key_to_save("   "), None);
    match restart_failed("exit status: 5") {
        WisprError::Message(m) => assert_eq!(m, "systemctl exited with status exit status: 5"),
        other => panic!("unexpected {:?}", other),
    }
}

#[test]
fn ffmpeg_capture_arguments() {
    let usb = DeviceChoice { node_name: "1".to_string(), display_name: "USB".to_string(), fallback_description: "USB".to_string() };
    let args = ffmpeg_capture_args(&usb, &vec![usb.clone()]).expect("available");
    assert_eq!(args.join(" "), "-f avfoundation -i :1 -ac 1 -ar 16000 -f s16le -");
    match ffmpeg_capture_args(&usb, &Vec::new()) {
        Err(WisprError::InvalidState(m)) => assert_eq!(m, "selected microphone USB is not currently available"),
        other => panic!("unexpected {:?}", other),
    }
    assert_eq!(ffmpeg_list_args().join(" "), "-f avfoundation -list_devices true -i ");
}

#[test]
fn first_flagged_file_is_chosen() {
    let candidates: Vec<String> = ["/a/ffmpeg", "/b/ffmpeg", "/c/ffmpeg"].iter().map(|c| c.to_string()).collect();
    assert_eq!(first_file(&candidates, &vec![false, true, true]), Some("/b/ffmpeg".to_string()));
    assert_eq!(first_file(&candidates, &vec![true, true, false]), Some("/a/ffmpeg".to_string()));
    assert_eq!(first_file(&candidates, &vec![false, false, false]), None);
}

#[test]
fn bin_dir_is_searched_in_order() {
    let ok = |r: Result<String, WisprError>| r.expect("found");
    let err = |r: Result<String, WisprError>| match r {
        Err(WisprError::InvalidState(m)) => m,
        other => panic!("expected an invalid state, got {other:?}"),
    };
    // The explicit path wins over the program's directory and the build directories.
    assert_eq!(
        ok(choose_bin_dir(true, Some("/opt/wispr".to_string()), Some("/usr/bin"), true, Ok("/src".to_string()), &vec![true, true, true])),
        "/opt/wispr"
    );
    assert_eq!(
        err(choose_bin_dir(true, None, Some("/usr/bin"), true, Ok("/src".to_string()), &vec![true, true, true])),
        "WISPRD_PATH does not have a parent directory"
    );
    // Then the program's directory.
    assert_eq!(
        ok(choose_bin_dir(false, None, Some("/usr/bin"), true, Ok("/src".to_string()), &vec![true, true, true])),
        "/usr/bin"
    );
    // Then the first build directory that holds it.
    assert_eq!(
        ok(choose_bin_dir(false, None, Some("/usr/bin"), false, Ok("/src".to_string()), &vec![false, true, true])),
        "/src/../target/debug"
    );
    assert_eq!(
        ok(choose_bin_dir(false, None, None, false, Ok("/src".to_string()), &vec![true, false, true])),
        "/src/target/debug"
    );
    assert_eq!(
        err(choose_bin_dir(false, None, None, false, Ok("/src".to_string()), &vec![false, false, false])),
        "could not locate wisprd for autostart installation"
    );
    assert_eq!(
        err(choose_bin_dir(false, None, Some("/usr/bin"), false, Err("denied".to_string()), &vec![false, false, false])),
        "could not determine current working directory: denied"
    );
}

#[test]
fn config_and_socket_share_a_directory() {
    let config = AppConfig::config_path().expect("config path");
    let socket = wispr_core::ipc::daemon_socket_path().expect("socket path");
    assert!(config.ends_with("/wispr/config.toml"));
    assert_eq!(config.trim_end_matches("config.toml"), socket.trim_end_matches("wisprd.sock"));
}

#[test]
fn config_and_socket_paths_under_a_directory() {
    assert_eq!(config_path_under(Some("/home/u/.config".to_string())).unwrap(), "/home/u/.config/wispr/config.toml");
    assert_eq!(socket_path_under(Some("/home/u/.config".to_string())).unwrap(), "/home/u/.config/wispr/wisprd.sock");
    assert_eq!(
        socket_path_under(Some("/Users/u/Library/Application Support/".to_string())).unwrap(),
        "/Users/u/Library/Application Support/wispr/wisprd.sock"
    );
    for r in [config_path_under(None), socket_path_under(None)] {
        match r {
            Err(WisprError::InvalidState(m)) => assert_eq!(m, "could not determine XDG config directory"),
            other => panic!("unexpected {other:?}"),
        }
    }
}
