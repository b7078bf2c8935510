use wispr_core::daemon::{audio_forward_error, bus_reply, deepgram_key, portal_failure_message, settings_reply};
use wispr_core::config::{AppConfig, IntelligenceConfig};
use wispr_core::daemon::{
    keyboard_open_error, request_reply, session_microphone, DictationLoop, LoopAction, LoopEvent,
    SegmentPlan,
};
use wispr_core::error::WisprError;
use wispr_core::models::{
    ActionCommand, ActionKey, ActionType, DecisionKind, DeviceChoice, DictationState, FormatKind,
    GenerationStyle, ModifierKey, RewriteScope, SegmentDecision,
};
use wispr_core::reports::cli_test_request;
use wispr_core::session::TranscriptState;
use wispr_core::shortcuts::ResolvedActions;
use wispr_core::writing::{
    actions_failed_update, decision_applied_update, finish_writing, resolving_update, WritingEnd,
    WritingRun,
};

fn typed(action: LoopAction) -> (String, String, Option<String>) {
    match action {
        LoopAction::Type(edit, clip) => (edit.previous, edit.next, clip),
        _ => panic!("expected an edit"),
    }
}

fn interpreted(action: LoopAction) -> String {
    match action {
        LoopAction::Interpret(text) => text,
        _ => panic!("expected a segment to interpret"),
    }
}

#[test]
fn partial_then_final_then_repeated_final() {
    let mut session = DictationLoop::new();
    assert_eq!(typed(session.on_event(LoopEvent::Partial("hello".to_string()))), (String::new(), "hello".to_string(), None));
    assert_eq!(
        typed(session.on_event(LoopEvent::Partial("hello there".to_string()))),
        ("hello".to_string(), "hello there".to_string(), None)
    );
    assert_eq!(interpreted(session.on_event(LoopEvent::Final("hello there".to_string(), "0.000:1.000:hello there".to_string()))), "hello there");
    assert!(matches!(
        session.on_event(LoopEvent::Final("hello there".to_string(), "0.000:1.000:hello there".to_string())),
        LoopAction::Ignore
    ));
    // A turn end whose transcript was already handled commits the open turn literally.
    let (previous, next, clip) = typed(session.on_event(LoopEvent::TurnEndedWithTranscript(
        "hello there".to_string(),
        "0.000:1.000:hello there".to_string(),
    )));
    assert_eq!(previous, "hello there");
    assert_eq!(next, "hello there");
    assert_eq!(clip.as_deref(), Some("hello there"));
    assert_eq!(session.transcript.committed_prefix, "hello there");
    assert!(matches!(session.on_event(LoopEvent::TurnEnded), LoopAction::Ignore));
}

#[test]
fn stopping_waits_for_the_grace_period() {
    let mut session = DictationLoop::new();
    assert!(matches!(session.on_event(LoopEvent::GraceElapsed), LoopAction::Ignore));
    assert!(matches!(session.on_event(LoopEvent::StopRequested), LoopAction::ShutDown));
    assert!(session.shutting_down);
    assert!(matches!(session.on_event(LoopEvent::StopRequested), LoopAction::Ignore));
    assert!(matches!(session.on_event(LoopEvent::AudioEnded), LoopAction::Ignore));
    match session.on_event(LoopEvent::GraceElapsed) {
        LoopAction::Finish(update, forget) => {
            assert!(!forget);
            assert_eq!(update.state, Some(DictationState::Idle));
            assert_eq!(update.partial_transcript, Some(None));
        }
        _ => panic!("expected the session to finish"),
    }
}

#[test]
fn backend_trouble_is_reported() {
    let mut session = DictationLoop::new();
    match session.on_event(LoopEvent::Warning("socket closed".to_string())) {
        LoopAction::Publish(update) => {
            assert_eq!(update.state, Some(DictationState::Error));
            assert_eq!(update.last_transcription_error, Some(Some("socket closed".to_string())));
        }
        _ => panic!("expected an update"),
    }
    match session.on_event(LoopEvent::AudioEnded) {
        LoopAction::Finish(update, forget) => {
            assert!(forget);
            assert_eq!(update.last_error, Some(Some("Audio stream ended unexpectedly".to_string())));
            assert_eq!(update.last_transcription_error, None);
        }
        _ => panic!("expected the session to finish"),
    }
    match session.on_event(LoopEvent::BackendState("Listening (cloud)".to_string())) {
        LoopAction::Publish(update) => {
            assert_eq!(update.transcription_state, Some(Some("Listening (cloud)".to_string())));
            assert_eq!(update.state, None);
        }
        _ => panic!("expected an update"),
    }
    assert!(matches!(session.on_event(LoopEvent::BackendClosed), LoopAction::Finish(_, true)));
}

#[test]
fn segments_follow_the_interpreter() {
    let config = IntelligenceConfig::default();
    let mut session = DictationLoop::new();
    let request = cli_test_request(&config, "hello world", None);

    match session.plan_segment(&config, &request, Err("invalid state: offline".to_string())) {
        SegmentPlan::Literal(edit, clip, Some(update)) => {
            assert_eq!(edit.next, "hello world");
            assert_eq!(clip.as_deref(), Some("hello world"));
            assert_eq!(update.last_llm_error, Some(Some("invalid state: offline".to_string())));
            assert_eq!(update.intelligence_state, Some(Some("Literal fallback".to_string())));
        }
        _ => panic!("expected a literal fallback"),
    }

    let request = cli_test_request(&config, "and more", None);
    match session.plan_segment(&config, &request, Ok(SegmentDecision::literal("and more."))) {
        SegmentPlan::Apply(edit, clip, resolved) => {
            assert_eq!(edit.previous, "hello world");
            assert_eq!(edit.next, "hello world and more.");
            assert_eq!(clip.as_deref(), Some("and more."));
            assert!(resolved.actions.is_empty());
        }
        _ => panic!("expected the decision to apply"),
    }

    let lock = ActionCommand {
        action_type: ActionType::Shortcut,
        key: Some(ActionKey::L),
        modifiers: vec![ModifierKey::Super],
        repeat: 1,
        command_id: None,
        target_app: None,
    };
    let mut locked = SegmentDecision::literal("");
    locked.kind = DecisionKind::Action;
    locked.actions = vec![lock];
    let request = cli_test_request(&config, "lock it", None);
    match session.plan_segment(&config, &request, Ok(locked)) {
        SegmentPlan::Literal(edit, _, Some(update)) => {
            assert_eq!(edit.next, "hello world and more. lock it");
            assert_eq!(
                update.last_llm_error,
                Some(Some("invalid state: shortcut Super+L is blocked by the built-in safety policy".to_string()))
            );
            assert_eq!(update.last_resolution, Some(None));
        }
        _ => panic!("expected a literal fallback"),
    }
}

#[test]
fn generation_runs_stream_and_finish() {
    let config = IntelligenceConfig::default();
    let mut session = DictationLoop::new();
    session.on_event(LoopEvent::Partial("write a haiku".to_string()));
    let request = cli_test_request(&config, "write a haiku", None);
    let mut decision = SegmentDecision::literal("");
    decision.kind = DecisionKind::Generation;
    decision.generation_prompt = Some("a haiku".to_string());
    decision.generation_style = Some(GenerationStyle::PlainText);
    decision.replace_current_segment = true;
    let (edit, generation, mut run) = match session.plan_segment(&config, &request, Ok(decision.clone())) {
        SegmentPlan::Write(edit, generation, run) => (edit, generation, run),
        _ => panic!("expected autonomous writing"),
    };
    assert_eq!(edit.previous, "write a haiku");
    assert_eq!(edit.next, "");
    assert_eq!(generation.generation_style, GenerationStyle::PlainText);
    assert_eq!(generation.request_text, "write a haiku");

    assert!(run.push_delta("").is_none());
    let first = run.push_delta("Quiet").expect("shown");
    assert_eq!((first.previous.as_str(), first.next.as_str()), ("", "Quiet"));
    let second = run.push_delta(" pond").expect("shown");
    assert_eq!(second.next, "Quiet pond");

    let outcome = finish_writing(&run, &mut session.transcript, WritingEnd::Complete, "write a haiku");
    assert!(outcome.fallback.is_none());
    assert_eq!(outcome.update.generation_state, Some(Some("Generation complete".to_string())));
    assert_eq!(session.transcript.committed_prefix, "Quiet pond");

    let mut disabled = config.clone();
    disabled.generation_enabled = false;
    let request = cli_test_request(&disabled, "write more", None);
    match session.plan_segment(&disabled, &request, Ok(decision)) {
        SegmentPlan::Literal(edit, _, None) => assert_eq!(edit.next, "Quiet pond write more"),
        _ => panic!("expected a literal fallback"),
    }
}

#[test]
fn failed_writing_falls_back_to_the_words() {
    let mut transcript = TranscriptState::new();
    let run = WritingRun::start("");
    let outcome = finish_writing(&run, &mut transcript, WritingEnd::Failed("timeout".to_string()), "draft a note");
    let (edit, clip) = outcome.fallback.expect("typed literally");
    assert_eq!(edit.next, "draft a note");
    assert_eq!(clip.as_deref(), Some("draft a note"));
    assert_eq!(outcome.update.generation_state, Some(Some("Literal fallback".to_string())));
    assert_eq!(outcome.update.last_generation_error, Some(Some("timeout".to_string())));

    let mut transcript = TranscriptState::new();
    let mut run = WritingRun::start("");
    run.push_delta("Part");
    let outcome = finish_writing(&run, &mut transcript, WritingEnd::Stopped, "draft a note");
    assert!(outcome.fallback.is_none());
    assert_eq!(transcript.committed_prefix, "Part");
    assert_eq!(outcome.update.intelligence_state, Some(Some("Generation stopped".to_string())));
}

#[test]
fn segment_status_updates() {
    let update = resolving_update();
    assert_eq!(update.intelligence_state, Some(Some("Resolving segment".to_string())));
    assert_eq!(update.last_llm_error, Some(None));
    let update = actions_failed_update("no device");
    assert_eq!(update.last_llm_error, Some(Some("Action execution failed: no device".to_string())));
    let mut decision = SegmentDecision::literal("x");
    decision.rewrite_scope = RewriteScope::CurrentBlock;
    decision.format_kind = FormatKind::NumberedList;
    let resolved = ResolvedActions { actions: Vec::new(), description: Some("Enter".to_string()) };
    let update = decision_applied_update(&decision, &resolved);
    assert_eq!(update.intelligence_state, Some(Some("Formatting current block".to_string())));
    assert_eq!(update.last_resolution, Some(Some("Enter".to_string())));
    assert_eq!(update.last_decision_kind, Some(Some(DecisionKind::Literal)));
}

#[test]
fn session_start_checks() {
    let config = AppConfig::default();
    match session_microphone(&config, &Vec::new()) {
        Err(WisprError::InvalidState(m)) => {
            assert_eq!(m, "No valid microphone is selected. Open wispr-settings and choose a microphone.")
        }
        _ => panic!("expected an error"),
    }
    let mic = DeviceChoice {
        node_name: "alsa_input.usb".to_string(),
        display_name: "USB Mic".to_string(),
        fallback_description: "USB".to_string(),
    };
    assert_eq!(session_microphone(&config, &vec![mic.clone()]).expect("chosen"), mic);
    match keyboard_open_error("permission denied") {
        WisprError::InvalidState(m) => assert_eq!(m, "Typing engine failed to open /dev/uinput: permission denied"),
        _ => panic!("expected an invalid-state error"),
    }
    assert_eq!(request_reply(true, true), "Dictation is already active");
    assert_eq!(request_reply(false, false), "Dictation is not active");
    assert_eq!(request_reply(true, false), "Started dictation");
    assert_eq!(request_reply(false, true), "Stopped dictation");
    assert_eq!(WisprError::InvalidState("x".to_string()).text(), "invalid state: x");
    assert_eq!(WisprError::Message("plain".to_string()).text(), "plain");
}

#[test]
fn daemon_replies_and_errors() {
    assert_eq!(deepgram_key(Some("dg".to_string())).expect("stored"), "dg");
    match deepgram_key(None) {
        Err(WisprError::InvalidState(m)) => assert_eq!(m, "No Deepgram API key is stored yet. Open wispr-settings first."),
        _ => panic!("expected an error"),
    }
    assert_eq!(audio_forward_error(true).text(), "invalid state: Failed to forward audio to Deepgram");
    assert_eq!(bus_reply(Ok("Started dictation".to_string())), "Started dictation");
    assert_eq!(bus_reply(Err(WisprError::Dbus("no bus".to_string()))), "dbus error: no bus");
    assert_eq!(settings_reply(Ok(())), "Opened settings");
    assert_eq!(settings_reply(Err("not found".to_string())), "Failed to open settings: not found");
    assert!(portal_failure_message().starts_with("Portal shortcut binding failed."));
}

#[test]
fn an_open_block_keeps_its_spoken_words_and_format() {
    let config = IntelligenceConfig::default();
    let mut session = DictationLoop::new();
    let mut list = SegmentDecision::literal("1. milk");
    list.rewrite_scope = RewriteScope::CurrentBlock;
    list.format_kind = FormatKind::NumberedList;
    list.keep_block_open = true;
    let request = cli_test_request(&config, "buy milk", None);
    match session.plan_segment(&config, &request, Ok(list)) {
        SegmentPlan::Apply(edit, _, _) => assert_eq!(edit.next, "1. milk"),
        _ => panic!("expected the decision to apply"),
    }
    let block = session.transcript.active_block.as_ref().expect("the block stays open");
    assert_eq!(block.raw_text, "buy milk");
    assert_eq!(block.rendered_text, "1. milk");
    assert_eq!(block.format_kind, FormatKind::NumberedList);
    assert_eq!(session.transcript.committed_prefix, "");

    let mut more = SegmentDecision::literal("1. milk\n2. eggs");
    more.rewrite_scope = RewriteScope::CurrentBlock;
    more.format_kind = FormatKind::NumberedList;
    more.keep_block_open = true;
    let request = cli_test_request(&config, "and eggs", None);
    match session.plan_segment(&config, &request, Ok(more)) {
        SegmentPlan::Apply(edit, _, _) => assert_eq!(edit.next, "1. milk\n2. eggs"),
        _ => panic!("expected the decision to apply"),
    }
    let block = session.transcript.active_block.as_ref().expect("the block stays open");
    assert_eq!(block.raw_text, "buy milk and eggs");
    assert_eq!(block.rendered_text, "1. milk\n2. eggs");
}
