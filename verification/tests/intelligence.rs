use wispr_core::config::IntelligenceConfig;
use wispr_core::error::WisprError;
use wispr_core::llm::{
    actions_match, attach_flag_after_double_dash, connection_test_request, dedupe_actions,
    describe_action, extract_sse_data, generation_timeout_ms, infer_key_from_spoken_text,
    infer_literal_and_key_action, is_azure_compatible_base_url, normalize_command_text,
    normalize_symbol_words, pop_sse_frame, request_timeout_ms, responses_endpoint,
    should_retry_non_streaming, truncate_for_error, validate_action, validate_decision,
};
use wispr_core::models::{
    ActionCommand, ActionKey, ActionScope, ActionType, ActiveAppClass, ActiveAppContext,
    DecisionKind, FormatKind, GenerationStyle, ModifierKey, RewriteScope, SegmentDecision,
    SemanticCommandId,
};
use wispr_core::reports::cli_test_request;
use wispr_core::shortcuts::{
    builtin_denylist, combo_id, normalize_combo_text, parse_combo_list, resolve_actions,
    resolve_semantic_command,
};

fn key(k: ActionKey) -> ActionCommand {
    ActionCommand {
        action_type: ActionType::Key,
        key: Some(k),
        modifiers: Vec::new(),
        repeat: 1,
        command_id: None,
        target_app: None,
    }
}

fn chord(k: ActionKey, modifiers: Vec<ModifierKey>) -> ActionCommand {
    ActionCommand {
        action_type: ActionType::Shortcut,
        key: Some(k),
        modifiers,
        repeat: 1,
        command_id: None,
        target_app: None,
    }
}

fn semantic(c: SemanticCommandId) -> ActionCommand {
    ActionCommand {
        action_type: ActionType::SemanticCommand,
        key: None,
        modifiers: Vec::new(),
        repeat: 1,
        command_id: Some(c),
        target_app: None,
    }
}

fn decision(kind: DecisionKind, text: &str, actions: Vec<ActionCommand>) -> SegmentDecision {
    SegmentDecision {
        kind,
        rewrite_scope: RewriteScope::Segment,
        format_kind: FormatKind::Plain,
        text_to_emit: text.to_string(),
        keep_block_open: false,
        actions,
        generation_prompt: None,
        generation_style: None,
        replace_current_segment: false,
    }
}

fn invalid_message(e: &WisprError) -> String {
    match e {
        WisprError::InvalidState(m) => m.clone(),
        other => panic!("unexpected error {:?}", other),
    }
}

fn chars(s: &str) -> Vec<char> {
    s.chars().collect()
}

#[test]
fn spoken_dashes_become_a_flag() {
    assert_eq!(normalize_command_text("flutter dash dash version"), "flutter --version");
    assert_eq!(normalize_command_text("  git minus minus help "), "git --help");
    assert_eq!(normalize_command_text("cd src / main . rs"), "cd src/main.rs");
    assert_eq!(normalize_command_text("   "), "");
    let words: String = normalize_symbol_words(&chars("ls Hyphen dash la")).into_iter().collect();
    assert_eq!(words, "ls -- la");
    let attached: String = attach_flag_after_double_dash(&chars("run -- release -- $x")).into_iter().collect();
    assert_eq!(attached, "run --release -- $x");
}

#[test]
fn last_spoken_word_names_a_key() {
    assert_eq!(infer_key_from_spoken_text(&chars("  Press RETURN ")), Some(ActionKey::Enter));
    assert_eq!(infer_key_from_spoken_text(&chars("hit f5")), Some(ActionKey::F5));
    assert_eq!(infer_key_from_spoken_text(&chars("esc")), Some(ActionKey::Escape));
    assert_eq!(infer_key_from_spoken_text(&chars("hello world")), None);
    assert_eq!(infer_key_from_spoken_text(&chars("")), None);
    assert_eq!(
        infer_literal_and_key_action("ls   dash la enter"),
        Some(("ls dash la".to_string(), ActionKey::Enter))
    );
    assert_eq!(infer_literal_and_key_action("tab"), Some((String::new(), ActionKey::Tab)));
    assert_eq!(infer_literal_and_key_action("just words"), None);
}

#[test]
fn literal_with_trailing_key_becomes_literal_and_action() {
    let config = IntelligenceConfig::default();
    let request = cli_test_request(&config, "flutter dash dash version enter", None);
    let out = validate_decision(&request, decision(DecisionKind::Literal, "flutter dash dash version enter", Vec::new()))
        .expect("valid");
    assert_eq!(out.kind, DecisionKind::LiteralAndAction);
    assert_eq!(out.text_to_emit, "flutter --version");
    assert_eq!(out.actions, vec![key(ActionKey::Enter)]);

    let only_key = cli_test_request(&config, "enter", Some(ActiveAppContext { app_class: ActiveAppClass::Terminal, app_id: None }));
    let out = validate_decision(&only_key, decision(DecisionKind::Literal, "enter", Vec::new())).expect("valid");
    assert_eq!(out.kind, DecisionKind::Action);
    assert_eq!(out.text_to_emit, "");
    assert_eq!(out.actions[0].target_app, Some(ActiveAppClass::Terminal));
}

#[test]
fn blank_literal_falls_back_to_the_spoken_text() {
    let config = IntelligenceConfig::default();
    let request = cli_test_request(&config, "hello there", None);
    let out = validate_decision(&request, decision(DecisionKind::Literal, "   ", Vec::new())).expect("valid");
    assert_eq!(out, SegmentDecision::literal("hello there"));
}

#[test]
fn missing_key_is_filled_from_the_spoken_text() {
    let config = IntelligenceConfig::default();
    let request = connection_test_request(&config);
    let mut keyless = key(ActionKey::Enter);
    keyless.key = None;
    let out = validate_decision(&request, decision(DecisionKind::Action, "hello", vec![keyless])).expect("valid");
    assert_eq!(out.kind, DecisionKind::LiteralAndAction);
    assert_eq!(out.text_to_emit, "hello");
    assert_eq!(out.actions, vec![key(ActionKey::Enter)]);
}

#[test]
fn duplicate_actions_are_dropped_and_invalid_ones_refused() {
    let config = IntelligenceConfig::default();
    let request = cli_test_request(&config, "copy that", None);
    let copy = chord(ActionKey::C, vec![ModifierKey::Ctrl]);
    let out = validate_decision(&request, decision(DecisionKind::Action, "", vec![copy.clone(), copy.clone()])).expect("valid");
    assert_eq!(out.kind, DecisionKind::Action);
    assert_eq!(out.actions, vec![copy.clone()]);

    let bad = chord(ActionKey::C, Vec::new());
    let err = validate_decision(&request, decision(DecisionKind::Action, "", vec![bad])).unwrap_err();
    assert_eq!(invalid_message(&err), "shortcut Some(C) requires at least one modifier");

    let mut many = key(ActionKey::Tab);
    many.repeat = 13;
    let err = validate_action(&many, &ActionScope::EditingOnly).unwrap_err();
    assert_eq!(invalid_message(&err), "repeat count 13 is outside the supported range");

    let doubled = chord(ActionKey::C, vec![ModifierKey::Ctrl, ModifierKey::Ctrl]);
    let err = validate_action(&doubled, &ActionScope::EditingOnly).unwrap_err();
    assert_eq!(invalid_message(&err), "duplicate modifiers are not allowed");
}

#[test]
fn generation_decisions_are_made_canonical() {
    let config = IntelligenceConfig::default();
    let request = cli_test_request(&config, "write an email", None);
    let mut gen = decision(DecisionKind::Generation, "ignored", Vec::new());
    gen.generation_prompt = Some("  an email to Sam  ".to_string());
    gen.replace_current_segment = true;
    let out = validate_decision(&request, gen.clone()).expect("valid");
    assert_eq!(out.kind, DecisionKind::Generation);
    assert_eq!(out.text_to_emit, "");
    assert!(out.actions.is_empty());
    assert_eq!(out.generation_prompt.as_deref(), Some("an email to Sam"));
    assert_eq!(out.generation_style, Some(GenerationStyle::Generic));

    let mut missing = gen.clone();
    missing.generation_prompt = Some("   ".to_string());
    let err = validate_decision(&request, missing).unwrap_err();
    assert_eq!(invalid_message(&err), "generation decision is missing generation_prompt");

    let mut with_actions = gen.clone();
    with_actions.actions = vec![key(ActionKey::Enter)];
    let err = validate_decision(&request, with_actions).unwrap_err();
    assert_eq!(invalid_message(&err), "generation decision cannot include actions");

    let mut appending = gen;
    appending.replace_current_segment = false;
    let err = validate_decision(&request, appending).unwrap_err();
    assert_eq!(invalid_message(&err), "generation decision must replace the current segment");
}

#[test]
fn dedupe_keeps_first_of_each() {
    let a = key(ActionKey::Enter);
    let mut a_other_target = key(ActionKey::Enter);
    a_other_target.target_app = Some(ActiveAppClass::Browser);
    let b = key(ActionKey::Tab);
    assert!(actions_match(&a, &a_other_target));
    assert!(!actions_match(&a, &b));
    let out = dedupe_actions(vec![a.clone(), b.clone(), a_other_target, b.clone()]);
    assert_eq!(out, vec![a, b]);
}

#[test]
fn actions_are_described_for_errors() {
    let mut redo = chord(ActionKey::Z, vec![ModifierKey::Ctrl, ModifierKey::Shift]);
    redo.repeat = 2;
    assert_eq!(describe_action(&redo), "Ctrl+Shift+Some(Z) x2");
    assert_eq!(describe_action(&key(ActionKey::Enter)), "Some(Enter)");
    let mut find = semantic(SemanticCommandId::Find);
    find.target_app = Some(ActiveAppClass::Browser);
    assert_eq!(describe_action(&find), "Find for Browser");
}

#[test]
fn semantic_commands_resolve_to_shortcuts() {
    let config = IntelligenceConfig::default();
    let resolved = resolve_actions(
        &config,
        &[semantic(SemanticCommandId::Redo), key(ActionKey::Enter)],
        None,
    )
    .expect("resolved");
    assert_eq!(
        resolved.actions,
        vec![chord(ActionKey::Z, vec![ModifierKey::Ctrl, ModifierKey::Shift]), key(ActionKey::Enter)]
    );
    assert_eq!(resolved.description.as_deref(), Some("Ctrl+Shift+Z, Enter"));

    let empty = resolve_actions(&config, &[], None).expect("resolved");
    assert!(empty.actions.is_empty());
    assert_eq!(empty.description, None);

    let one = resolve_semantic_command(&semantic(SemanticCommandId::NextTab), None).expect("resolved");
    assert_eq!(one, vec![chord(ActionKey::PageDown, vec![ModifierKey::Ctrl])]);
    let err = resolve_semantic_command(&key(ActionKey::Enter), None).unwrap_err();
    assert_eq!(invalid_message(&err), "semantic command is missing command_id");
}

#[test]
fn keyboard_policy_refuses_what_it_should() {
    let mut config = IntelligenceConfig::default();
    let lock = chord(ActionKey::L, vec![ModifierKey::Super]);
    let err = resolve_actions(&config, &[lock], None).unwrap_err();
    assert_eq!(invalid_message(&err), "shortcut Super+L is blocked by the built-in safety policy");

    config.shortcut_allowlist = vec!["ctrl + c, ctrl+v".to_string()];
    let ok = resolve_actions(&config, &[chord(ActionKey::V, vec![ModifierKey::Ctrl])], None);
    assert!(ok.is_ok());
    let err = resolve_actions(&config, &[chord(ActionKey::S, vec![ModifierKey::Ctrl])], None).unwrap_err();
    assert_eq!(invalid_message(&err), "shortcut Ctrl+S is not in the configured allowlist");

    config.shortcut_allowlist = Vec::new();
    config.shortcut_denylist = vec!["Ctrl+S".to_string()];
    let err = resolve_actions(&config, &[chord(ActionKey::S, vec![ModifierKey::Ctrl])], None).unwrap_err();
    assert_eq!(invalid_message(&err), "shortcut Ctrl+S is blocked by the configured denylist");

    config.semantic_commands_enabled = false;
    let err = resolve_actions(&config, &[semantic(SemanticCommandId::Copy)], None).unwrap_err();
    assert_eq!(invalid_message(&err), "semantic commands are disabled by policy");

    config.dynamic_shortcuts_enabled = false;
    let err = resolve_actions(&config, &[chord(ActionKey::C, vec![ModifierKey::Ctrl])], None).unwrap_err();
    assert_eq!(invalid_message(&err), "dynamic shortcuts are disabled by policy");
    assert!(resolve_actions(&config, &[key(ActionKey::Tab)], None).is_ok());
}

#[test]
fn combo_names_are_normalized() {
    assert_eq!(normalize_combo_text(" ctrl + alt+delete "), "CTRL+ALT+DELETE");
    assert_eq!(
        parse_combo_list(&vec!["ctrl+c,\n , super+l".to_string(), "".to_string()]),
        vec!["CTRL+C".to_string(), "SUPER+L".to_string()]
    );
    assert_eq!(
        builtin_denylist(wispr_core::models::ShortcutDenylistProfile::Minimal),
        vec!["CTRL+ALT+DELETE".to_string(), "SUPER+L".to_string()]
    );
    assert_eq!(combo_id(&chord(ActionKey::Digit1, vec![ModifierKey::Alt])).expect("named"), "Alt+1");
    assert!(combo_id(&semantic(SemanticCommandId::Copy)).is_err());
}

#[test]
fn sse_frames_and_endpoints() {
    let mut buffer = "data: {\"a\":1}\r\n\r\ndata: rest".to_string();
    assert_eq!(pop_sse_frame(&mut buffer), Some("data: {\"a\":1}".to_string()));
    assert_eq!(buffer, "data: rest");
    assert_eq!(pop_sse_frame(&mut buffer), None);
    assert_eq!(extract_sse_data("event: x\ndata: one\ndata:two"), Some("one\ntwo".to_string()));
    assert_eq!(extract_sse_data("event: ping"), None);

    assert_eq!(responses_endpoint("https://x.example/v1//"), "https://x.example/v1/responses");
    assert!(is_azure_compatible_base_url("https://Foo.OpenAI.Azure.com/openai/v1"));
    assert!(!is_azure_compatible_base_url("https://api.openai.com/v1"));

    let long = "x".repeat(401);
    assert_eq!(truncate_for_error(&long), format!("{}...", "x".repeat(400)));
    assert_eq!(truncate_for_error("short"), "short");

    assert!(should_retry_non_streaming(&WisprError::Http("error decoding response body".to_string())));
    assert!(should_retry_non_streaming(&WisprError::InvalidState("model returned no structured output".to_string())));
    assert!(!should_retry_non_streaming(&WisprError::Http("timeout".to_string())));

    let mut config = IntelligenceConfig::default();
    assert_eq!(request_timeout_ms(&config), 2500);
    assert_eq!(generation_timeout_ms(&config), 120000);
    config.timeout_ms = 0;
    config.generation_timeout_ms = 10;
    assert_eq!(request_timeout_ms(&config), 250);
    assert_eq!(generation_timeout_ms(&config), 1000);
}

#[test]
fn resolving_a_concatenation_resolves_each_part() {
    let config = IntelligenceConfig::default();
    let xs = vec![semantic(SemanticCommandId::Redo)];
    let ys = vec![key(ActionKey::Enter), chord(ActionKey::V, vec![ModifierKey::Ctrl])];
    let both: Vec<ActionCommand> = xs.iter().chain(ys.iter()).cloned().collect();
    let a = resolve_actions(&config, &xs, None).expect("resolved");
    let b = resolve_actions(&config, &ys, None).expect("resolved");
    let ab = resolve_actions(&config, &both, None).expect("resolved");
    let mut joined = a.actions.clone();
    joined.extend(b.actions.clone());
    assert_eq!(ab.actions, joined);
    assert_eq!(
        ab.description,
        Some(format!("{}, {}", a.description.unwrap(), b.description.unwrap()))
    );
    // A part that fails makes the whole fail with its error.
    let refused = vec![chord(ActionKey::L, vec![ModifierKey::Super])];
    let with_refused: Vec<ActionCommand> = xs.iter().chain(refused.iter()).cloned().collect();
    assert_eq!(
        invalid_message(&resolve_actions(&config, &with_refused, None).unwrap_err()),
        invalid_message(&resolve_actions(&config, &refused, None).unwrap_err())
    );
}

#[test]
fn deduplicating_twice_changes_nothing() {
    let a = key(ActionKey::Enter);
    let b = key(ActionKey::Tab);
    let once = dedupe_actions(vec![a.clone(), b.clone(), a.clone(), b, a]);
    let twice = dedupe_actions(once.clone());
    assert_eq!(once, twice);
    for (i, x) in once.iter().enumerate() {
        for y in &once[i + 1..] {
            assert!(!actions_match(x, y));
        }
    }
}
