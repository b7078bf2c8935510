use wispr_core::config::IntelligenceConfig;
use wispr_core::models::{
    ActionCommand, ActionKey, ActionType, DecisionKind, FormatKind, GenerationStyle, RewriteScope,
    SegmentDecision,
};
use wispr_core::session::{closes_block, decision_state_label, generation_request, AudioChunker, FinalDeduper, TranscriptState, CLOUD_FRAME_BYTES};
use wispr_core::shortcuts::ResolvedActions;
use wispr_core::transcript::{
    append_block, append_turn, clipboard_text_for_decision, needs_separator, next_block_raw,
    normalized_literal_clipboard_text, recent_text_window, render_generated_output,
    render_literal_fallback, render_with_segment_decision, FormattingBlock,
};

fn decision_with_kind(kind: DecisionKind, text: &str) -> SegmentDecision {
    SegmentDecision {
        kind,
        rewrite_scope: RewriteScope::Segment,
        format_kind: FormatKind::Plain,
        text_to_emit: text.to_string(),
        keep_block_open: false,
        actions: Vec::new(),
        generation_prompt: None,
        generation_style: None,
        replace_current_segment: false,
    }
}

fn enter_key() -> ActionCommand {
    ActionCommand {
        action_type: ActionType::Key,
        key: Some(ActionKey::Enter),
        modifiers: Vec::new(),
        repeat: 1,
        command_id: None,
        target_app: None,
    }
}

#[test]
fn clipboard_copy_is_limited_to_pure_literal_decisions() {
    let literal = SegmentDecision::literal("hello world");
    let action = decision_with_kind(DecisionKind::Action, "copy");
    let literal_and_action = SegmentDecision {
        actions: vec![enter_key()],
        ..decision_with_kind(DecisionKind::LiteralAndAction, "hello")
    };
    let generation = decision_with_kind(DecisionKind::Generation, "");

    assert_eq!(clipboard_text_for_decision(&literal), Some("hello world".to_string()));
    assert_eq!(clipboard_text_for_decision(&action), None);
    assert_eq!(clipboard_text_for_decision(&literal_and_action), None);
    assert_eq!(clipboard_text_for_decision(&generation), None);
}

#[test]
fn literal_fallback_clipboard_text_matches_segment_emission() {
    let literal_text = "  pasted later  ";
    let rendered_segment = render_with_segment_decision("", None, literal_text, &FormatKind::Plain);
    let rendered_with_prefix = render_literal_fallback("already there", None, literal_text);

    assert_eq!(normalized_literal_clipboard_text(literal_text), Some(rendered_segment));
    assert_eq!(rendered_with_prefix, "already there pasted later");
}

#[test]
fn blank_text_is_not_copied() {
    assert_eq!(normalized_literal_clipboard_text("   "), None);
}

#[test]
fn turns_are_joined_with_spaces_except_around_punctuation() {
    assert_eq!(append_turn("hello", " world "), "hello world");
    assert_eq!(append_turn("hello", ", world"), "hello, world");
    assert_eq!(append_turn("(", "aside"), "(aside");
    assert_eq!(append_turn("", "  first "), "first");
    assert_eq!(append_turn("kept", "   "), "kept");
    let left: Vec<char> = "a".chars().collect();
    let right: Vec<char> = "b".chars().collect();
    assert!(needs_separator(&left, &right));
}

#[test]
fn lists_start_on_a_new_line() {
    assert_eq!(append_block("Shopping:", "1. eggs", &FormatKind::NumberedList), "Shopping:\n1. eggs");
    assert_eq!(append_block("Shopping:\n", "- milk", &FormatKind::BulletList), "Shopping:\n- milk");
    assert_eq!(append_block("Note", "two\nlines", &FormatKind::Plain), "Note\ntwo\nlines");
    assert_eq!(append_block("Note", "plain", &FormatKind::Plain), "Note plain");
}

#[test]
fn generated_text_is_kept_as_it_came() {
    assert_eq!(render_generated_output("Dear Sam,", "\nThanks"), "Dear Sam,\nThanks");
    assert_eq!(render_generated_output("Hi", "there"), "Hi there");
    assert_eq!(render_generated_output("", "  spaced"), "  spaced");
    assert_eq!(render_generated_output("Hi", ""), "Hi");
}

#[test]
fn block_raw_text_grows_by_the_finalized_segment() {
    let block = FormattingBlock {
        raw_text: "buy eggs".to_string(),
        rendered_text: "1. eggs".to_string(),
        format_kind: FormatKind::NumberedList,
    };
    assert_eq!(next_block_raw(Some(&block), " and milk "), "buy eggs and milk");
    assert_eq!(next_block_raw(None, "  first  "), "first");
}

#[test]
fn recent_window_keeps_the_last_characters() {
    assert_eq!(recent_text_window("hello world", 5), "world");
    assert_eq!(recent_text_window("hi", 5), "hi");
    assert_eq!(recent_text_window("hi", 0), "");
}

#[test]
fn partial_and_literal_commit_keep_screen_and_state_in_step() {
    let mut state = TranscriptState::new();
    let edit = state.show_partial("hello wor");
    assert_eq!(edit.previous, "");
    assert_eq!(edit.next, "hello wor");
    assert_eq!(state.render(), "hello wor");

    let commit = state.commit_literal("hello world");
    assert_eq!(commit.next, "hello world");
    assert_eq!(commit.clipboard, Some("hello world".to_string()));
    assert_eq!(state.committed_prefix, "hello world");
    assert_eq!(state.render(), commit.next);
    assert!(state.active_turn.is_empty());

    state.show_partial("again");
    assert_eq!(state.render(), "hello world again");
}

#[test]
fn unresolved_turn_is_committed_or_dropped() {
    let mut state = TranscriptState::new();
    state.show_partial("   ");
    assert!(state.finalize_unresolved_turn().is_none());
    assert!(state.active_turn.is_empty());

    state.commit_literal("Start.");
    state.show_partial("more words");
    let (edit, clip) = state.finalize_unresolved_turn().expect("a commit");
    assert_eq!(edit.previous, "Start. more words");
    assert_eq!(edit.next, "Start. more words");
    assert_eq!(clip, Some("more words".to_string()));
    assert_eq!(state.committed_prefix, "Start. more words");
}

#[test]
fn block_decisions_build_and_then_close_the_block() {
    let mut state = TranscriptState::new();
    state.commit_literal("To do:");
    let mut decision = decision_with_kind(DecisionKind::Literal, "1. laundry");
    decision.rewrite_scope = RewriteScope::CurrentBlock;
    decision.format_kind = FormatKind::NumberedList;
    decision.keep_block_open = true;
    let next = state.apply_decision(&decision, "laundry", false);
    assert_eq!(next, "To do:\n1. laundry");
    assert_eq!(state.committed_prefix, "To do:");
    let block = state.active_block.as_ref().expect("an open block");
    assert_eq!(block.raw_text, "laundry");
    assert_eq!(state.render(), next);

    decision.text_to_emit = "1. laundry\n2. dishes".to_string();
    let next = state.apply_decision(&decision, "dishes", true);
    assert_eq!(next, "To do:\n1. laundry\n2. dishes");
    assert_eq!(state.committed_prefix, next);
    assert!(state.active_block.is_none());
}

#[test]
fn segment_decisions_commit_after_the_block() {
    let mut state = TranscriptState::new();
    state.commit_literal("Hello");
    let decision = decision_with_kind(DecisionKind::Literal, "world");
    let next = state.apply_decision(&decision, "world", false);
    assert_eq!(next, "Hello world");
    assert_eq!(state.committed_prefix, "Hello world");
}

#[test]
fn generation_prefix_and_commit() {
    let mut state = TranscriptState::new();
    state.commit_literal("Intro");
    state.show_partial("write an essay");
    assert_eq!(state.generation_prefix(), "Intro");
    state.commit_rendered("Intro Essay text");
    assert_eq!(state.render(), "Intro Essay text");
}

#[test]
fn decision_request_carries_context() {
    let mut state = TranscriptState::new();
    state.commit_literal("some earlier text");
    let mut config = IntelligenceConfig::default();
    config.max_recent_chars = 4;
    let request = state.decision_request(&config, "new words", "id-1".to_string(), None);
    assert_eq!(request.segment_id, "id-1");
    assert_eq!(request.finalized_text, "new words");
    assert_eq!(request.literal_text, "new words");
    assert_eq!(request.recent_text, "text");
    assert_eq!(request.active_block_raw, "");
}

#[test]
fn blocks_close_on_actions_or_when_not_kept_open() {
    let mut decision = decision_with_kind(DecisionKind::Literal, "x");
    decision.keep_block_open = true;
    let none = ResolvedActions { actions: Vec::new(), description: None };
    let some = ResolvedActions { actions: vec![enter_key()], description: None };
    assert!(!closes_block(&none, &decision));
    assert!(closes_block(&some, &decision));
    decision.keep_block_open = false;
    assert!(closes_block(&none, &decision));
}

#[test]
fn decision_labels() {
    let mut decision = decision_with_kind(DecisionKind::LiteralAndAction, "x");
    assert_eq!(decision_state_label(&decision), "Decision: literal_and_action");
    decision.rewrite_scope = RewriteScope::CurrentBlock;
    assert_eq!(decision_state_label(&decision), "Formatting current block");
}

#[test]
fn generation_requests_need_a_prompt_and_generation_enabled() {
    let state = TranscriptState::new();
    let request = state.decision_request(&IntelligenceConfig::default(), "write an email", "s".to_string(), None);
    let mut decision = decision_with_kind(DecisionKind::Generation, "");
    assert!(generation_request(true, &decision, "write an email", &request).is_none());
    decision.generation_prompt = Some("   ".to_string());
    assert!(generation_request(true, &decision, "write an email", &request).is_none());
    decision.generation_prompt = Some("an email".to_string());
    assert!(generation_request(false, &decision, "write an email", &request).is_none());
    let g = generation_request(true, &decision, "write an email", &request).expect("a request");
    assert_eq!(g.generation_prompt, "an email");
    assert_eq!(g.request_text, "write an email");
    assert_eq!(g.generation_style, GenerationStyle::Generic);
}

#[test]
fn finals_are_handled_once() {
    let mut seen = FinalDeduper::new();
    assert!(seen.insert("0.000:1.000:hello"));
    assert!(!seen.insert("0.000:1.000:hello"));
    assert!(seen.insert("1.000:1.000:world"));
}

#[test]
fn audio_goes_to_the_cloud_in_whole_chunks() {
    let mut chunker = AudioChunker::new();
    let first = chunker.push(&vec![1u8; 1000]);
    assert!(first.is_empty());
    let second = chunker.push(&vec![2u8; 2000]);
    assert_eq!(second.len(), 2);
    assert!(second.iter().all(|c| c.len() == CLOUD_FRAME_BYTES));
    assert_eq!(second[0][999], 1);
    assert_eq!(second[0][1000], 2);
    let rest = chunker.take_rest();
    assert_eq!(rest.len(), 3000 - 2 * CLOUD_FRAME_BYTES);
    assert!(chunker.take_rest().is_empty());
}
