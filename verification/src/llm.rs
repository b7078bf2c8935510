//! Checking and normalizing what the language model decided for a segment,
//! and the framing of its streamed replies.
use vstd::prelude::*;
use vstd::string::StringSliceAdditionalSpecFns;

use crate::error::{invalid_state, is_invalid_state, Result, WisprError};
use crate::models::{
    action_key_name, action_key_name_spec, action_views, app_class_name, app_class_name_spec,
    copy_action, literal_view, modifier_label, semantic_command_name, semantic_command_name_spec,
    ActionCommand, ActionKey, ActionScope, ActionType, ActionView, DecisionKind, DecisionView,
    FormatKind, GenerationStyle, ModifierKey, RewriteScope, SegmentDecision,
    SegmentDecisionRequest, TextOutputMode, CommandMode, PreferredListStyle,
    FormattingTriggerPolicy, CorrectionScope,
};
use crate::config::IntelligenceConfig;
use crate::shortcuts::key_label_spec;
use crate::text::{
    collapse, collapse_chars, contains, find, first_index, has_substr, lemma_first_index, lines,
    lines_of, str_contains, strip_prefix, trim_start, trim_start_chars, append_chars, chars_of,
    concat2, concat3, join, join_chars, lower, owned, push_char, seq_eq, string_of, to_lower_chars,
    trim, trim_chars, views, words, words_of,
};

verus! {

// ---------------------------------------------------------------------------
// Keys named at the end of spoken text
// ---------------------------------------------------------------------------

/// Whether `s` spells the literal `lit`.
fn eq_lit(s: &[char], lit: &str) -> (r: bool)
    ensures
        r == (s@ == lit@),
{
    let l = chars_of(lit);
    seq_eq(s, &l)
}

/// The function key a token names (`"f1"` to `"f12"`).
pub open spec fn function_key_spec(token: Seq<char>) -> Option<ActionKey> {
    if token == "f1"@ {
        Some(ActionKey::F1)
    } else if token == "f2"@ {
        Some(ActionKey::F2)
    } else if token == "f3"@ {
        Some(ActionKey::F3)
    } else if token == "f4"@ {
        Some(ActionKey::F4)
    } else if token == "f5"@ {
        Some(ActionKey::F5)
    } else if token == "f6"@ {
        Some(ActionKey::F6)
    } else if token == "f7"@ {
        Some(ActionKey::F7)
    } else if token == "f8"@ {
        Some(ActionKey::F8)
    } else if token == "f9"@ {
        Some(ActionKey::F9)
    } else if token == "f10"@ {
        Some(ActionKey::F10)
    } else if token == "f11"@ {
        Some(ActionKey::F11)
    } else if token == "f12"@ {
        Some(ActionKey::F12)
    } else {
        None
    }
}

/// The function key a token names.
pub fn infer_function_key(token: &[char]) -> (r: Option<ActionKey>)
    ensures
        r == function_key_spec(token@),
{
    if eq_lit(token, "f1") {
        Some(ActionKey::F1)
    } else if eq_lit(token, "f2") {
        Some(ActionKey::F2)
    } else if eq_lit(token, "f3") {
        Some(ActionKey::F3)
    } else if eq_lit(token, "f4") {
        Some(ActionKey::F4)
    } else if eq_lit(token, "f5") {
        Some(ActionKey::F5)
    } else if eq_lit(token, "f6") {
        Some(ActionKey::F6)
    } else if eq_lit(token, "f7") {
        Some(ActionKey::F7)
    } else if eq_lit(token, "f8") {
        Some(ActionKey::F8)
    } else if eq_lit(token, "f9") {
        Some(ActionKey::F9)
    } else if eq_lit(token, "f10") {
        Some(ActionKey::F10)
    } else if eq_lit(token, "f11") {
        Some(ActionKey::F11)
    } else if eq_lit(token, "f12") {
        Some(ActionKey::F12)
    } else {
        None
    }
}

/// The key named by a (lower-case) spoken word.
pub open spec fn key_word_spec(w: Seq<char>) -> Option<ActionKey> {
    if w == "enter"@ || w == "return"@ {
        Some(ActionKey::Enter)
    } else if w == "tab"@ {
        Some(ActionKey::Tab)
    } else if w == "escape"@ || w == "esc"@ {
        Some(ActionKey::Escape)
    } else if w == "backspace"@ {
        Some(ActionKey::Backspace)
    } else if w == "delete"@ {
        Some(ActionKey::Delete)
    } else if w == "space"@ {
        Some(ActionKey::Space)
    } else if w == "left"@ {
        Some(ActionKey::Left)
    } else if w == "right"@ {
        Some(ActionKey::Right)
    } else if w == "up"@ {
        Some(ActionKey::Up)
    } else if w == "down"@ {
        Some(ActionKey::Down)
    } else if w == "home"@ {
        Some(ActionKey::Home)
    } else if w == "end"@ {
        Some(ActionKey::End)
    } else {
        function_key_spec(w)
    }
}

/// A spoken key word names the key it spells: lower-cased, the key's own
/// label is the word, but for the aliases `return` (Enter) and `esc`
/// (Escape).
pub proof fn law_key_word_names_its_key(w: Seq<char>)
    ensures
        match key_word_spec(w) {
            Some(k) => lower(key_label_spec(k)) == w || (w == "return"@ && k == ActionKey::Enter) || (w
                == "esc"@ && k == ActionKey::Escape),
            None => true,
        },
{
    reveal_strlit("Enter");
    reveal_strlit("enter");
    assert(lower("Enter"@) =~= "enter"@);
    reveal_strlit("Tab");
    reveal_strlit("tab");
    assert(lower("Tab"@) =~= "tab"@);
    reveal_strlit("Escape");
    reveal_strlit("escape");
    assert(lower("Escape"@) =~= "escape"@);
    reveal_strlit("Backspace");
    reveal_strlit("backspace");
    assert(lower("Backspace"@) =~= "backspace"@);
    reveal_strlit("Delete");
    reveal_strlit("delete");
    assert(lower("Delete"@) =~= "delete"@);
    reveal_strlit("Space");
    reveal_strlit("space");
    assert(lower("Space"@) =~= "space"@);
    reveal_strlit("Left");
    reveal_strlit("left");
    assert(lower("Left"@) =~= "left"@);
    reveal_strlit("Right");
    reveal_strlit("right");
    assert(lower("Right"@) =~= "right"@);
    reveal_strlit("Up");
    reveal_strlit("up");
    assert(lower("Up"@) =~= "up"@);
    reveal_strlit("Down");
    reveal_strlit("down");
    assert(lower("Down"@) =~= "down"@);
    reveal_strlit("Home");
    reveal_strlit("home");
    assert(lower("Home"@) =~= "home"@);
    reveal_strlit("End");
    reveal_strlit("end");
    assert(lower("End"@) =~= "end"@);
    reveal_strlit("F1");
    reveal_strlit("f1");
    assert(lower("F1"@) =~= "f1"@);
    reveal_strlit("F2");
    reveal_strlit("f2");
    assert(lower("F2"@) =~= "f2"@);
    reveal_strlit("F3");
    reveal_strlit("f3");
    assert(lower("F3"@) =~= "f3"@);
    reveal_strlit("F4");
    reveal_strlit("f4");
    assert(lower("F4"@) =~= "f4"@);
    reveal_strlit("F5");
    reveal_strlit("f5");
    assert(lower("F5"@) =~= "f5"@);
    reveal_strlit("F6");
    reveal_strlit("f6");
    assert(lower("F6"@) =~= "f6"@);
    reveal_strlit("F7");
    reveal_strlit("f7");
    assert(lower("F7"@) =~= "f7"@);
    reveal_strlit("F8");
    reveal_strlit("f8");
    assert(lower("F8"@) =~= "f8"@);
    reveal_strlit("F9");
    reveal_strlit("f9");
    assert(lower("F9"@) =~= "f9"@);
    reveal_strlit("F10");
    reveal_strlit("f10");
    assert(lower("F10"@) =~= "f10"@);
    reveal_strlit("F11");
    reveal_strlit("f11");
    assert(lower("F11"@) =~= "f11"@);
    reveal_strlit("F12");
    reveal_strlit("f12");
    assert(lower("F12"@) =~= "f12"@);
}

/// The last word of `text`, lower-cased (empty when there is none).
pub open spec fn last_word_lower(text: Seq<char>) -> Seq<char> {
    let tokens = words(lower(trim(text)));
    if tokens.len() > 0 {
        tokens.last()
    } else {
        Seq::<char>::empty()
    }
}

/// The key that spoken text ends by naming, if any (`"hello enter"` names
/// Enter).
pub open spec fn infer_key_spec(text: Seq<char>) -> Option<ActionKey> {
    key_word_spec(last_word_lower(text))
}

/// The key inferred from spoken text is the one its last word spells,
/// lower-cased (or the alias `return` / `esc` of Enter / Escape).
pub proof fn law_inferred_key_is_spelled_by_last_word(text: Seq<char>)
    ensures
        match infer_key_spec(text) {
            Some(k) => lower(key_label_spec(k)) == last_word_lower(text) || (last_word_lower(text) == "return"@
                && k == ActionKey::Enter) || (last_word_lower(text) == "esc"@ && k == ActionKey::Escape),
            None => true,
        },
{
    law_key_word_names_its_key(last_word_lower(text));
}

/// The key named by a (lower-case) spoken word.
fn key_word(w: &[char]) -> (r: Option<ActionKey>)
    ensures
        r == key_word_spec(w@),
{
    if eq_lit(w, "enter") || eq_lit(w, "return") {
        Some(ActionKey::Enter)
    } else if eq_lit(w, "tab") {
        Some(ActionKey::Tab)
    } else if eq_lit(w, "escape") || eq_lit(w, "esc") {
        Some(ActionKey::Escape)
    } else if eq_lit(w, "backspace") {
        Some(ActionKey::Backspace)
    } else if eq_lit(w, "delete") {
        Some(ActionKey::Delete)
    } else if eq_lit(w, "space") {
        Some(ActionKey::Space)
    } else if eq_lit(w, "left") {
        Some(ActionKey::Left)
    } else if eq_lit(w, "right") {
        Some(ActionKey::Right)
    } else if eq_lit(w, "up") {
        Some(ActionKey::Up)
    } else if eq_lit(w, "down") {
        Some(ActionKey::Down)
    } else if eq_lit(w, "home") {
        Some(ActionKey::Home)
    } else if eq_lit(w, "end") {
        Some(ActionKey::End)
    } else {
        infer_function_key(w)
    }
}

/// The key that spoken text ends by naming, if any.
pub fn infer_key_from_spoken_text(text: &[char]) -> (r: Option<ActionKey>)
    ensures
        r == infer_key_spec(text@),
{
    let t = trim_chars(text);
    let l = to_lower_chars(&t);
    let tokens = words_of(&l);
    if tokens.len() > 0 {
        let last = &tokens[tokens.len() - 1];
        assert(views(tokens@).last() == last@);
        key_word(last.as_slice())
    } else {
        let empty: Vec<char> = Vec::new();
        assert(empty@ =~= Seq::<char>::empty());
        key_word(&empty)
    }
}

/// When spoken text ends by naming a key: the words before it, joined by
/// single spaces, and the key.
pub open spec fn literal_and_key_spec(text: Seq<char>) -> Option<(Seq<char>, ActionKey)> {
    let tokens = words(text);
    if tokens.len() == 0 {
        None
    } else {
        match infer_key_spec(tokens.last()) {
            Some(k) => Some((join(tokens.drop_last(), " "@), k)),
            None => None,
        }
    }
}

/// Splits off a key named by the last spoken word.
pub fn infer_literal_and_key_action(text: &str) -> (r: Option<(String, ActionKey)>)
    ensures
        match literal_and_key_spec(text@) {
            Some((t, k)) => r matches Some((s, key)) && s@ == t && key == k,
            None => r is None,
        },
{
    let cs = chars_of(text);
    let tokens = words_of(&cs);
    if tokens.len() == 0 {
        return None;
    }
    let last = &tokens[tokens.len() - 1];
    assert(views(tokens@).last() == last@);
    let key = match infer_key_from_spoken_text(last.as_slice()) {
        Some(k) => k,
        None => return None,
    };
    let mut init: Vec<Vec<char>> = Vec::new();
    let m = tokens.len() - 1;
    for i in 0..m
        invariant
            m == tokens@.len() - 1,
            views(init@) == views(tokens@).take(i as int),
    {
        let w = crate::text::slice_to_vec(tokens[i].as_slice(), 0, tokens[i].len());
        assert(w@ =~= tokens@[i as int]@);
        let ghost old_init = views(init@);
        init.push(w);
        assert(views(init@) =~= old_init.push(tokens@[i as int]@));
        assert(views(tokens@).take(i + 1) =~= views(tokens@).take(i as int).push(
            tokens@[i as int]@,
        ));
    }
    assert(views(tokens@).take(m as int) =~= views(tokens@).drop_last());
    let space = [' '];
    proof {
        reveal_strlit(" ");
        assert(space@ =~= " "@);
    }
    let stripped = join_chars(&init, &space);
    Some((string_of(&stripped), key))
}

// ---------------------------------------------------------------------------
// Describing actions
// ---------------------------------------------------------------------------

/// The decimal digits of `n`.
pub open spec fn decimal(n: nat) -> Seq<char>
    decreases n,
{
    if n < 10 {
        seq![((n + 48) as u8) as char]
    } else {
        decimal(n / 10).push((((n % 10) + 48) as u8) as char)
    }
}

/// The decimal digit for `d < 10`.
fn digit_char(d: u8) -> (r: char)
    requires
        d < 10,
    ensures
        r == ((d + 48) as u8) as char,
{
    (d + 48) as char
}

/// `n` written in decimal.
pub fn u8_decimal(n: u8) -> (r: String)
    ensures
        r@ == decimal(n as nat),
{
    let mut s = String::new();
    if n >= 100 {
        push_char(&mut s, digit_char(n / 100));
    }
    if n >= 10 {
        push_char(&mut s, digit_char((n / 10) % 10));
    }
    push_char(&mut s, digit_char(n % 10));
    proof {
        reveal_with_fuel(decimal, 3);
        if n >= 100 {
            assert((n / 10) / 10 == n / 100);
            assert((n / 10) % 10 < 10);
        }
        assert(s@ =~= decimal(n as nat));
    }
    s
}

/// How `{:?}` prints an optional key.
pub open spec fn key_debug_spec(k: Option<ActionKey>) -> Seq<char> {
    match k {
        Some(key) => "Some("@ + action_key_name_spec(key) + ")"@,
        None => "None"@,
    }
}

/// The `" xN"` suffix of an action repeated more than once.
pub open spec fn repeat_suffix(repeat: u8) -> Seq<char> {
    if repeat > 1 {
        " x"@ + decimal(repeat as nat)
    } else {
        Seq::<char>::empty()
    }
}

/// How actions are named in the interpreter's error messages.
pub open spec fn llm_describe_spec(a: ActionView) -> Seq<char> {
    match a.command_id {
        Some(c) => semantic_command_name_spec(c) + match a.target_app {
            Some(t) => " for "@ + app_class_name_spec(t),
            None => Seq::<char>::empty(),
        } + repeat_suffix(a.repeat),
        None => if a.modifiers.len() == 0 {
            key_debug_spec(a.key) + repeat_suffix(a.repeat)
        } else {
            join(a.modifiers.map_values(|m: ModifierKey| modifier_label(m)), "+"@) + "+"@
                + key_debug_spec(a.key) + repeat_suffix(a.repeat)
        },
    }
}

/// How `{:?}` prints an optional key.
fn key_debug(k: &Option<ActionKey>) -> (r: String)
    ensures
        r@ == key_debug_spec(*k),
{
    match k {
        Some(key) => concat3("Some(", action_key_name(key), ")"),
        None => owned("None"),
    }
}

/// The `" xN"` suffix of an action repeated more than once.
fn repeat_text(repeat: u8) -> (r: String)
    ensures
        r@ == repeat_suffix(repeat),
{
    if repeat > 1 {
        let d = u8_decimal(repeat);
        concat2(" x", d.as_str())
    } else {
        String::new()
    }
}

/// The labels of a modifier list joined by `'+'`.
fn modifier_names(m: &Vec<ModifierKey>) -> (r: String)
    ensures
        r@ == join(m@.map_values(|x: ModifierKey| modifier_label(x)), "+"@),
{
    let mut parts: Vec<String> = Vec::new();
    let n = m.len();
    let ghost labels = m@.map_values(|x: ModifierKey| modifier_label(x));
    for i in 0..n
        invariant
            n == m@.len(),
            labels == m@.map_values(|x: ModifierKey| modifier_label(x)),
            crate::text::str_views(parts@) == labels.take(i as int),
    {
        let ghost old_parts = crate::text::str_views(parts@);
        parts.push(owned(m[i].as_label()));
        assert(crate::text::str_views(parts@) =~= old_parts.push(labels[i as int]));
        assert(labels.take(i + 1) =~= labels.take(i as int).push(labels[i as int]));
    }
    assert(labels.take(n as int) =~= labels);
    crate::text::join_strings(&parts, "+")
}

/// How an action is named in the interpreter's error messages.
pub fn describe_action(action: &ActionCommand) -> (r: String)
    ensures
        r@ == llm_describe_spec(action@),
{
    let repeat = repeat_text(action.repeat);
    match action.command_id {
        Some(c) => {
            let target = match action.target_app {
                Some(t) => concat2(" for ", app_class_name(&t)),
                None => String::new(),
            };
            concat3(semantic_command_name(&c), target.as_str(), repeat.as_str())
        },
        None => {
            let key = key_debug(&action.key);
            if action.modifiers.len() == 0 {
                concat2(key.as_str(), repeat.as_str())
            } else {
                let mods = modifier_names(&action.modifiers);
                let head = concat2(mods.as_str(), "+");
                concat3(head.as_str(), key.as_str(), repeat.as_str())
            }
        },
    }
}


// ---------------------------------------------------------------------------
// Checking actions
// ---------------------------------------------------------------------------

/// How often `m` occurs in `mods`.
pub open spec fn count_modifier(mods: Seq<ModifierKey>, m: ModifierKey) -> nat
    decreases mods.len(),
{
    if mods.len() == 0 {
        0
    } else {
        count_modifier(mods.drop_last(), m) + if mods.last() == m {
            1nat
        } else {
            0nat
        }
    }
}

/// How often `m` occurs in `mods`.
fn count_modifier_exec(mods: &Vec<ModifierKey>, m: ModifierKey) -> (r: usize)
    ensures
        r == count_modifier(mods@, m),
{
    let mut c: usize = 0;
    let n = mods.len();
    assert(mods@.take(0) =~= Seq::<ModifierKey>::empty());
    for i in 0..n
        invariant
            n == mods@.len(),
            c == count_modifier(mods@.take(i as int), m),
            c <= i,
    {
        assert(mods@.take(i + 1).drop_last() =~= mods@.take(i as int));
        if mods[i] == m {
            c = c + 1;
        }
    }
    assert(mods@.take(n as int) =~= mods@);
    c
}

/// Why an action is not allowed when only editing actions are, or `None`.
pub open spec fn editing_action_error(a: ActionView) -> Option<Seq<char>> {
    let repeat = at_least_once(a.repeat);
    if count_modifier(a.modifiers, ModifierKey::Ctrl) > 1 || count_modifier(
        a.modifiers,
        ModifierKey::Shift,
    ) > 1 {
        Some("duplicate modifiers are not allowed"@)
    } else if !(1 <= repeat && repeat <= 12) {
        Some("repeat count "@ + decimal(a.repeat as nat) + " is outside the supported range"@)
    } else {
        match a.action_type {
            ActionType::Key => if a.key is None {
                Some("key action is missing a primary key"@)
            } else if a.command_id is Some {
                Some("key action cannot include a semantic command id"@)
            } else if a.modifiers.len() > 0 {
                Some("key action "@ + llm_describe_spec(a) + " cannot carry modifiers"@)
            } else {
                None
            },
            ActionType::Shortcut => if a.key is None {
                Some("shortcut action is missing a primary key"@)
            } else if a.command_id is Some {
                Some("shortcut action cannot include a semantic command id"@)
            } else if a.modifiers.len() == 0 {
                Some("shortcut "@ + llm_describe_spec(a) + " requires at least one modifier"@)
            } else {
                None
            },
            ActionType::SemanticCommand => if a.command_id is None {
                Some("semantic command action is missing command_id"@)
            } else if a.key is Some {
                Some("semantic command action cannot include a raw key"@)
            } else if a.modifiers.len() > 0 {
                Some("semantic command action cannot include modifiers"@)
            } else {
                None
            },
        }
    }
}

/// A repeat count of at least one.
pub open spec fn at_least_once(repeat: u8) -> u8 {
    if repeat >= 1 {
        repeat
    } else {
        1
    }
}

/// Why an action is outside the allowed scope, or `None`.
pub open spec fn action_error(a: ActionView, scope: ActionScope) -> Option<Seq<char>> {
    match scope {
        ActionScope::EditingOnly => editing_action_error(a),
    }
}

/// The outcome `r` of a check is the one `msg` describes.
pub open spec fn check_outcome(r: Result<()>, msg: Option<Seq<char>>) -> bool {
    match msg {
        None => r is Ok,
        Some(m) => r matches Err(e) && is_invalid_state(e, m),
    }
}

/// Checks that an action is a well-formed editing action.
pub fn validate_editing_only_action(action: &ActionCommand) -> (r: Result<()>)
    ensures
        check_outcome(r, editing_action_error(action@)),
{
    let modifiers = &action.modifiers;
    let ctrl = count_modifier_exec(modifiers, ModifierKey::Ctrl);
    let shift = count_modifier_exec(modifiers, ModifierKey::Shift);
    let repeat = if action.repeat >= 1 {
        action.repeat
    } else {
        1
    };
    if ctrl > 1 || shift > 1 {
        return Err(invalid_state("duplicate modifiers are not allowed"));
    }
    if !(1 <= repeat && repeat <= 12) {
        let d = u8_decimal(action.repeat);
        return Err(
            WisprError::InvalidState(
                concat3("repeat count ", d.as_str(), " is outside the supported range"),
            ),
        );
    }
    match action.action_type {
        ActionType::Key => {
            if action.key.is_none() {
                return Err(invalid_state("key action is missing a primary key"));
            }
            if action.command_id.is_some() {
                return Err(invalid_state("key action cannot include a semantic command id"));
            }
            if modifiers.len() > 0 {
                let d = describe_action(action);
                return Err(
                    WisprError::InvalidState(
                        concat3("key action ", d.as_str(), " cannot carry modifiers"),
                    ),
                );
            }
        },
        ActionType::Shortcut => {
            if action.key.is_none() {
                return Err(invalid_state("shortcut action is missing a primary key"));
            }
            if action.command_id.is_some() {
                return Err(invalid_state("shortcut action cannot include a semantic command id"));
            }
            if modifiers.len() == 0 {
                let d = describe_action(action);
                return Err(
                    WisprError::InvalidState(
                        concat3("shortcut ", d.as_str(), " requires at least one modifier"),
                    ),
                );
            }
        },
        ActionType::SemanticCommand => {
            if action.command_id.is_none() {
                return Err(invalid_state("semantic command action is missing command_id"));
            }
            if action.key.is_some() {
                return Err(invalid_state("semantic command action cannot include a raw key"));
            }
            if modifiers.len() > 0 {
                return Err(invalid_state("semantic command action cannot include modifiers"));
            }
        },
    }
    Ok(())
}

/// Checks that an action is within the allowed scope.
pub fn validate_action(action: &ActionCommand, scope: &ActionScope) -> (r: Result<()>)
    ensures
        check_outcome(r, action_error(action@, *scope)),
{
    match scope {
        ActionScope::EditingOnly => validate_editing_only_action(action),
    }
}

// ---------------------------------------------------------------------------
// Deduplication and hydration
// ---------------------------------------------------------------------------

/// Two actions do the same thing (their target application aside).
pub open spec fn actions_match_spec(left: ActionView, right: ActionView) -> bool {
    &&& left.action_type == right.action_type
    &&& left.key == right.key
    &&& left.modifiers == right.modifiers
    &&& left.repeat == right.repeat
    &&& left.command_id == right.command_id
}

/// Whether two actions do the same thing.
pub fn actions_match(left: &ActionCommand, right: &ActionCommand) -> (r: bool)
    ensures
        r == actions_match_spec(left@, right@),
{
    left.action_type == right.action_type && crate::models::key_opt_eq(&left.key, &right.key)
        && crate::models::modifiers_eq(&left.modifiers, &right.modifiers) && left.repeat
        == right.repeat && crate::models::command_opt_eq(&left.command_id, &right.command_id)
}

/// The actions with every action that repeats an earlier one left out.
pub open spec fn dedupe_spec(actions: Seq<ActionView>) -> Seq<ActionView>
    decreases actions.len(),
{
    if actions.len() == 0 {
        Seq::<ActionView>::empty()
    } else {
        let d = dedupe_spec(actions.drop_last());
        if exists|j: int| 0 <= j < d.len() && actions_match_spec(d[j], actions.last()) {
            d
        } else {
            d.push(actions.last())
        }
    }
}

/// Leaves out every action that repeats an earlier one.
pub fn dedupe_actions(actions: Vec<ActionCommand>) -> (r: Vec<ActionCommand>)
    ensures
        action_views(r@) == dedupe_spec(action_views(actions@)),
{
    let mut deduped: Vec<ActionCommand> = Vec::new();
    let n = actions.len();
    assert(action_views(actions@).take(0) =~= Seq::<ActionView>::empty());
    assert(action_views(deduped@) =~= Seq::<ActionView>::empty());
    for i in 0..n
        invariant
            n == actions@.len(),
            action_views(deduped@) == dedupe_spec(action_views(actions@).take(i as int)),
    {
        let action = &actions[i];
        let ghost prefix = action_views(actions@).take(i + 1);
        assert(prefix.drop_last() =~= action_views(actions@).take(i as int));
        assert(prefix.last() == action@);
        let ghost d = action_views(deduped@);
        let mut found = false;
        let m = deduped.len();
        for j in 0..m
            invariant
                m == deduped@.len(),
                d == action_views(deduped@),
                found == exists|k: int| 0 <= k < j && actions_match_spec(d[k], action@),
        {
            if actions_match(&deduped[j], action) {
                assert(d[j as int] == deduped@[j as int]@);
                found = true;
            } else {
                assert(d[j as int] == deduped@[j as int]@);
            }
        }
        if !found {
            deduped.push(copy_action(action));
            assert(action_views(deduped@) =~= d.push(action@));
        }
    }
    assert(action_views(actions@).take(n as int) =~= action_views(actions@));
    deduped
}

/// The action with its key filled in from the spoken text, when it is a key
/// action that names neither a key nor a command.
pub open spec fn hydrate_spec(a: ActionView, inferred: Option<ActionKey>) -> ActionView {
    if a.action_type == ActionType::Key && a.key is None && a.command_id is None {
        ActionView { key: inferred, ..a }
    } else {
        a
    }
}

/// The actions with their keys filled in from the spoken text.
pub open spec fn hydrate_all(actions: Seq<ActionView>, finalized_text: Seq<char>) -> Seq<ActionView> {
    actions.map_values(|a: ActionView| hydrate_spec(a, infer_key_spec(finalized_text)))
}

/// Fills in the key of key actions that name none, from the key the spoken
/// text ends by naming.
fn hydrate_list(finalized_text: &str, actions: &Vec<ActionCommand>) -> (r: Vec<ActionCommand>)
    ensures
        action_views(r@) == hydrate_all(action_views(actions@), finalized_text@),
{
    let cs = chars_of(finalized_text);
    let inferred = infer_key_from_spoken_text(&cs);
    let mut out: Vec<ActionCommand> = Vec::new();
    let n = actions.len();
    let ghost src = action_views(actions@);
    let ghost target = src.map_values(|a: ActionView| hydrate_spec(a, inferred));
    for i in 0..n
        invariant
            n == actions@.len(),
            src == action_views(actions@),
            target == src.map_values(|a: ActionView| hydrate_spec(a, inferred)),
            action_views(out@) == target.take(i as int),
    {
        let a = &actions[i];
        let mut c = copy_action(a);
        if c.action_type == ActionType::Key && c.key.is_none() && c.command_id.is_none() {
            c.key = inferred;
        }
        let ghost old_out = action_views(out@);
        assert(src[i as int] == a@);
        out.push(c);
        assert(action_views(out@) =~= old_out.push(target[i as int]));
        assert(target.take(i + 1) =~= target.take(i as int).push(target[i as int]));
    }
    assert(target.take(n as int) =~= target);
    out
}

/// Fills in the key of the decision's key actions that name none, from the
/// key the spoken segment ends by naming.
pub fn hydrate_missing_actions(request: &SegmentDecisionRequest, decision: &mut SegmentDecision)
    ensures
        final(decision)@ == (DecisionView {
            actions: hydrate_all(old(decision)@.actions, request.finalized_text@),
            ..old(decision)@
        }),
{
    let actions = hydrate_list(request.finalized_text.as_str(), &decision.actions);
    decision.actions = actions;
}


// ---------------------------------------------------------------------------
// Normalizing dictated command text
// ---------------------------------------------------------------------------

/// A spoken word that stands for a dash.
pub open spec fn is_dash_word(w: Seq<char>) -> bool {
    let l = lower(w);
    l == "dash"@ || l == "hyphen"@ || l == "minus"@ || l == "-"@
}

/// The words with every pair of consecutive dash words turned into `"--"`.
pub open spec fn merge_dash_words(ws: Seq<Seq<char>>) -> Seq<Seq<char>>
    decreases ws.len(),
{
    if ws.len() == 0 {
        Seq::<Seq<char>>::empty()
    } else if ws.len() >= 2 && is_dash_word(ws[0]) && is_dash_word(ws[1]) {
        seq!["--"@] + merge_dash_words(ws.skip(2))
    } else {
        seq![ws[0]] + merge_dash_words(ws.drop_first())
    }
}

/// `"dash dash"` (or hyphen, minus, `-`) spoken as two words becomes
/// `"--"`; the words are rejoined by single spaces.
pub open spec fn symbol_words_spec(input: Seq<char>) -> Seq<char> {
    join(merge_dash_words(words(input)), " "@)
}

/// A character allowed in a command-line flag name.
pub open spec fn is_flag_char(c: char) -> bool {
    ('a' <= c && c <= 'z') || ('A' <= c && c <= 'Z') || ('0' <= c && c <= '9') || c == '-' || c
        == '_'
}

/// A word made only of flag characters.
pub open spec fn is_flag_word(w: Seq<char>) -> bool {
    forall|i: int| 0 <= i < w.len() ==> is_flag_char(#[trigger] w[i])
}

/// The words with every `"--"` followed by a flag word glued to it.
pub open spec fn attach_flags(ws: Seq<Seq<char>>) -> Seq<Seq<char>>
    decreases ws.len(),
{
    if ws.len() == 0 {
        Seq::<Seq<char>>::empty()
    } else if ws[0] == "--"@ && ws.len() >= 2 && is_flag_word(ws[1]) {
        seq!["--"@ + ws[1]] + attach_flags(ws.skip(2))
    } else {
        seq![ws[0]] + attach_flags(ws.drop_first())
    }
}

/// `"-- version"` becomes `"--version"`; the words are rejoined by single
/// spaces.
pub open spec fn attach_flag_spec(input: Seq<char>) -> Seq<char> {
    join(attach_flags(words(input)), " "@)
}

/// Dictated command text made typeable: trimmed, spoken dashes turned into
/// `"--"`, spaces around `"--"`, `"."`, `"/"` and `"::"` closed up, flags
/// attached to their dashes.
pub open spec fn normalize_command_spec(input: Seq<char>) -> Seq<char> {
    let t = trim(input);
    if t.len() == 0 {
        t
    } else {
        let a = symbol_words_spec(t);
        let b = collapse(a, "-- "@, "--"@);
        let c = collapse(b, " . "@, "."@);
        let d = collapse(c, " / "@, "/"@);
        let e = collapse(d, " :: "@, "::"@);
        attach_flag_spec(e)
    }
}

/// Whether a spoken word stands for a dash.
fn dash_word(w: &[char]) -> (r: bool)
    ensures
        r == is_dash_word(w@),
{
    let l = to_lower_chars(w);
    eq_lit(&l, "dash") || eq_lit(&l, "hyphen") || eq_lit(&l, "minus") || eq_lit(&l, "-")
}

/// A copy of a character vector.
fn copy_chars(v: &Vec<char>) -> (r: Vec<char>)
    ensures
        r@ == v@,
{
    let r = crate::text::slice_to_vec(v.as_slice(), 0, v.len());
    assert(r@ =~= v@);
    r
}

/// Turns spoken dash pairs into `"--"`.
pub fn normalize_symbol_words(input: &[char]) -> (r: Vec<char>)
    ensures
        r@ == symbol_words_spec(input@),
{
    let ws = words_of(input);
    let ghost wv = views(ws@);
    let mut parts: Vec<Vec<char>> = Vec::new();
    let mut index: usize = 0;
    assert(wv.skip(0) =~= wv);
    assert(views(parts@) + merge_dash_words(wv.skip(0)) =~= merge_dash_words(wv));
    while index < ws.len()
        invariant
            wv == views(ws@),
            index <= ws@.len(),
            views(parts@) + merge_dash_words(wv.skip(index as int)) == merge_dash_words(wv),
        decreases ws@.len() - index,
    {
        let ghost rest = wv.skip(index as int);
        let ghost old_parts = views(parts@);
        assert(rest[0] == ws@[index as int]@);
        if index + 1 < ws.len() && dash_word(ws[index].as_slice()) && dash_word(
            ws[index + 1].as_slice(),
        ) {
            assert(rest[1] == ws@[index + 1]@);
            let dd = chars_of("--");
            parts.push(dd);
            assert(rest.skip(2) =~= wv.skip(index + 2));
            assert(views(parts@) =~= old_parts.push("--"@));
            assert(seq!["--"@] + merge_dash_words(rest.skip(2)) == merge_dash_words(rest));
            assert(old_parts + merge_dash_words(rest) =~= views(parts@) + merge_dash_words(
                wv.skip(index + 2),
            ));
            index = index + 2;
        } else {
            proof {
                if index + 1 < ws@.len() {
                    assert(rest[1] == ws@[index + 1]@);
                }
            }
            let w = copy_chars(&ws[index]);
            parts.push(w);
            assert(rest.drop_first() =~= wv.skip(index + 1));
            assert(views(parts@) =~= old_parts.push(rest[0]));
            assert(old_parts + merge_dash_words(rest) =~= views(parts@) + merge_dash_words(
                wv.skip(index + 1),
            ));
            index = index + 1;
        }
    }
    assert(wv.skip(index as int) =~= Seq::<Seq<char>>::empty());
    assert(views(parts@) =~= merge_dash_words(wv));
    let space = [' '];
    proof {
        reveal_strlit(" ");
        assert(space@ =~= " "@);
    }
    join_chars(&parts, &space)
}

/// Whether a word is made only of flag characters.
fn flag_word(w: &[char]) -> (r: bool)
    ensures
        r == is_flag_word(w@),
{
    let n = w.len();
    for i in 0..n
        invariant
            n == w@.len(),
            forall|j: int| 0 <= j < i ==> is_flag_char(#[trigger] w@[j]),
    {
        let c = w[i];
        if !(('a' <= c && c <= 'z') || ('A' <= c && c <= 'Z') || ('0' <= c && c <= '9') || c
            == '-' || c == '_') {
            assert(!is_flag_char(w@[i as int]));
            return false;
        }
    }
    true
}

/// Glues flags to a preceding `"--"`.
pub fn attach_flag_after_double_dash(input: &[char]) -> (r: Vec<char>)
    ensures
        r@ == attach_flag_spec(input@),
{
    let ws = words_of(input);
    let ghost wv = views(ws@);
    let mut parts: Vec<Vec<char>> = Vec::new();
    let mut index: usize = 0;
    assert(wv.skip(0) =~= wv);
    assert(views(parts@) + attach_flags(wv.skip(0)) =~= attach_flags(wv));
    while index < ws.len()
        invariant
            wv == views(ws@),
            index <= ws@.len(),
            views(parts@) + attach_flags(wv.skip(index as int)) == attach_flags(wv),
        decreases ws@.len() - index,
    {
        let ghost rest = wv.skip(index as int);
        let ghost old_parts = views(parts@);
        assert(rest[0] == ws@[index as int]@);
        if eq_lit(ws[index].as_slice(), "--") && index + 1 < ws.len() && flag_word(
            ws[index + 1].as_slice(),
        ) {
            assert(rest[1] == ws@[index + 1]@);
            let mut glued = chars_of("--");
            append_chars(&mut glued, ws[index + 1].as_slice());
            parts.push(glued);
            assert(rest.skip(2) =~= wv.skip(index + 2));
            assert(views(parts@) =~= old_parts.push("--"@ + rest[1]));
            assert(old_parts + attach_flags(rest) =~= views(parts@) + attach_flags(
                wv.skip(index + 2),
            ));
            index = index + 2;
        } else {
            proof {
                if index + 1 < ws@.len() {
                    assert(rest[1] == ws@[index + 1]@);
                }
            }
            let w = copy_chars(&ws[index]);
            parts.push(w);
            assert(rest.drop_first() =~= wv.skip(index + 1));
            assert(views(parts@) =~= old_parts.push(rest[0]));
            assert(old_parts + attach_flags(rest) =~= views(parts@) + attach_flags(
                wv.skip(index + 1),
            ));
            index = index + 1;
        }
    }
    assert(wv.skip(index as int) =~= Seq::<Seq<char>>::empty());
    assert(views(parts@) =~= attach_flags(wv));
    let space = [' '];
    proof {
        reveal_strlit(" ");
        assert(space@ =~= " "@);
    }
    join_chars(&parts, &space)
}

/// Makes dictated command text typeable.
pub fn normalize_command_text(input: &str) -> (r: String)
    ensures
        r@ == normalize_command_spec(input@),
{
    let cs = chars_of(input);
    let t = trim_chars(&cs);
    if t.len() == 0 {
        return string_of(&t);
    }
    let a = normalize_symbol_words(&t);
    let f1 = chars_of("-- ");
    let t1 = chars_of("--");
    let f2 = chars_of(" . ");
    let t2 = chars_of(".");
    let f3 = chars_of(" / ");
    let t3 = chars_of("/");
    let f4 = chars_of(" :: ");
    let t4 = chars_of("::");
    proof {
        reveal_strlit("-- ");
        reveal_strlit("--");
        reveal_strlit(" . ");
        reveal_strlit(".");
        reveal_strlit(" / ");
        reveal_strlit("/");
        reveal_strlit(" :: ");
        reveal_strlit("::");
    }
    let b = collapse_chars(a, &f1, &t1);
    let c = collapse_chars(b, &f2, &t2);
    let d = collapse_chars(c, &f3, &t3);
    let e = collapse_chars(d, &f4, &t4);
    let r = attach_flag_after_double_dash(&e);
    string_of(&r)
}

// ---------------------------------------------------------------------------
// Validating decisions
// ---------------------------------------------------------------------------

/// A generation decision made canonical, or why it is refused.
pub open spec fn generation_spec(d: DecisionView) -> std::result::Result<DecisionView, Seq<char>> {
    let prompt = match d.generation_prompt {
        Some(p) => trim(p),
        None => Seq::<char>::empty(),
    };
    if prompt.len() == 0 {
        Err("generation decision is missing generation_prompt"@)
    } else if !d.replace_current_segment {
        Err("generation decision must replace the current segment"@)
    } else if d.actions.len() > 0 {
        Err("generation decision cannot include actions"@)
    } else if d.rewrite_scope != RewriteScope::Segment {
        Err("generation decision must use rewrite_scope=segment"@)
    } else {
        Ok(
            DecisionView {
                kind: DecisionKind::Generation,
                rewrite_scope: RewriteScope::Segment,
                format_kind: FormatKind::Plain,
                text_to_emit: Seq::<char>::empty(),
                keep_block_open: false,
                actions: Seq::<ActionView>::empty(),
                generation_prompt: Some(prompt),
                generation_style: Some(
                    match d.generation_style {
                        Some(s) => s,
                        None => GenerationStyle::Generic,
                    },
                ),
                replace_current_segment: true,
            },
        )
    }
}

/// The outcome `r` of a validation is the one `expected` describes.
pub open spec fn decision_outcome(
    r: Result<SegmentDecision>,
    expected: std::result::Result<DecisionView, Seq<char>>,
) -> bool {
    match expected {
        Ok(v) => r matches Ok(d) && d@ == v,
        Err(m) => r matches Err(e) && is_invalid_state(e, m),
    }
}

/// Checks a generation decision and makes it canonical: no text, no
/// actions, the trimmed prompt, a style.
pub fn validate_generation_decision(
    _request: &SegmentDecisionRequest,
    decision: SegmentDecision,
) -> (r: Result<SegmentDecision>)
    ensures
        decision_outcome(r, generation_spec(decision@)),
{
    let prompt = match &decision.generation_prompt {
        Some(p) => crate::text::trim_str(p.as_str()),
        None => String::new(),
    };
    if prompt.as_str().is_empty() {
        return Err(invalid_state("generation decision is missing generation_prompt"));
    }
    if !decision.replace_current_segment {
        return Err(invalid_state("generation decision must replace the current segment"));
    }
    if decision.actions.len() > 0 {
        return Err(invalid_state("generation decision cannot include actions"));
    }
    if decision.rewrite_scope != RewriteScope::Segment {
        return Err(invalid_state("generation decision must use rewrite_scope=segment"));
    }
    let style = match decision.generation_style {
        Some(s) => s,
        None => GenerationStyle::Generic,
    };
    let r = SegmentDecision {
        kind: DecisionKind::Generation,
        rewrite_scope: RewriteScope::Segment,
        format_kind: FormatKind::Plain,
        text_to_emit: String::new(),
        keep_block_open: false,
        actions: Vec::new(),
        generation_prompt: Some(prompt),
        generation_style: Some(style),
        replace_current_segment: true,
    };
    assert(action_views(r.actions@) =~= Seq::<ActionView>::empty());
    Ok(r)
}

/// The first reason, in order, that an action is outside the scope.
pub open spec fn first_action_error(actions: Seq<ActionView>, scope: ActionScope) -> Option<
    Seq<char>,
>
    decreases actions.len(),
{
    if actions.len() == 0 {
        None
    } else {
        match first_action_error(actions.drop_last(), scope) {
            Some(m) => Some(m),
            None => action_error(actions.last(), scope),
        }
    }
}

/// The key action that presses `k` once, aimed at `target`.
pub open spec fn key_action_view(k: ActionKey, target: Option<crate::models::ActiveAppClass>) -> ActionView {
    ActionView {
        action_type: ActionType::Key,
        key: Some(k),
        modifiers: Seq::<ModifierKey>::empty(),
        repeat: 1,
        command_id: None,
        target_app: target,
    }
}

/// The application class the request was made in, if known.
pub open spec fn request_target(req: SegmentDecisionRequest) -> Option<crate::models::ActiveAppClass> {
    match req.active_app {
        Some(app) => Some(app.app_class),
        None => None,
    }
}

/// Some action presses `k` on its own.
pub open spec fn has_plain_key(actions: Seq<ActionView>, k: ActionKey) -> bool {
    exists|j: int|
        0 <= j < actions.len() && (#[trigger] actions[j]).action_type == ActionType::Key
            && actions[j].key == Some(k) && actions[j].modifiers.len() == 0
}

/// What a decision becomes once checked, or why it is refused.
///
/// Blank literal text falls back to the spoken words; generation decisions
/// are checked on their own; otherwise actions get their keys from the
/// spoken text, are checked and deduplicated, a literal that ends by naming
/// a key becomes that key press, and a trailing key word already pressed by
/// an action is dropped from the text.
pub open spec fn validate_decision_spec(req: SegmentDecisionRequest, d: DecisionView) -> std::result::Result<
    DecisionView,
    Seq<char>,
> {
    if req.text_output_mode == TextOutputMode::Literal && d.kind == DecisionKind::Literal && trim(
        d.text_to_emit,
    ).len() == 0 {
        Ok(literal_view(req.literal_text@))
    } else if d.kind == DecisionKind::Generation {
        generation_spec(d)
    } else {
        let hydrated = hydrate_all(d.actions, req.finalized_text@);
        let normalized = normalize_command_spec(d.text_to_emit);
        match first_action_error(hydrated, req.action_scope) {
            Some(m) => Err(m),
            None => {
                let actions = dedupe_spec(hydrated);
                let lk = literal_and_key_spec(req.finalized_text@);
                let pair = lk->Some_0;
                let lk_text = pair.0;
                let lk_key = pair.1;
                if d.kind == DecisionKind::Literal && actions.len() == 0 && lk is Some {
                    let nt = normalize_command_spec(lk_text);
                    Ok(
                        DecisionView {
                            kind: if nt.len() == 0 {
                                DecisionKind::Action
                            } else {
                                DecisionKind::LiteralAndAction
                            },
                            rewrite_scope: RewriteScope::Segment,
                            format_kind: FormatKind::Plain,
                            text_to_emit: nt,
                            keep_block_open: false,
                            actions: seq![key_action_view(lk_key, request_target(req))],
                            generation_prompt: None,
                            generation_style: None,
                            replace_current_segment: false,
                        },
                    )
                } else if actions.len() > 0 {
                    let action_text = if lk is Some && has_plain_key(actions, lk_key) {
                        normalize_command_spec(lk_text)
                    } else {
                        normalized
                    };
                    Ok(
                        DecisionView {
                            kind: if action_text.len() == 0 {
                                DecisionKind::Action
                            } else {
                                DecisionKind::LiteralAndAction
                            },
                            rewrite_scope: d.rewrite_scope,
                            format_kind: d.format_kind,
                            text_to_emit: action_text,
                            keep_block_open: d.keep_block_open,
                            actions,
                            generation_prompt: None,
                            generation_style: None,
                            replace_current_segment: false,
                        },
                    )
                } else {
                    Ok(
                        DecisionView {
                            text_to_emit: normalized,
                            actions,
                            generation_prompt: None,
                            generation_style: None,
                            replace_current_segment: false,
                            ..d
                        },
                    )
                }
            },
        }
    }
}

/// Checks every action against the scope, in order.
fn validate_actions(actions: &Vec<ActionCommand>, scope: &ActionScope) -> (r: Result<()>)
    ensures
        check_outcome(r, first_action_error(action_views(actions@), *scope)),
{
    let n = actions.len();
    assert(action_views(actions@).take(0) =~= Seq::<ActionView>::empty());
    for i in 0..n
        invariant
            n == actions@.len(),
            first_action_error(action_views(actions@).take(i as int), *scope) is None,
    {
        let ghost prefix = action_views(actions@).take(i + 1);
        assert(prefix.drop_last() =~= action_views(actions@).take(i as int));
        assert(prefix.last() == actions@[i as int]@);
        match validate_action(&actions[i], scope) {
            Ok(()) => {},
            Err(e) => {
                proof {
                    lemma_first_error_persists(action_views(actions@), *scope, i + 1);
                }
                return Err(e);
            },
        }
    }
    assert(action_views(actions@).take(n as int) =~= action_views(actions@));
    Ok(())
}

/// Once a prefix holds a refused action, the first refusal of the whole list
/// is that of the prefix.
proof fn lemma_first_error_persists(s: Seq<ActionView>, scope: ActionScope, k: int)
    requires
        0 <= k <= s.len(),
        first_action_error(s.take(k), scope) is Some,
    ensures
        first_action_error(s, scope) == first_action_error(s.take(k), scope),
    decreases s.len() - k,
{
    if k < s.len() {
        assert(s.take(k + 1).drop_last() =~= s.take(k));
        lemma_first_error_persists(s, scope, k + 1);
    } else {
        assert(s.take(k) =~= s);
    }
}

/// Whether some action presses `k` on its own.
fn any_plain_key(actions: &Vec<ActionCommand>, k: ActionKey) -> (r: bool)
    ensures
        r == has_plain_key(action_views(actions@), k),
{
    let n = actions.len();
    for i in 0..n
        invariant
            n == actions@.len(),
            forall|j: int|
                0 <= j < i ==> !((#[trigger] action_views(actions@)[j]).action_type
                    == ActionType::Key && action_views(actions@)[j].key == Some(k)
                    && action_views(actions@)[j].modifiers.len() == 0),
    {
        let a = &actions[i];
        assert(action_views(actions@)[i as int] == a@);
        if a.action_type == ActionType::Key && crate::models::key_opt_eq(&a.key, &Some(k))
            && a.modifiers.len() == 0 {
            return true;
        }
    }
    false
}

/// Checks what the interpreter decided for a segment and makes it safe to
/// carry out.
pub fn validate_decision(request: &SegmentDecisionRequest, decision: SegmentDecision) -> (r: Result<
    SegmentDecision,
>)
    ensures
        decision_outcome(r, validate_decision_spec(*request, decision@)),
{
    let mut decision = decision;
    if request.text_output_mode == TextOutputMode::Literal && decision.kind == DecisionKind::Literal
        && crate::text::is_blank_str(decision.text_to_emit.as_str()) {
        return Ok(SegmentDecision::literal(request.literal_text.as_str()));
    }
    if decision.kind == DecisionKind::Generation {
        return validate_generation_decision(request, decision);
    }
    let ghost d0 = decision@;
    hydrate_missing_actions(request, &mut decision);
    let normalized_text = normalize_command_text(decision.text_to_emit.as_str());
    validate_actions(&decision.actions, &request.action_scope)?;
    let hydrated = decision.actions;
    let actions = dedupe_actions(hydrated);
    let lk = infer_literal_and_key_action(request.finalized_text.as_str());
    if decision.kind == DecisionKind::Literal && actions.len() == 0 {
        if let Some((text_to_emit, key)) = lk {
            let nt = normalize_command_text(text_to_emit.as_str());
            let target = match &request.active_app {
                Some(app) => Some(app.app_class),
                None => None,
            };
            let mut acts: Vec<ActionCommand> = Vec::new();
            acts.push(
                ActionCommand {
                    action_type: ActionType::Key,
                    key: Some(key),
                    modifiers: Vec::new(),
                    repeat: 1,
                    command_id: None,
                    target_app: target,
                },
            );
            let kind = if nt.as_str().is_empty() {
                DecisionKind::Action
            } else {
                DecisionKind::LiteralAndAction
            };
            let r = SegmentDecision {
                kind,
                rewrite_scope: RewriteScope::Segment,
                format_kind: FormatKind::Plain,
                text_to_emit: nt,
                keep_block_open: false,
                actions: acts,
                generation_prompt: None,
                generation_style: None,
                replace_current_segment: false,
            };
            assert(r.actions@[0].modifiers@ =~= Seq::<ModifierKey>::empty());
            assert(action_views(r.actions@) =~= seq![key_action_view(key, request_target(*request))]);
            return Ok(r);
        }
    }
    if actions.len() > 0 {
        let mut action_text = normalized_text;
        if let Some((stripped_text, inferred_key)) = lk {
            if any_plain_key(&actions, inferred_key) {
                action_text = normalize_command_text(stripped_text.as_str());
            }
        }
        let kind = if action_text.as_str().is_empty() {
            DecisionKind::Action
        } else {
            DecisionKind::LiteralAndAction
        };
        return Ok(
            SegmentDecision {
                kind,
                rewrite_scope: decision.rewrite_scope,
                format_kind: decision.format_kind,
                text_to_emit: action_text,
                keep_block_open: decision.keep_block_open,
                actions,
                generation_prompt: None,
                generation_style: None,
                replace_current_segment: false,
            },
        );
    }
    Ok(
        SegmentDecision {
            kind: decision.kind,
            rewrite_scope: decision.rewrite_scope,
            format_kind: decision.format_kind,
            text_to_emit: normalized_text,
            keep_block_open: decision.keep_block_open,
            actions,
            generation_prompt: None,
            generation_style: None,
            replace_current_segment: false,
        },
    )
}


// ---------------------------------------------------------------------------
// Prompts
// ---------------------------------------------------------------------------

/// The instructions given to the model for autonomous writing in a style.
pub open spec fn generation_prompt_spec(style: GenerationStyle) -> Seq<char> {
    match style {
        GenerationStyle::Generic => "You are Wispr's autonomous writing mode. Produce ready-to-paste end-user text only. Do not return JSON, markdown fences, labels, or commentary about what you are doing. Use the user's request, recent typed context, and active app context only as writing context."@,
        GenerationStyle::PlainText => "You are Wispr's autonomous writing mode. Produce ready-to-paste plain text only. Do not return JSON, markdown fences, labels, or commentary about what you are doing. Use the user's request, recent typed context, and active app context only as writing context."@,
        GenerationStyle::Email => "You are Wispr's autonomous writing mode. Produce a ready-to-paste email body in plain text unless the request explicitly asks for a subject line. Do not return JSON, markdown fences, or commentary."@,
        GenerationStyle::Essay => "You are Wispr's autonomous writing mode. Produce a ready-to-paste essay or paragraph response in plain text. Do not return JSON, markdown fences, or commentary."@,
    }
}

/// The instructions given to the model for autonomous writing in a style.
pub fn generation_prompt(style: GenerationStyle) -> (r: &'static str)
    ensures
        r@ == generation_prompt_spec(style),
{
    match style {
        GenerationStyle::Generic => "You are Wispr's autonomous writing mode. Produce ready-to-paste end-user text only. Do not return JSON, markdown fences, labels, or commentary about what you are doing. Use the user's request, recent typed context, and active app context only as writing context.",
        GenerationStyle::PlainText => "You are Wispr's autonomous writing mode. Produce ready-to-paste plain text only. Do not return JSON, markdown fences, labels, or commentary about what you are doing. Use the user's request, recent typed context, and active app context only as writing context.",
        GenerationStyle::Email => "You are Wispr's autonomous writing mode. Produce a ready-to-paste email body in plain text unless the request explicitly asks for a subject line. Do not return JSON, markdown fences, or commentary.",
        GenerationStyle::Essay => "You are Wispr's autonomous writing mode. Produce a ready-to-paste essay or paragraph response in plain text. Do not return JSON, markdown fences, or commentary.",
    }
}

/// The instructions given to the model for interpreting a segment.
pub open spec fn developer_prompt_spec() -> Seq<char> {
    "You are Wispr, a safe dictation command interpreter, formatter, and writing-mode detector. You receive one finalized spoken segment, recent typed context, an optional active formatting block, and optional active app context. Return strict JSON only. Keep ordinary prose literal unless structure is explicit or very strong. Prefer numbered lists for sequential speech. Use bullet lists only when the speech is clearly unordered. Spoken corrections such as 'wait', 'no', 'not X, Y instead', or 'replace the third one' should usually rewrite the current block, not append a new literal sentence. rewrite_scope='segment' means only the current finalized segment should be committed. rewrite_scope='current_block' means text_to_emit is the full replacement for the active formatting block. keep_block_open should stay true while the user is still building or correcting the same list or note block. You may emit explicit keyboard actions with modifiers Ctrl, Shift, Alt, and Super. You may also emit semantic_command actions for common app intents such as new_tab, close_tab, reopen_closed_tab, refresh, find, save, copy, paste, cut, undo, redo, focus_address_bar, next_tab, and previous_tab. Prefer semantic_command for high-level phrases like 'open a new browser tab' or 'focus the address bar'. You may return kind='generation' only for explicit autonomous-writing requests such as 'write an essay on...', 'draft an email for leave', 'compose a reply saying...', or 'generate a paragraph about...'. Do not use generation for ordinary dictation, formatting, editing commands, shell commands, or ambiguous wording. When kind='generation', set generation_prompt to the normalized user request, set generation_style to generic/plain_text/email/essay, set replace_current_segment=true, set text_to_emit to an empty string, and return no actions. If active app context is available, use it. Allowed keys include letters A-Z, digits Digit0-Digit9, Space, Enter, Tab, Escape, Backspace, Delete, Insert, Left, Right, Up, Down, Home, End, PageUp, PageDown, and F1-F12. Each action may set repeat to run the same key multiple times, such as Space repeated twice. Never invent dangerous system actions. Never launch apps, run shell commands, click, or move the mouse. If unsure, keep the speech literal. If the spoken text is ordinary prose, return kind literal, format_kind plain, rewrite_scope segment, and keep text_to_emit equal to the literal transcript. If command words should not remain in the editor, remove them from text_to_emit. Normalize command-like text when the user is dictating shell commands or flags: for example 'flutter dash dash version enter' should become text_to_emit 'flutter --version' plus Enter. Example formatting behavior: a spoken to-do list should become a numbered list; a later correction like 'wait, not housecleaning, washing of clothes' should rewrite the current list block so the corrected item replaces the old one."@
}

/// The instructions given to the model for interpreting a segment.
pub fn developer_prompt() -> (r: &'static str)
    ensures
        r@ == developer_prompt_spec(),
{
    "You are Wispr, a safe dictation command interpreter, formatter, and writing-mode detector. You receive one finalized spoken segment, recent typed context, an optional active formatting block, and optional active app context. Return strict JSON only. Keep ordinary prose literal unless structure is explicit or very strong. Prefer numbered lists for sequential speech. Use bullet lists only when the speech is clearly unordered. Spoken corrections such as 'wait', 'no', 'not X, Y instead', or 'replace the third one' should usually rewrite the current block, not append a new literal sentence. rewrite_scope='segment' means only the current finalized segment should be committed. rewrite_scope='current_block' means text_to_emit is the full replacement for the active formatting block. keep_block_open should stay true while the user is still building or correcting the same list or note block. You may emit explicit keyboard actions with modifiers Ctrl, Shift, Alt, and Super. You may also emit semantic_command actions for common app intents such as new_tab, close_tab, reopen_closed_tab, refresh, find, save, copy, paste, cut, undo, redo, focus_address_bar, next_tab, and previous_tab. Prefer semantic_command for high-level phrases like 'open a new browser tab' or 'focus the address bar'. You may return kind='generation' only for explicit autonomous-writing requests such as 'write an essay on...', 'draft an email for leave', 'compose a reply saying...', or 'generate a paragraph about...'. Do not use generation for ordinary dictation, formatting, editing commands, shell commands, or ambiguous wording. When kind='generation', set generation_prompt to the normalized user request, set generation_style to generic/plain_text/email/essay, set replace_current_segment=true, set text_to_emit to an empty string, and return no actions. If active app context is available, use it. Allowed keys include letters A-Z, digits Digit0-Digit9, Space, Enter, Tab, Escape, Backspace, Delete, Insert, Left, Right, Up, Down, Home, End, PageUp, PageDown, and F1-F12. Each action may set repeat to run the same key multiple times, such as Space repeated twice. Never invent dangerous system actions. Never launch apps, run shell commands, click, or move the mouse. If unsure, keep the speech literal. If the spoken text is ordinary prose, return kind literal, format_kind plain, rewrite_scope segment, and keep text_to_emit equal to the literal transcript. If command words should not remain in the editor, remove them from text_to_emit. Normalize command-like text when the user is dictating shell commands or flags: for example 'flutter dash dash version enter' should become text_to_emit 'flutter --version' plus Enter. Example formatting behavior: a spoken to-do list should become a numbered list; a later correction like 'wait, not housecleaning, washing of clothes' should rewrite the current list block so the corrected item replaces the old one."
}

// ---------------------------------------------------------------------------
// Server-sent event framing
// ---------------------------------------------------------------------------

/// The frame taken off the front of a stream buffer (the text before the
/// first blank line, `"\r\n\r\n"` looked for before `"\n\n"`) and what
/// remains of the buffer after that blank line; no frame and the buffer
/// unchanged when it holds no blank line yet.
pub open spec fn pop_frame_spec(b: Seq<char>) -> (Option<Seq<char>>, Seq<char>) {
    if has_substr(b, "\r\n\r\n"@) {
        let i = first_index(b, "\r\n\r\n"@);
        (Some(b.take(i)), b.skip(i + 4))
    } else if has_substr(b, "\n\n"@) {
        let i = first_index(b, "\n\n"@);
        (Some(b.take(i)), b.skip(i + 2))
    } else {
        (None, b)
    }
}


/// Takes the next complete event frame off the front of `buffer`.
pub fn pop_sse_frame(buffer: &mut String) -> (r: Option<String>)
    ensures
        (match r {
            Some(f) => Some(f@),
            None => None,
        }, final(buffer)@) == pop_frame_spec(old(buffer)@),
{
    let b = chars_of(buffer.as_str());
    let blen = b.len();
    let crlf2 = chars_of("\r\n\r\n");
    let lf2 = chars_of("\n\n");
    proof {
        reveal_strlit("\r\n\r\n");
        reveal_strlit("\n\n");
        assert(crlf2@.len() == 4);
        assert(lf2@.len() == 2);
    }
    match find(&b, &crlf2) {
        Some(index) => {
            proof {
                lemma_first_index(b@, crlf2@, index as int);
            }
            let frame = crate::text::slice_to_vec(&b, 0, index);
            assert(index + 4 <= blen);
            let rest = crate::text::slice_to_vec(&b, index + 4, blen);
            assert(frame@ =~= b@.take(index as int));
            assert(rest@ =~= b@.skip(index + 4));
            *buffer = string_of(&rest);
            Some(string_of(&frame))
        },
        None => match find(&b, &lf2) {
            Some(index) => {
                proof {
                    lemma_first_index(b@, lf2@, index as int);
                }
                let frame = crate::text::slice_to_vec(&b, 0, index);
                assert(index + 2 <= blen);
                let rest = crate::text::slice_to_vec(&b, index + 2, blen);
                assert(frame@ =~= b@.take(index as int));
                assert(rest@ =~= b@.skip(index + 2));
                *buffer = string_of(&rest);
                Some(string_of(&frame))
            },
            None => None,
        },
    }
}

/// The payloads of the `data:` lines of a frame, each without the leading
/// whitespace after the colon.
pub open spec fn data_lines(ls: Seq<Seq<char>>) -> Seq<Seq<char>>
    decreases ls.len(),
{
    if ls.len() == 0 {
        Seq::<Seq<char>>::empty()
    } else {
        let r = data_lines(ls.drop_last());
        if "data:"@.is_prefix_of(ls.last()) {
            r.push(trim_start(ls.last().skip(5)))
        } else {
            r
        }
    }
}

/// The data of an event frame: its `data:` payloads joined by newlines, or
/// nothing when it has none.
pub open spec fn sse_data_spec(frame: Seq<char>) -> Option<Seq<char>> {
    let d = data_lines(lines(frame));
    if d.len() == 0 {
        None
    } else {
        Some(join(d, "\n"@))
    }
}

/// The data of an event frame.
pub fn extract_sse_data(frame: &str) -> (r: Option<String>)
    ensures
        match sse_data_spec(frame@) {
            Some(d) => r matches Some(s) && s@ == d,
            None => r is None,
        },
{
    let cs = chars_of(frame);
    let ls = lines_of(&cs);
    let prefix = chars_of("data:");
    proof {
        reveal_strlit("data:");
        assert(prefix@.len() == 5);
    }
    let mut out: Vec<Vec<char>> = Vec::new();
    let n = ls.len();
    let ghost lv = views(ls@);
    assert(lv.take(0) =~= Seq::<Seq<char>>::empty());
    for i in 0..n
        invariant
            n == ls@.len(),
            lv == views(ls@),
            prefix@ == "data:"@,
            prefix@.len() == 5,
            views(out@) == data_lines(lv.take(i as int)),
    {
        let ghost t = lv.take(i + 1);
        assert(t.drop_last() =~= lv.take(i as int));
        assert(t.last() == ls@[i as int]@);
        match strip_prefix(ls[i].as_slice(), &prefix) {
            Some(rest) => {
                let d = trim_start_chars(&rest);
                let ghost old_out = views(out@);
                out.push(d);
                assert(views(out@) =~= old_out.push(trim_start(ls@[i as int]@.skip(5))));
            },
            None => {},
        }
    }
    assert(lv.take(n as int) =~= lv);
    if out.len() == 0 {
        None
    } else {
        let nl = ['\n'];
        proof {
            reveal_strlit("\n");
            assert(nl@ =~= "\n"@);
        }
        let j = join_chars(&out, &nl);
        Some(string_of(&j))
    }
}

/// Whether the base URL points at an Azure OpenAI-compatible service.
pub open spec fn is_azure_spec(base_url: Seq<char>) -> bool {
    let n = lower(base_url);
    has_substr(n, ".cognitiveservices.azure.com"@) || has_substr(n, ".openai.azure.com"@)
        || has_substr(n, "azure.com/openai/"@)
}

/// Whether the base URL points at an Azure OpenAI-compatible service (which
/// wants an `api-key` header rather than a bearer token).
pub fn is_azure_compatible_base_url(base_url: &str) -> (r: bool)
    ensures
        r == is_azure_spec(base_url@),
{
    let cs = chars_of(base_url);
    let n = to_lower_chars(&cs);
    let a = chars_of(".cognitiveservices.azure.com");
    let b = chars_of(".openai.azure.com");
    let c = chars_of("azure.com/openai/");
    contains(&n, &a) || contains(&n, &b) || contains(&n, &c)
}

/// Whether a failed streaming request should be retried without streaming.
pub open spec fn should_retry_spec(error: WisprError) -> bool {
    match error {
        WisprError::Http(m) => has_substr(m@, "error decoding response body"@) || has_substr(
            m@,
            "returned no structured output"@,
        ) || has_substr(m@, "failed to parse streamed response event"@) || has_substr(
            m@,
            "failed to parse streamed generation event"@,
        ),
        WisprError::InvalidState(m) => has_substr(m@, "returned no structured output"@),
        WisprError::Json(_) => true,
        _ => false,
    }
}

/// Whether a failed streaming request should be retried without streaming.
pub fn should_retry_non_streaming(error: &WisprError) -> (r: bool)
    ensures
        r == should_retry_spec(*error),
{
    match error {
        WisprError::Http(message) => str_contains(message.as_str(), "error decoding response body")
            || str_contains(message.as_str(), "returned no structured output") || str_contains(
            message.as_str(),
            "failed to parse streamed response event",
        ) || str_contains(message.as_str(), "failed to parse streamed generation event"),
        WisprError::InvalidState(message) => str_contains(
            message.as_str(),
            "returned no structured output",
        ),
        WisprError::Json(_) => true,
        _ => false,
    }
}

/// The longest response body quoted in an error message, in bytes.
pub const MAX_ERROR_BODY_BYTES: usize = 400;

/// A body can be cut for an error message: it is short enough to be quoted
/// whole, or its first 400 bytes end between two characters.
pub open spec fn body_cut_ok(body: Seq<char>) -> bool {
    vstd::utf8::encode_utf8(body).len() <= 400 || vstd::utf8::is_char_boundary(
        vstd::utf8::encode_utf8(body),
        400,
    )
}

/// Whether a body can be cut for an error message.
pub fn body_can_be_cut(body: &str) -> (r: bool)
    requires
        body.spec_bytes().len() <= usize::MAX,
    ensures
        r == body_cut_ok(body@),
{
    body.len() <= MAX_ERROR_BODY_BYTES || body.is_char_boundary(MAX_ERROR_BODY_BYTES)
}

/// A response body as quoted in an error message: whole when it has at most
/// 400 bytes, else its first 400 bytes followed by `"..."`.
pub open spec fn truncated_body(body: Seq<char>) -> Seq<char> {
    if vstd::utf8::encode_utf8(body).len() <= 400 {
        body
    } else {
        vstd::utf8::decode_utf8(vstd::utf8::encode_utf8(body).take(400)) + "..."@
    }
}

/// A response body shortened for an error message: bodies over 400 bytes
/// are cut at 400 bytes and marked with `"..."`. The cut must fall between
/// characters.
pub fn truncate_for_error(body: &str) -> (r: String)
    requires
        body.spec_bytes().len() <= usize::MAX,
        body_cut_ok(body@),
    ensures
        r@ == truncated_body(body@),
{
    if body.len() <= MAX_ERROR_BODY_BYTES {
        owned(body)
    } else {
        let (head, _) = body.split_at(MAX_ERROR_BODY_BYTES);
        assert(body.spec_bytes().subrange(0, 400) =~= body.spec_bytes().take(400));
        proof {
            vstd::utf8::encode_utf8_decode_utf8(head@);
        }
        concat2(head, "...")
    }
}

// ---------------------------------------------------------------------------
// Requests
// ---------------------------------------------------------------------------

/// What the interpreter answered about a segment: the validated decision,
/// and the structured output it was read from.
pub struct InterpreterOutput {
    pub decision: SegmentDecision,
    pub streamed_text: String,
}

/// `s` without its trailing `'/'` characters.
pub open spec fn without_trailing_slashes(s: Seq<char>) -> Seq<char>
    decreases s.len(),
{
    if s.len() > 0 && s.last() == '/' {
        without_trailing_slashes(s.drop_last())
    } else {
        s
    }
}

/// The responses endpoint under a base URL.
pub fn responses_endpoint(base_url: &str) -> (r: String)
    ensures
        r@ == without_trailing_slashes(base_url@) + "/responses"@,
{
    let cs = chars_of(base_url);
    let mut end = cs.len();
    assert(cs@.take(end as int) =~= cs@);
    while end > 0 && cs[end - 1] == '/'
        invariant
            end <= cs@.len(),
            without_trailing_slashes(cs@.take(end as int)) == without_trailing_slashes(cs@),
        decreases end,
    {
        assert(cs@.take(end as int).drop_last() =~= cs@.take(end - 1));
        end = end - 1;
    }
    assert(without_trailing_slashes(cs@.take(end as int)) == cs@.take(end as int));
    let base = crate::text::slice_to_vec(&cs, 0, end);
    assert(base@ =~= cs@.take(end as int));
    let b = string_of(&base);
    concat2(b.as_str(), "/responses")
}

/// The time allowed for a decision request, in milliseconds: the configured
/// timeout, at least 250.
pub fn request_timeout_ms(config: &IntelligenceConfig) -> (r: u64)
    ensures
        r == if config.timeout_ms >= 250 { config.timeout_ms } else { 250 },
{
    if config.timeout_ms >= 250 {
        config.timeout_ms
    } else {
        250
    }
}

/// The time allowed for a generation request, in milliseconds: the
/// configured generation timeout, at least 1000.
pub fn generation_timeout_ms(config: &IntelligenceConfig) -> (r: u64)
    ensures
        r == if config.generation_timeout_ms >= 1000 { config.generation_timeout_ms } else { 1000 },
{
    if config.generation_timeout_ms >= 1000 {
        config.generation_timeout_ms
    } else {
        1000
    }
}

/// The request that tests the interpreter connection: the words
/// `"hello enter"` with no context.
pub fn connection_test_request(config: &IntelligenceConfig) -> (r: SegmentDecisionRequest)
    ensures
        r.segment_id@ == "wispr-test"@,
        r.finalized_text@ == "hello enter"@,
        r.literal_text@ == "hello enter"@,
        r.recent_text@.len() == 0,
        r.active_block_raw@.len() == 0,
        r.active_block_rendered@.len() == 0,
        r.action_scope == config.action_scope,
        r.command_mode == CommandMode::AlwaysInfer,
        r.text_output_mode == TextOutputMode::Literal,
        r.preferred_list_style == PreferredListStyle::Numbered,
        r.formatting_trigger_policy == FormattingTriggerPolicy::ClearStructureOnly,
        r.correction_scope == CorrectionScope::CurrentBlockOnly,
        r.active_app is None,
{
    let r = SegmentDecisionRequest {
        segment_id: owned("wispr-test"),
        finalized_text: owned("hello enter"),
        literal_text: owned("hello enter"),
        recent_text: String::new(),
        active_block_raw: String::new(),
        active_block_rendered: String::new(),
        action_scope: config.action_scope,
        command_mode: CommandMode::AlwaysInfer,
        text_output_mode: TextOutputMode::Literal,
        preferred_list_style: PreferredListStyle::Numbered,
        formatting_trigger_policy: FormattingTriggerPolicy::ClearStructureOnly,
        correction_scope: CorrectionScope::CurrentBlockOnly,
        active_app: None,
    };
    assert(r.recent_text@ =~= Seq::<char>::empty());
    r
}

/// Some action of `d` matches `a`.
pub open spec fn has_match(d: Seq<ActionView>, a: ActionView) -> bool {
    exists|j: int| 0 <= j < d.len() && actions_match_spec(#[trigger] d[j], a)
}

/// Deduplication keeps one of every group of matching actions, in the order
/// they first came: no two kept actions match, every action matches a kept
/// one, and every kept action was asked for.
pub proof fn law_dedupe_keeps_one_of_each(actions: Seq<ActionView>)
    ensures
        forall|i: int, j: int|
            0 <= i < j < dedupe_spec(actions).len() ==> !actions_match_spec(
                #[trigger] dedupe_spec(actions)[i],
                #[trigger] dedupe_spec(actions)[j],
            ),
        forall|i: int| 0 <= i < actions.len() ==> has_match(dedupe_spec(actions), #[trigger] actions[i]),
        forall|j: int| 0 <= j < dedupe_spec(actions).len() ==> actions.contains(#[trigger] dedupe_spec(actions)[j]),
    decreases actions.len(),
{
    if actions.len() > 0 {
        let prev = actions.drop_last();
        law_dedupe_keeps_one_of_each(prev);
        let d = dedupe_spec(prev);
        let x = actions.last();
        let r = dedupe_spec(actions);
        assert forall|i: int| 0 <= i < actions.len() implies has_match(r, #[trigger] actions[i]) by {
            if i < prev.len() {
                assert(actions[i] == prev[i]);
                let j = choose|j: int| 0 <= j < d.len() && actions_match_spec(#[trigger] d[j], prev[i]);
                assert(r[j] == d[j]);
            } else if exists|j: int| 0 <= j < d.len() && actions_match_spec(d[j], x) {
                let j = choose|j: int| 0 <= j < d.len() && actions_match_spec(d[j], x);
                assert(r[j] == d[j]);
            } else {
                assert(r[d.len() as int] == x);
            }
        }
        assert forall|j: int| 0 <= j < r.len() implies actions.contains(#[trigger] r[j]) by {
            if j < d.len() {
                assert(r[j] == d[j]);
                assert(prev.contains(d[j]));
                let k = choose|k: int| 0 <= k < prev.len() && prev[k] == d[j];
                assert(actions[k] == prev[k]);
            } else {
                assert(actions[actions.len() - 1] == x);
            }
        }
    }
}

/// A list in which no two actions match is left as it is.
proof fn lemma_dedupe_keeps_distinct(s: Seq<ActionView>)
    requires
        forall|i: int, j: int| 0 <= i < j < s.len() ==> !actions_match_spec(#[trigger] s[i], #[trigger] s[j]),
    ensures
        dedupe_spec(s) == s,
    decreases s.len(),
{
    if s.len() > 0 {
        let prev = s.drop_last();
        assert forall|i: int, j: int| 0 <= i < j < prev.len() implies !actions_match_spec(
            #[trigger] prev[i],
            #[trigger] prev[j],
        ) by {
            assert(prev[i] == s[i] && prev[j] == s[j]);
        }
        lemma_dedupe_keeps_distinct(prev);
        assert forall|j: int| 0 <= j < prev.len() implies !actions_match_spec(#[trigger] prev[j], s.last()) by {
            assert(prev[j] == s[j]);
            assert(s.last() == s[s.len() - 1]);
        }
        assert(prev.push(s.last()) =~= s);
    }
}

/// Deduplicating twice is deduplicating once.
pub proof fn law_dedupe_idempotent(actions: Seq<ActionView>)
    ensures
        dedupe_spec(dedupe_spec(actions)) == dedupe_spec(actions),
{
    law_dedupe_keeps_one_of_each(actions);
    lemma_dedupe_keeps_distinct(dedupe_spec(actions));
}

/// An accepted generation decision only asks for writing: it carries a
/// prompt that is not blank, no actions and no text, and replaces the
/// spoken segment.
pub proof fn law_generation_decision_shape(d: DecisionView)
    ensures
        generation_spec(d) matches Ok(g) ==> {
            &&& g.kind == DecisionKind::Generation
            &&& g.actions.len() == 0
            &&& g.text_to_emit.len() == 0
            &&& g.rewrite_scope == RewriteScope::Segment
            &&& g.replace_current_segment
            &&& g.generation_prompt matches Some(p) && p.len() > 0
        },
{
}

} // verus!
