//! Turning interpreter actions into concrete, policy-checked key presses.
use vstd::prelude::*;

use crate::config::IntelligenceConfig;
use crate::error::{invalid_state, is_invalid_state, Result, WisprError};
use crate::models::{
    action_views, copy_modifiers, modifier_label, semantic_command_name,
    semantic_command_name_spec, ActionCommand, ActionKey, ActionType, ActionView, ActiveAppClass,
    ActiveAppContext, ModifierKey, SemanticCommandId, ShortcutDenylistProfile,
};
use crate::text::{
    chars_of, concat3, join, join_chars, lemma_join_append, join_strings, owned, split, split_chars, str_views,
    string_of, strings_contain, to_upper_chars, trim, trim_chars, upper, views,
};

verus! {

/// The actions that will be emitted, and a summary of them.
#[derive(Debug)]
pub struct ResolvedActions {
    pub actions: Vec<ActionCommand>,
    pub description: Option<String>,
}

// ---------------------------------------------------------------------------
// Shortcut names
// ---------------------------------------------------------------------------

/// The label a key has in shortcut names (`"Enter"`, `"A"`, `"0"`, `"F5"`).
pub open spec fn key_label_spec(k: ActionKey) -> Seq<char> {
    match k {
        ActionKey::Space => "Space"@,
        ActionKey::Enter => "Enter"@,
        ActionKey::Tab => "Tab"@,
        ActionKey::Escape => "Escape"@,
        ActionKey::Backspace => "Backspace"@,
        ActionKey::Delete => "Delete"@,
        ActionKey::Insert => "Insert"@,
        ActionKey::Left => "Left"@,
        ActionKey::Right => "Right"@,
        ActionKey::Up => "Up"@,
        ActionKey::Down => "Down"@,
        ActionKey::Home => "Home"@,
        ActionKey::End => "End"@,
        ActionKey::PageUp => "PageUp"@,
        ActionKey::PageDown => "PageDown"@,
        ActionKey::A => "A"@,
        ActionKey::B => "B"@,
        ActionKey::C => "C"@,
        ActionKey::D => "D"@,
        ActionKey::E => "E"@,
        ActionKey::F => "F"@,
        ActionKey::G => "G"@,
        ActionKey::H => "H"@,
        ActionKey::I => "I"@,
        ActionKey::J => "J"@,
        ActionKey::K => "K"@,
        ActionKey::L => "L"@,
        ActionKey::M => "M"@,
        ActionKey::N => "N"@,
        ActionKey::O => "O"@,
        ActionKey::P => "P"@,
        ActionKey::Q => "Q"@,
        ActionKey::R => "R"@,
        ActionKey::S => "S"@,
        ActionKey::T => "T"@,
        ActionKey::U => "U"@,
        ActionKey::V => "V"@,
        ActionKey::W => "W"@,
        ActionKey::X => "X"@,
        ActionKey::Y => "Y"@,
        ActionKey::Z => "Z"@,
        ActionKey::Digit0 => "0"@,
        ActionKey::Digit1 => "1"@,
        ActionKey::Digit2 => "2"@,
        ActionKey::Digit3 => "3"@,
        ActionKey::Digit4 => "4"@,
        ActionKey::Digit5 => "5"@,
        ActionKey::Digit6 => "6"@,
        ActionKey::Digit7 => "7"@,
        ActionKey::Digit8 => "8"@,
        ActionKey::Digit9 => "9"@,
        ActionKey::F1 => "F1"@,
        ActionKey::F2 => "F2"@,
        ActionKey::F3 => "F3"@,
        ActionKey::F4 => "F4"@,
        ActionKey::F5 => "F5"@,
        ActionKey::F6 => "F6"@,
        ActionKey::F7 => "F7"@,
        ActionKey::F8 => "F8"@,
        ActionKey::F9 => "F9"@,
        ActionKey::F10 => "F10"@,
        ActionKey::F11 => "F11"@,
        ActionKey::F12 => "F12"@,
    }
}

/// The label of a key in shortcut names.
pub fn key_label(key: &ActionKey) -> (r: &'static str)
    ensures
        r@ == key_label_spec(*key),
{
    match key {
        ActionKey::Space => "Space",
        ActionKey::Enter => "Enter",
        ActionKey::Tab => "Tab",
        ActionKey::Escape => "Escape",
        ActionKey::Backspace => "Backspace",
        ActionKey::Delete => "Delete",
        ActionKey::Insert => "Insert",
        ActionKey::Left => "Left",
        ActionKey::Right => "Right",
        ActionKey::Up => "Up",
        ActionKey::Down => "Down",
        ActionKey::Home => "Home",
        ActionKey::End => "End",
        ActionKey::PageUp => "PageUp",
        ActionKey::PageDown => "PageDown",
        ActionKey::A => "A",
        ActionKey::B => "B",
        ActionKey::C => "C",
        ActionKey::D => "D",
        ActionKey::E => "E",
        ActionKey::F => "F",
        ActionKey::G => "G",
        ActionKey::H => "H",
        ActionKey::I => "I",
        ActionKey::J => "J",
        ActionKey::K => "K",
        ActionKey::L => "L",
        ActionKey::M => "M",
        ActionKey::N => "N",
        ActionKey::O => "O",
        ActionKey::P => "P",
        ActionKey::Q => "Q",
        ActionKey::R => "R",
        ActionKey::S => "S",
        ActionKey::T => "T",
        ActionKey::U => "U",
        ActionKey::V => "V",
        ActionKey::W => "W",
        ActionKey::X => "X",
        ActionKey::Y => "Y",
        ActionKey::Z => "Z",
        ActionKey::Digit0 => "0",
        ActionKey::Digit1 => "1",
        ActionKey::Digit2 => "2",
        ActionKey::Digit3 => "3",
        ActionKey::Digit4 => "4",
        ActionKey::Digit5 => "5",
        ActionKey::Digit6 => "6",
        ActionKey::Digit7 => "7",
        ActionKey::Digit8 => "8",
        ActionKey::Digit9 => "9",
        ActionKey::F1 => "F1",
        ActionKey::F2 => "F2",
        ActionKey::F3 => "F3",
        ActionKey::F4 => "F4",
        ActionKey::F5 => "F5",
        ActionKey::F6 => "F6",
        ActionKey::F7 => "F7",
        ActionKey::F8 => "F8",
        ActionKey::F9 => "F9",
        ActionKey::F10 => "F10",
        ActionKey::F11 => "F11",
        ActionKey::F12 => "F12",
    }
}

/// The canonical form of a shortcut name: each `+`-separated part trimmed
/// and upper-cased (`" ctrl + t "` becomes `"CTRL+T"`).
pub open spec fn normalize_combo(s: Seq<char>) -> Seq<char> {
    join(split(s, seq!['+']).map_values(|p: Seq<char>| upper(trim(p))), "+"@)
}

/// The canonical forms of the non-blank pieces, in order.
pub open spec fn combos_of_pieces(ps: Seq<Seq<char>>) -> Seq<Seq<char>>
    decreases ps.len(),
{
    if ps.len() == 0 {
        Seq::<Seq<char>>::empty()
    } else {
        let r = combos_of_pieces(ps.drop_last());
        if trim(ps.last()).len() > 0 {
            r.push(normalize_combo(trim(ps.last())))
        } else {
            r
        }
    }
}

/// The shortcut names listed in configuration entries: each entry is split
/// at `','` and `'\n'`, blank pieces are dropped, the rest normalized.
pub open spec fn combo_list(items: Seq<Seq<char>>) -> Seq<Seq<char>>
    decreases items.len(),
{
    if items.len() == 0 {
        Seq::<Seq<char>>::empty()
    } else {
        combo_list(items.drop_last()) + combos_of_pieces(split(items.last(), seq![',', '\n']))
    }
}

/// The name of a shortcut: its modifiers' labels, then its key's, joined by
/// `'+'`.
pub open spec fn combo_name(modifiers: Seq<ModifierKey>, key: ActionKey) -> Seq<char> {
    join(
        modifiers.map_values(|m: ModifierKey| modifier_label(m)).push(key_label_spec(key)),
        "+"@,
    )
}

/// The name of an action's shortcut, when it has a key.
pub open spec fn combo_id_spec(a: ActionView) -> Option<Seq<char>> {
    match a.key {
        Some(k) => Some(combo_name(a.modifiers, k)),
        None => None,
    }
}

/// The shortcuts that a denylist profile always forbids.
pub open spec fn builtin_denylist_spec(profile: ShortcutDenylistProfile) -> Seq<Seq<char>> {
    match profile {
        ShortcutDenylistProfile::Minimal => seq![
            normalize_combo("Ctrl+Alt+Delete"@),
            normalize_combo("Super+L"@),
        ],
    }
}

/// Normalizes each `'+'`-separated part of a shortcut name.
fn normalize_parts(parts: &Vec<Vec<char>>) -> (r: Vec<Vec<char>>)
    ensures
        views(r@) == views(parts@).map_values(|p: Seq<char>| upper(trim(p))),
{
    let mut out: Vec<Vec<char>> = Vec::new();
    let n = parts.len();
    for i in 0..n
        invariant
            n == parts@.len(),
            views(out@) == views(parts@).map_values(|p: Seq<char>| upper(trim(p))).take(i as int),
    {
        let t = trim_chars(parts[i].as_slice());
        let u = to_upper_chars(&t);
        let ghost old_out = views(out@);
        out.push(u);
        assert(views(out@) =~= old_out.push(upper(trim(parts@[i as int]@))));
        assert(views(parts@).map_values(|p: Seq<char>| upper(trim(p))).take(i + 1)
            =~= views(parts@).map_values(|p: Seq<char>| upper(trim(p))).take(i as int).push(
            upper(trim(parts@[i as int]@)),
        ));
    }
    assert(views(parts@).map_values(|p: Seq<char>| upper(trim(p))).take(n as int)
        =~= views(parts@).map_values(|p: Seq<char>| upper(trim(p))));
    out
}

/// The canonical form of a shortcut name, on characters.
fn normalize_combo_chars(s: &[char]) -> (r: Vec<char>)
    ensures
        r@ == normalize_combo(s@),
{
    let parts = split_chars(s, &['+']);
    assert(seq!['+'] =~= (['+'])@);
    let normalized = normalize_parts(&parts);
    let plus = ['+'];
    proof {
        reveal_strlit("+");
        assert(plus@ =~= "+"@);
    }
    join_chars(&normalized, &plus)
}

/// The canonical form of a shortcut name.
pub fn normalize_combo_text(input: &str) -> (r: String)
    ensures
        r@ == normalize_combo(input@),
{
    let cs = chars_of(input);
    let r = normalize_combo_chars(&cs);
    string_of(&r)
}

/// The shortcut names listed in configuration entries.
pub fn parse_combo_list(items: &Vec<String>) -> (r: Vec<String>)
    ensures
        str_views(r@) == combo_list(str_views(items@)),
{
    let mut out: Vec<Vec<char>> = Vec::new();
    let n = items.len();
    assert(str_views(items@).take(0) =~= Seq::<Seq<char>>::empty());
    for i in 0..n
        invariant
            n == items@.len(),
            views(out@) == combo_list(str_views(items@).take(i as int)),
    {
        let item = chars_of(items[i].as_str());
        let pieces = split_chars(&item, &[',', '\n']);
        assert(seq![',', '\n'] =~= ([',', '\n'])@);
        let ghost ps = split(item@, seq![',', '\n']);
        let ghost base = views(out@);
        let m = pieces.len();
        assert(views(pieces@).take(0) =~= Seq::<Seq<char>>::empty());
        assert(base + combos_of_pieces(views(pieces@).take(0)) =~= base);
        for j in 0..m
            invariant
                m == pieces@.len(),
                views(pieces@) == ps,
                views(out@) == base + combos_of_pieces(ps.take(j as int)),
        {
            let t = trim_chars(pieces[j].as_slice());
            let ghost tp = ps.take(j + 1);
            assert(tp.drop_last() =~= ps.take(j as int));
            assert(tp.last() == pieces@[j as int]@);
            if t.len() > 0 {
                let c = normalize_combo_chars(&t);
                let ghost old_out = views(out@);
                out.push(c);
                assert(views(out@) =~= old_out.push(normalize_combo(trim(pieces@[j as int]@))));
            }
            assert(views(out@) =~= base + combos_of_pieces(ps.take(j + 1)));
        }
        assert(ps.take(m as int) =~= ps);
        let ghost ti = str_views(items@).take(i + 1);
        assert(ti.drop_last() =~= str_views(items@).take(i as int));
        assert(ti.last() == items@[i as int]@);
    }
    assert(str_views(items@).take(n as int) =~= str_views(items@));
    crate::text::strings_of(&out)
}

/// The shortcuts that a denylist profile always forbids.
pub fn builtin_denylist(profile: ShortcutDenylistProfile) -> (r: Vec<String>)
    ensures
        str_views(r@) == builtin_denylist_spec(profile),
{
    match profile {
        ShortcutDenylistProfile::Minimal => {
            let mut v: Vec<String> = Vec::new();
            v.push(normalize_combo_text("Ctrl+Alt+Delete"));
            v.push(normalize_combo_text("Super+L"));
            assert(str_views(v@) =~= builtin_denylist_spec(profile));
            v
        },
    }
}

/// The message of the error for a shortcut without a key.
pub open spec fn missing_key_msg() -> Seq<char> {
    "shortcut is missing a primary key"@
}

/// The name of an action's shortcut.
pub fn combo_id(action: &ActionCommand) -> (r: Result<String>)
    ensures
        match combo_id_spec(action@) {
            Some(name) => r matches Ok(s) && s@ == name,
            None => r matches Err(e) && is_invalid_state(e, missing_key_msg()),
        },
{
    let key = match &action.key {
        Some(k) => k,
        None => return Err(invalid_state("shortcut is missing a primary key")),
    };
    let mut parts: Vec<String> = Vec::new();
    let n = action.modifiers.len();
    let ghost labels = action.modifiers@.map_values(|m: ModifierKey| modifier_label(m));
    for i in 0..n
        invariant
            n == action.modifiers@.len(),
            labels == action.modifiers@.map_values(|m: ModifierKey| modifier_label(m)),
            str_views(parts@) == labels.take(i as int),
    {
        let label = owned(action.modifiers[i].as_label());
        let ghost old_parts = str_views(parts@);
        parts.push(label);
        assert(str_views(parts@) =~= old_parts.push(labels[i as int]));
        assert(labels.take(i + 1) =~= labels.take(i as int).push(labels[i as int]));
    }
    let ghost before = str_views(parts@);
    parts.push(owned(key_label(key)));
    assert(labels.take(n as int) =~= labels);
    assert(str_views(parts@) =~= before.push(key_label_spec(*key)));
    Ok(join_strings(&parts, "+"))
}

// ---------------------------------------------------------------------------
// Policy
// ---------------------------------------------------------------------------

/// Why the keyboard policy refuses a shortcut, or `None` when it allows it.
pub open spec fn shortcut_policy_error(config: IntelligenceConfig, a: ActionView) -> Option<
    Seq<char>,
> {
    if !config.dynamic_shortcuts_enabled {
        Some("dynamic shortcuts are disabled by policy"@)
    } else {
        match combo_id_spec(a) {
            None => Some(missing_key_msg()),
            Some(combo) => {
                let nc = normalize_combo(combo);
                let allow = combo_list(str_views(config.shortcut_allowlist@));
                let deny = combo_list(str_views(config.shortcut_denylist@));
                if allow.len() > 0 && !allow.contains(nc) {
                    Some("shortcut "@ + combo + " is not in the configured allowlist"@)
                } else if deny.contains(nc) {
                    Some("shortcut "@ + combo + " is blocked by the configured denylist"@)
                } else if builtin_denylist_spec(config.shortcut_denylist_profile).contains(nc) {
                    Some("shortcut "@ + combo + " is blocked by the built-in safety policy"@)
                } else {
                    None
                }
            },
        }
    }
}

/// Why the keyboard policy refuses an action, or `None` when it allows it.
pub open spec fn policy_error(config: IntelligenceConfig, a: ActionView) -> Option<Seq<char>> {
    match a.action_type {
        ActionType::Key => None,
        ActionType::Shortcut => shortcut_policy_error(config, a),
        ActionType::SemanticCommand => Some(
            "unresolved semantic command reached keyboard policy"@,
        ),
    }
}

/// The outcome `r` of a policy check is the one `msg` describes.
pub open spec fn policy_outcome(r: Result<()>, msg: Option<Seq<char>>) -> bool {
    match msg {
        None => r is Ok,
        Some(m) => r matches Err(e) && is_invalid_state(e, m),
    }
}

/// Checks a shortcut against the configured allow- and denylists and the
/// built-in safety list.
pub fn validate_shortcut_policy(config: &IntelligenceConfig, action: &ActionCommand) -> (r: Result<
    (),
>)
    ensures
        policy_outcome(r, shortcut_policy_error(*config, action@)),
{
    if !config.dynamic_shortcuts_enabled {
        return Err(invalid_state("dynamic shortcuts are disabled by policy"));
    }
    let combo = combo_id(action)?;
    let normalized_combo = normalize_combo_text(combo.as_str());
    let allowlist = parse_combo_list(&config.shortcut_allowlist);
    let denylist = parse_combo_list(&config.shortcut_denylist);
    if allowlist.len() > 0 && !strings_contain(&allowlist, normalized_combo.as_str()) {
        return Err(
            WisprError::InvalidState(
                concat3("shortcut ", combo.as_str(), " is not in the configured allowlist"),
            ),
        );
    }
    if strings_contain(&denylist, normalized_combo.as_str()) {
        return Err(
            WisprError::InvalidState(
                concat3("shortcut ", combo.as_str(), " is blocked by the configured denylist"),
            ),
        );
    }
    let builtin = builtin_denylist(config.shortcut_denylist_profile);
    if strings_contain(&builtin, normalized_combo.as_str()) {
        return Err(
            WisprError::InvalidState(
                concat3("shortcut ", combo.as_str(), " is blocked by the built-in safety policy"),
            ),
        );
    }
    Ok(())
}

/// Checks one resolved action against the keyboard policy.
pub fn validate_policy(config: &IntelligenceConfig, action: &ActionCommand) -> (r: Result<()>)
    ensures
        policy_outcome(r, policy_error(*config, action@)),
{
    match action.action_type {
        ActionType::Key => Ok(()),
        ActionType::Shortcut => validate_shortcut_policy(config, action),
        ActionType::SemanticCommand => Err(
            invalid_state("unresolved semantic command reached keyboard policy"),
        ),
    }
}


// ---------------------------------------------------------------------------
// Resolution
// ---------------------------------------------------------------------------

/// The key and modifiers that carry out a semantic command.
pub open spec fn semantic_binding(c: SemanticCommandId) -> (ActionKey, Seq<ModifierKey>) {
    match c {
        SemanticCommandId::NewTab => (ActionKey::T, seq![ModifierKey::Ctrl]),
        SemanticCommandId::CloseTab => (ActionKey::W, seq![ModifierKey::Ctrl]),
        SemanticCommandId::ReopenClosedTab => (
            ActionKey::T,
            seq![ModifierKey::Ctrl, ModifierKey::Shift],
        ),
        SemanticCommandId::Refresh => (ActionKey::R, seq![ModifierKey::Ctrl]),
        SemanticCommandId::Find => (ActionKey::F, seq![ModifierKey::Ctrl]),
        SemanticCommandId::Save => (ActionKey::S, seq![ModifierKey::Ctrl]),
        SemanticCommandId::Copy => (ActionKey::C, seq![ModifierKey::Ctrl]),
        SemanticCommandId::Paste => (ActionKey::V, seq![ModifierKey::Ctrl]),
        SemanticCommandId::Cut => (ActionKey::X, seq![ModifierKey::Ctrl]),
        SemanticCommandId::Undo => (ActionKey::Z, seq![ModifierKey::Ctrl]),
        SemanticCommandId::Redo => (ActionKey::Z, seq![ModifierKey::Ctrl, ModifierKey::Shift]),
        SemanticCommandId::FocusAddressBar => (ActionKey::L, seq![ModifierKey::Ctrl]),
        SemanticCommandId::NextTab => (ActionKey::PageDown, seq![ModifierKey::Ctrl]),
        SemanticCommandId::PreviousTab => (ActionKey::PageUp, seq![ModifierKey::Ctrl]),
    }
}

/// No two semantic commands share a shortcut, the clipboard commands take
/// the standard Ctrl+C, Ctrl+V and Ctrl+X, and each "undoing" command is
/// its counterpart with Shift added: Redo of Undo, reopening a closed tab
/// of opening a new one.
pub proof fn law_semantic_shortcuts_are_distinct(a: SemanticCommandId, b: SemanticCommandId)
    ensures
        semantic_binding(a) == semantic_binding(b) ==> a == b,
        semantic_binding(SemanticCommandId::Copy) == (ActionKey::C, seq![ModifierKey::Ctrl]),
        semantic_binding(SemanticCommandId::Paste) == (ActionKey::V, seq![ModifierKey::Ctrl]),
        semantic_binding(SemanticCommandId::Cut) == (ActionKey::X, seq![ModifierKey::Ctrl]),
        semantic_binding(SemanticCommandId::Redo).0 == semantic_binding(SemanticCommandId::Undo).0,
        semantic_binding(SemanticCommandId::Redo).1 == semantic_binding(SemanticCommandId::Undo).1.push(
            ModifierKey::Shift,
        ),
        semantic_binding(SemanticCommandId::ReopenClosedTab).0 == semantic_binding(SemanticCommandId::NewTab).0,
        semantic_binding(SemanticCommandId::ReopenClosedTab).1 == semantic_binding(
            SemanticCommandId::NewTab,
        ).1.push(ModifierKey::Shift),
{
    assert(seq![ModifierKey::Ctrl].push(ModifierKey::Shift) =~= seq![ModifierKey::Ctrl, ModifierKey::Shift]);
    if semantic_binding(a) == semantic_binding(b) {
        assert(semantic_binding(a).1.len() == semantic_binding(b).1.len());
    }
}

/// A repeat count of at least one.
pub open spec fn at_least_once(repeat: u8) -> u8 {
    if repeat >= 1 {
        repeat
    } else {
        1
    }
}

/// The shortcut action pressing `key` with `modifiers`, `repeat` times.
pub open spec fn shortcut_view(key: ActionKey, modifiers: Seq<ModifierKey>, repeat: u8) -> ActionView {
    ActionView {
        action_type: ActionType::Shortcut,
        key: Some(key),
        modifiers,
        repeat,
        command_id: None,
        target_app: None,
    }
}

/// The concrete action an interpreter action stands for, or why it has none.
pub open spec fn expand_action(config: IntelligenceConfig, a: ActionView) -> std::result::Result<
    ActionView,
    Seq<char>,
> {
    match a.action_type {
        ActionType::SemanticCommand => if !config.semantic_commands_enabled {
            Err("semantic commands are disabled by policy"@)
        } else {
            match a.command_id {
                None => Err("semantic command is missing command_id"@),
                Some(c) => Ok(
                    shortcut_view(semantic_binding(c).0, semantic_binding(c).1, at_least_once(a.repeat)),
                ),
            }
        },
        _ => Ok(
            ActionView {
                action_type: a.action_type,
                key: a.key,
                modifiers: a.modifiers,
                repeat: a.repeat,
                command_id: None,
                target_app: None,
            },
        ),
    }
}

/// The concrete, policy-approved action for one interpreter action, or why
/// there is none.
pub open spec fn resolve_one(config: IntelligenceConfig, a: ActionView) -> std::result::Result<
    ActionView,
    Seq<char>,
> {
    match expand_action(config, a) {
        Err(m) => Err(m),
        Ok(x) => match policy_error(config, x) {
            Some(m) => Err(m),
            None => Ok(x),
        },
    }
}

/// The concrete actions for a list of interpreter actions, or the first
/// reason that one of them has none.
pub open spec fn resolve_all(config: IntelligenceConfig, actions: Seq<ActionView>) -> std::result::Result<
    Seq<ActionView>,
    Seq<char>,
>
    decreases actions.len(),
{
    if actions.len() == 0 {
        Ok(Seq::<ActionView>::empty())
    } else {
        match resolve_all(config, actions.drop_last()) {
            Err(m) => Err(m),
            Ok(prev) => match resolve_one(config, actions.last()) {
                Err(m) => Err(m),
                Ok(x) => Ok(prev.push(x)),
            },
        }
    }
}

/// Once a prefix of the actions fails to resolve, the whole list fails the
/// same way.
proof fn lemma_resolve_failure_persists(
    config: IntelligenceConfig,
    s: Seq<ActionView>,
    k: int,
)
    requires
        0 <= k <= s.len(),
        resolve_all(config, s.take(k)) is Err,
    ensures
        resolve_all(config, s) == resolve_all(config, s.take(k)),
    decreases s.len() - k,
{
    if k < s.len() {
        assert(s.take(k + 1).drop_last() =~= s.take(k));
        lemma_resolve_failure_persists(config, s, k + 1);
    } else {
        assert(s.take(k) =~= s);
    }
}

/// A short human description of a resolved action.
pub open spec fn describe_spec(a: ActionView) -> Seq<char> {
    match a.action_type {
        ActionType::Key => match a.key {
            Some(k) => key_label_spec(k),
            None => "Unknown"@,
        },
        ActionType::Shortcut => match combo_id_spec(a) {
            Some(c) => c,
            None => "unknown shortcut"@,
        },
        ActionType::SemanticCommand => match a.command_id {
            Some(c) => semantic_command_name_spec(c),
            None => "unknown semantic command"@,
        },
    }
}

/// The application class a semantic command targets (kept for key choices
/// that depend on it; none does today).
pub fn letter_key_for(_target: ActiveAppClass, default: ActionKey) -> (r: ActionKey)
    ensures
        r == default,
{
    default
}

/// The shortcut action pressing `key` with `modifiers`, `repeat` times.
pub fn shortcut(key: ActionKey, modifiers: &[ModifierKey], repeat: u8) -> (r: ActionCommand)
    ensures
        r@ == shortcut_view(key, modifiers@, repeat),
{
    let mut m: Vec<ModifierKey> = Vec::new();
    let n = modifiers.len();
    for i in 0..n
        invariant
            n == modifiers@.len(),
            m@ == modifiers@.take(i as int),
    {
        m.push(modifiers[i]);
        assert(modifiers@.take(i + 1) =~= modifiers@.take(i as int).push(modifiers@[i as int]));
    }
    assert(modifiers@.take(n as int) =~= modifiers@);
    ActionCommand {
        action_type: ActionType::Shortcut,
        key: Some(key),
        modifiers: m,
        repeat,
        command_id: None,
        target_app: None,
    }
}

/// The shortcut that carries out a semantic command.
pub fn resolve_semantic_command(action: &ActionCommand, active_app: Option<&ActiveAppContext>) -> (r:
    Result<Vec<ActionCommand>>)
    ensures
        match action.command_id {
            None => r matches Err(e) && is_invalid_state(
                e,
                "semantic command is missing command_id"@,
            ),
            Some(c) => r matches Ok(v) && v@.len() == 1 && v@[0]@ == shortcut_view(
                semantic_binding(c).0,
                semantic_binding(c).1,
                at_least_once(action.repeat),
            ),
        },
{
    let command = match action.command_id {
        Some(c) => c,
        None => return Err(invalid_state("semantic command is missing command_id")),
    };
    let target = match action.target_app {
        Some(t) => t,
        None => match active_app {
            Some(app) => app.app_class,
            None => ActiveAppClass::Generic,
        },
    };
    let repeat = if action.repeat >= 1 {
        action.repeat
    } else {
        1
    };
    let ctrl = [ModifierKey::Ctrl];
    let ctrl_shift = [ModifierKey::Ctrl, ModifierKey::Shift];
    assert(ctrl@ =~= seq![ModifierKey::Ctrl]);
    assert(ctrl_shift@ =~= seq![ModifierKey::Ctrl, ModifierKey::Shift]);
    let resolved = match command {
        SemanticCommandId::NewTab => shortcut(letter_key_for(target, ActionKey::T), &ctrl, repeat),
        SemanticCommandId::CloseTab => shortcut(
            letter_key_for(target, ActionKey::W),
            &ctrl,
            repeat,
        ),
        SemanticCommandId::ReopenClosedTab => shortcut(ActionKey::T, &ctrl_shift, repeat),
        SemanticCommandId::Refresh => shortcut(ActionKey::R, &ctrl, repeat),
        SemanticCommandId::Find => shortcut(ActionKey::F, &ctrl, repeat),
        SemanticCommandId::Save => shortcut(ActionKey::S, &ctrl, repeat),
        SemanticCommandId::Copy => shortcut(ActionKey::C, &ctrl, repeat),
        SemanticCommandId::Paste => shortcut(ActionKey::V, &ctrl, repeat),
        SemanticCommandId::Cut => shortcut(ActionKey::X, &ctrl, repeat),
        SemanticCommandId::Undo => shortcut(ActionKey::Z, &ctrl, repeat),
        SemanticCommandId::Redo => shortcut(ActionKey::Z, &ctrl_shift, repeat),
        SemanticCommandId::FocusAddressBar => shortcut(ActionKey::L, &ctrl, repeat),
        SemanticCommandId::NextTab => shortcut(ActionKey::PageDown, &ctrl, repeat),
        SemanticCommandId::PreviousTab => shortcut(ActionKey::PageUp, &ctrl, repeat),
    };
    let mut v: Vec<ActionCommand> = Vec::new();
    v.push(resolved);
    Ok(v)
}

/// A short human description of a resolved action.
pub fn describe_action(action: &ActionCommand) -> (r: String)
    ensures
        r@ == describe_spec(action@),
{
    match action.action_type {
        ActionType::Key => match &action.key {
            Some(k) => owned(key_label(k)),
            None => owned("Unknown"),
        },
        ActionType::Shortcut => match combo_id(action) {
            Ok(c) => c,
            Err(_) => owned("unknown shortcut"),
        },
        ActionType::SemanticCommand => match &action.command_id {
            Some(c) => owned(semantic_command_name(c)),
            None => owned("unknown semantic command"),
        },
    }
}

/// The description of a list of resolved actions: their descriptions joined
/// by `", "`, or nothing when there are none.
pub open spec fn description_spec(actions: Seq<ActionView>) -> Option<Seq<char>> {
    if actions.len() == 0 {
        None
    } else {
        Some(join(actions.map_values(|a: ActionView| describe_spec(a)), ", "@))
    }
}

/// Expands semantic commands into shortcuts and checks every action against
/// the keyboard policy. The first action that cannot be resolved, or that
/// the policy refuses, fails the whole list.
pub fn resolve_actions(
    config: &IntelligenceConfig,
    actions: &[ActionCommand],
    active_app: Option<&ActiveAppContext>,
) -> (r: Result<ResolvedActions>)
    ensures
        match resolve_all(*config, action_views(actions@)) {
            Ok(vs) => r matches Ok(ra) && action_views(ra.actions@) == vs && match description_spec(
                vs,
            ) {
                Some(d) => ra.description matches Some(s) && s@ == d,
                None => ra.description is None,
            },
            Err(m) => r matches Err(e) && is_invalid_state(e, m),
        },
{
    let mut resolved: Vec<ActionCommand> = Vec::new();
    let mut descriptions: Vec<String> = Vec::new();
    let n = actions.len();
    assert(action_views(actions@).take(0) =~= Seq::<ActionView>::empty());
    assert(action_views(resolved@) =~= Seq::<ActionView>::empty());
    assert(str_views(descriptions@) =~= Seq::<Seq<char>>::empty());
    for i in 0..n
        invariant
            n == actions@.len(),
            resolve_all(*config, action_views(actions@).take(i as int)) == Ok::<
                Seq<ActionView>,
                Seq<char>,
            >(action_views(resolved@)),
            str_views(descriptions@) == action_views(resolved@).map_values(
                |a: ActionView| describe_spec(a),
            ),
    {
        let action = &actions[i];
        let ghost prefix = action_views(actions@).take(i + 1);
        assert(prefix.drop_last() =~= action_views(actions@).take(i as int));
        assert(prefix.last() == actions@[i as int]@);
        let expanded: Vec<ActionCommand> = match action.action_type {
            ActionType::SemanticCommand => {
                if !config.semantic_commands_enabled {
                    proof {
                        lemma_resolve_failure_persists(*config, action_views(actions@), i + 1);
                    }
                    return Err(invalid_state("semantic commands are disabled by policy"));
                }
                match resolve_semantic_command(action, active_app) {
                    Ok(v) => v,
                    Err(e) => {
                        proof {
                            lemma_resolve_failure_persists(*config, action_views(actions@), i + 1);
                        }
                        return Err(e);
                    },
                }
            },
            ActionType::Key | ActionType::Shortcut => {
                let mut v: Vec<ActionCommand> = Vec::new();
                v.push(
                    ActionCommand {
                        action_type: action.action_type,
                        key: action.key,
                        modifiers: copy_modifiers(&action.modifiers),
                        repeat: action.repeat,
                        command_id: None,
                        target_app: None,
                    },
                );
                v
            },
        };
        assert(expanded@.len() == 1);
        assert(expand_action(*config, actions@[i as int]@) == Ok::<ActionView, Seq<char>>(
            expanded@[0]@,
        ));
        let x = &expanded[0];
        match validate_policy(config, x) {
            Ok(()) => {},
            Err(e) => {
                proof {
                    lemma_resolve_failure_persists(*config, action_views(actions@), i + 1);
                }
                return Err(e);
            },
        }
        let d = describe_action(x);
        let ghost old_resolved = action_views(resolved@);
        let ghost old_desc = str_views(descriptions@);
        descriptions.push(d);
        resolved.push(crate::models::copy_action(x));
        assert(action_views(resolved@) =~= old_resolved.push(expanded@[0]@));
        assert(str_views(descriptions@) =~= old_desc.push(describe_spec(expanded@[0]@)));
        assert(action_views(resolved@).map_values(|a: ActionView| describe_spec(a))
            =~= old_resolved.map_values(|a: ActionView| describe_spec(a)).push(
            describe_spec(expanded@[0]@),
        ));
    }
    assert(action_views(actions@).take(n as int) =~= action_views(actions@));
    let description = if descriptions.len() == 0 {
        None
    } else {
        Some(join_strings(&descriptions, ", "))
    };
    Ok(ResolvedActions { actions: resolved, description })
}

/// The description of two lists of actions described one after the other:
/// the one that exists, or both joined by `", "`.
pub open spec fn joined_description(first: Option<Seq<char>>, second: Option<Seq<char>>) -> Option<Seq<char>> {
    match (first, second) {
        (None, d) => d,
        (d, None) => d,
        (Some(x), Some(y)) => Some(x + ", "@ + y),
    }
}

/// Resolving two lists of actions one after the other resolves each on its
/// own: the whole succeeds exactly when both parts do, with the actions of
/// the first followed by those of the second and their descriptions joined;
/// otherwise it fails with the first part's error, else the second's.
pub proof fn law_resolve_concatenation(config: IntelligenceConfig, xs: Seq<ActionView>, ys: Seq<ActionView>)
    ensures
        resolve_all(config, xs + ys) == match resolve_all(config, xs) {
            Err(m) => Err(m),
            Ok(a) => match resolve_all(config, ys) {
                Err(m) => Err(m),
                Ok(b) => Ok::<Seq<ActionView>, Seq<char>>(a + b),
            },
        },
        match (resolve_all(config, xs), resolve_all(config, ys)) {
            (Ok(a), Ok(b)) => description_spec(a + b) == joined_description(description_spec(a), description_spec(b)),
            _ => true,
        },
    decreases ys.len(),
{
    if ys.len() == 0 {
        assert(xs + ys =~= xs);
        if let Ok(a) = resolve_all(config, xs) {
            assert(a + Seq::<ActionView>::empty() =~= a);
        }
    } else {
        law_resolve_concatenation(config, xs, ys.drop_last());
        assert((xs + ys).drop_last() =~= xs + ys.drop_last());
        assert((xs + ys).last() == ys.last());
        if let Ok(a) = resolve_all(config, xs) {
            if let Ok(b0) = resolve_all(config, ys.drop_last()) {
                if let Ok(x) = resolve_one(config, ys.last()) {
                    assert((a + b0).push(x) =~= a + b0.push(x));
                }
            }
        }
    }
    if let Ok(a) = resolve_all(config, xs) {
        if let Ok(b) = resolve_all(config, ys) {
            assert((a + b).map_values(|v: ActionView| describe_spec(v)) =~= a.map_values(
                |v: ActionView| describe_spec(v),
            ) + b.map_values(|v: ActionView| describe_spec(v)));
            if a.len() == 0 {
                assert(a + b =~= b);
            } else if b.len() == 0 {
                assert(a + b =~= a);
            } else {
                lemma_join_append(
                    a.map_values(|v: ActionView| describe_spec(v)),
                    b.map_values(|v: ActionView| describe_spec(v)),
                    ", "@,
                );
            }
        }
    }
}

/// Resolution hands the keyboard only concrete actions: one for each action
/// asked for, none of them a semantic command, each allowed by the keyboard
/// policy.
pub proof fn law_resolved_actions_are_concrete(config: IntelligenceConfig, actions: Seq<ActionView>)
    ensures
        resolve_all(config, actions) matches Ok(vs) ==> {
            &&& vs.len() == actions.len()
            &&& forall|i: int| 0 <= i < vs.len() ==> (#[trigger] vs[i]).action_type != ActionType::SemanticCommand
            &&& forall|i: int| 0 <= i < vs.len() ==> policy_error(config, #[trigger] vs[i]) is None
        },
    decreases actions.len(),
{
    if actions.len() > 0 {
        law_resolved_actions_are_concrete(config, actions.drop_last());
        match resolve_all(config, actions.drop_last()) {
            Ok(prev) => match resolve_one(config, actions.last()) {
                Ok(x) => {
                    let vs = prev.push(x);
                    assert forall|i: int| 0 <= i < vs.len() implies (#[trigger] vs[i]).action_type
                        != ActionType::SemanticCommand && policy_error(config, vs[i]) is None by {
                        if i < prev.len() {
                            assert(vs[i] == prev[i]);
                        }
                    }
                },
                Err(_) => {},
            },
            Err(_) => {},
        }
    }
}

/// A semantic command resolves to the shortcut bound to it, repeated at
/// least once, when semantic commands are enabled and the policy allows the
/// shortcut.
pub proof fn law_semantic_command_becomes_its_shortcut(config: IntelligenceConfig, a: ActionView, c: SemanticCommandId)
    requires
        a.action_type == ActionType::SemanticCommand,
        a.command_id == Some(c),
        config.semantic_commands_enabled,
        policy_error(config, shortcut_view(semantic_binding(c).0, semantic_binding(c).1, at_least_once(a.repeat))) is None,
    ensures
        resolve_one(config, a) == Ok::<ActionView, Seq<char>>(
            shortcut_view(semantic_binding(c).0, semantic_binding(c).1, at_least_once(a.repeat)),
        ),
{
}

} // verus!
