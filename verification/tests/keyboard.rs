use wispr_core::error::WisprError;
use wispr_core::keyboard::{
    key_for_char, map_action_key, map_action_keycode, mac_action_taps, mac_patch_strokes,
    modifier_press_order, modifier_release_order, plan_actions, plan_patch, supported_keys,
    KeyEvent, MacStroke, PhysicalKey,
};
use wispr_core::models::{ActionCommand, ActionKey, ActionType, ModifierKey};
use wispr_core::typing::{diff_patch, TextPatch};

fn shortcut(key: Option<ActionKey>, modifiers: Vec<ModifierKey>, repeat: u8) -> ActionCommand {
    ActionCommand { action_type: ActionType::Shortcut, key, modifiers, repeat, command_id: None, target_app: None }
}

#[test]
fn patches_are_the_shortest_edit() {
    let patch = diff_patch("hello wor", "hello world!");
    assert_eq!(patch, TextPatch { backspaces: 0, insertion: "ld!".to_string() });
    let patch = diff_patch("héllo", "help");
    assert_eq!(patch, TextPatch { backspaces: 4, insertion: "elp".to_string() });
    let patch = diff_patch("café au", "café");
    assert_eq!(patch, TextPatch { backspaces: 3, insertion: String::new() });
}

#[test]
fn characters_map_to_keys_and_shift() {
    assert_eq!(key_for_char('a'), Some((PhysicalKey::A, false)));
    assert_eq!(key_for_char('A'), Some((PhysicalKey::A, true)));
    assert_eq!(key_for_char('?'), Some((PhysicalKey::Slash, true)));
    assert_eq!(key_for_char('\n'), Some((PhysicalKey::Enter, false)));
    assert_eq!(key_for_char('€'), None);
    assert_eq!(supported_keys().len(), 74);
}

#[test]
fn patch_plans_type_with_backspaces_first() {
    let plan = plan_patch(&TextPatch { backspaces: 1, insertion: "Hi".to_string() });
    assert!(plan.error.is_none());
    assert_eq!(
        plan.events,
        vec![
            KeyEvent::Press(PhysicalKey::Backspace),
            KeyEvent::Release(PhysicalKey::Backspace),
            KeyEvent::Pause,
            KeyEvent::Press(PhysicalKey::LeftShift),
            KeyEvent::Press(PhysicalKey::H),
            KeyEvent::Release(PhysicalKey::H),
            KeyEvent::Release(PhysicalKey::LeftShift),
            KeyEvent::Pause,
            KeyEvent::Press(PhysicalKey::I),
            KeyEvent::Release(PhysicalKey::I),
            KeyEvent::Pause,
        ]
    );
}

#[test]
fn untypeable_characters_stop_the_plan() {
    let plan = plan_patch(&TextPatch { backspaces: 0, insertion: "a€b".to_string() });
    assert_eq!(plan.events.len(), 3);
    match plan.error {
        Some(WisprError::InvalidState(m)) => assert_eq!(m, "unsupported typed character: '€'"),
        other => panic!("unexpected {other:?}"),
    }
}

#[test]
fn action_plans_hold_modifiers_around_the_key() {
    let plan = plan_actions(&vec![shortcut(Some(ActionKey::T), vec![ModifierKey::Shift, ModifierKey::Ctrl], 0)]);
    assert!(plan.error.is_none());
    assert_eq!(
        plan.events,
        vec![
            KeyEvent::Press(PhysicalKey::LeftCtrl),
            KeyEvent::Press(PhysicalKey::LeftShift),
            KeyEvent::Press(PhysicalKey::T),
            KeyEvent::Release(PhysicalKey::T),
            KeyEvent::Release(PhysicalKey::LeftShift),
            KeyEvent::Release(PhysicalKey::LeftCtrl),
            KeyEvent::Pause,
        ]
    );
    let twice = plan_actions(&vec![shortcut(Some(ActionKey::Space), Vec::new(), 2)]);
    assert_eq!(twice.events.len(), 6);
    let missing = plan_actions(&vec![shortcut(Some(ActionKey::A), Vec::new(), 1), shortcut(None, Vec::new(), 1)]);
    assert_eq!(missing.events.len(), 3);
    match missing.error {
        Some(WisprError::InvalidState(m)) => assert_eq!(m, "resolved action is missing a primary key"),
        other => panic!("unexpected {other:?}"),
    }
}

#[test]
fn modifier_orders() {
    let mods = vec![ModifierKey::Super, ModifierKey::Alt, ModifierKey::Ctrl];
    assert_eq!(modifier_press_order(&mods), vec![PhysicalKey::LeftCtrl, PhysicalKey::LeftAlt, PhysicalKey::LeftMeta]);
    assert_eq!(modifier_release_order(&mods), vec![PhysicalKey::LeftMeta, PhysicalKey::LeftAlt, PhysicalKey::LeftCtrl]);
}

#[test]
fn action_keys_map_on_both_platforms() {
    assert_eq!(map_action_key(ActionKey::Escape), PhysicalKey::Esc);
    assert_eq!(map_action_key(ActionKey::Digit0), PhysicalKey::Digit0);
    assert_eq!(map_action_keycode(ActionKey::Enter), 36);
    assert_eq!(map_action_keycode(ActionKey::A), 0);
    assert_eq!(map_action_keycode(ActionKey::F12), 111);
}

#[test]
fn mac_plans() {
    let strokes = mac_patch_strokes(&TextPatch { backspaces: 2, insertion: "a\n\t".to_string() });
    assert_eq!(
        strokes,
        vec![MacStroke::Key(51), MacStroke::Key(51), MacStroke::Text('a'), MacStroke::Key(36), MacStroke::Key(48)]
    );
    let (taps, error) = mac_action_taps(&vec![shortcut(Some(ActionKey::C), vec![ModifierKey::Super], 3)]);
    assert!(error.is_none());
    assert_eq!(taps.len(), 3);
    assert_eq!(taps[0].keycode, 8);
    assert_eq!(taps[2].modifiers, vec![ModifierKey::Super]);
}
