use rustysound::shortcuts::{
    ascii_lowercase, element_is_editable, is_editable_shortcut_target, shortcut_action_from_key, ElementInfo,
    KeyInput, ShortcutAction,
};

fn key(k: &str) -> KeyInput {
    KeyInput {
        key: k.to_string(),
        code: String::new(),
        key_code: 0,
        meta_key: false,
        ctrl_key: false,
        alt_key: false,
        shift_key: false,
        default_prevented: false,
        is_composing: false,
    }
}

#[test]
fn media_keys() {
    assert_eq!(shortcut_action_from_key(&key("MediaTrackNext"), false), Some(ShortcutAction::Next));
    assert_eq!(shortcut_action_from_key(&key("F7"), false), Some(ShortcutAction::Previous));
    assert_eq!(shortcut_action_from_key(&key("MediaPlayPause"), false), Some(ShortcutAction::TogglePlay));
    let mut legacy = key("Unidentified");
    legacy.key_code = 176;
    assert_eq!(shortcut_action_from_key(&legacy, false), Some(ShortcutAction::Next));
    assert_eq!(ShortcutAction::TogglePlay.name(), "toggle_play");
    assert_eq!(ShortcutAction::Next.name(), "next");
    assert_eq!(ShortcutAction::Previous.name(), "previous");
}

#[test]
fn modifier_arrows_and_space() {
    let mut right = key("ArrowRight");
    assert_eq!(shortcut_action_from_key(&right, false), None);
    right.ctrl_key = true;
    assert_eq!(shortcut_action_from_key(&right, false), Some(ShortcutAction::Next));
    right.shift_key = true;
    assert_eq!(shortcut_action_from_key(&right, false), None);
    let mut left = key("ArrowLeft");
    left.meta_key = true;
    assert_eq!(shortcut_action_from_key(&left, false), Some(ShortcutAction::Previous));
    assert_eq!(shortcut_action_from_key(&key(" "), false), Some(ShortcutAction::TogglePlay));
    let mut ctrl_space = key(" ");
    ctrl_space.ctrl_key = true;
    assert_eq!(shortcut_action_from_key(&ctrl_space, false), None);
}

#[test]
fn no_shortcut_while_typing() {
    assert_eq!(shortcut_action_from_key(&key(" "), true), None);
    let mut composing = key("MediaTrackNext");
    composing.is_composing = true;
    assert_eq!(shortcut_action_from_key(&composing, false), None);
    let mut handled = key("F8");
    handled.default_prevented = true;
    assert_eq!(shortcut_action_from_key(&handled, false), None);
}

#[test]
fn editable_targets() {
    let input = ElementInfo { tag_name: "INPUT".to_string(), contenteditable: None };
    let div = ElementInfo { tag_name: "div".to_string(), contenteditable: None };
    let editable = ElementInfo { tag_name: "div".to_string(), contenteditable: Some("true".to_string()) };
    let not_editable = ElementInfo { tag_name: "span".to_string(), contenteditable: Some("FALSE".to_string()) };
    assert!(element_is_editable(&input));
    assert!(!element_is_editable(&div));
    assert!(element_is_editable(&editable));
    assert!(!element_is_editable(&not_editable));
    assert!(is_editable_shortcut_target(&vec![
        ElementInfo { tag_name: "span".to_string(), contenteditable: None },
        ElementInfo { tag_name: "TextArea".to_string(), contenteditable: None },
    ]));
    assert!(!is_editable_shortcut_target(&vec![div, not_editable]));
    assert!(!is_editable_shortcut_target(&vec![]));
    assert_eq!(ascii_lowercase("AbC-Ü"), "abc-Ü");
}
