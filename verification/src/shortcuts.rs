//! Keyboard and media-key shortcuts of the web player.
use vstd::prelude::*;

use crate::text::{ascii_lower, chars_of, str_eq, string_from_chars, to_ascii_lower};

verus! {

/// What a shortcut does.
#[derive(Debug, Clone, Copy, PartialEq, Eq, Structural)]
pub enum ShortcutAction {
    Next,
    Previous,
    TogglePlay,
}

impl ShortcutAction {
    /// The action's name as the player's controls know it.
    pub fn name(self) -> (r: &'static str)
        ensures
            r@ == match self {
                ShortcutAction::Next => "next"@,
                ShortcutAction::Previous => "previous"@,
                ShortcutAction::TogglePlay => "toggle_play"@,
            },
    {
        match self {
            ShortcutAction::Next => "next",
            ShortcutAction::Previous => "previous",
            ShortcutAction::TogglePlay => "toggle_play",
        }
    }
}

/// The parts of a key press that shortcuts look at.
#[derive(Debug)]
pub struct KeyInput {
    pub key: String,
    pub code: String,
    pub key_code: u32,
    pub meta_key: bool,
    pub ctrl_key: bool,
    pub alt_key: bool,
    pub shift_key: bool,
    pub default_prevented: bool,
    pub is_composing: bool,
}

pub open spec fn is_next_key(e: KeyInput) -> bool {
    ||| e.key@ == "MediaTrackNext"@
    ||| e.key@ == "MediaNextTrack"@
    ||| e.key@ == "AudioTrackNext"@
    ||| e.key@ == "AudioNext"@
    ||| e.key@ == "NextTrack"@
    ||| e.code@ == "MediaTrackNext"@
    ||| e.key@ == "F9"@
    ||| e.key_code == 176
}

pub open spec fn is_previous_key(e: KeyInput) -> bool {
    ||| e.key@ == "MediaTrackPrevious"@
    ||| e.key@ == "MediaPreviousTrack"@
    ||| e.code@ == "MediaTrackPrevious"@
    ||| e.key@ == "AudioTrackPrevious"@
    ||| e.key@ == "AudioPrev"@
    ||| e.key@ == "PreviousTrack"@
    ||| e.key@ == "F7"@
    ||| e.key_code == 177
}

pub open spec fn is_play_pause_key(e: KeyInput) -> bool {
    ||| e.key@ == "MediaPlayPause"@
    ||| e.code@ == "MediaPlayPause"@
    ||| e.key@ == "AudioPlay"@
    ||| e.key@ == "AudioPause"@
    ||| e.key@ == "F8"@
    ||| e.key_code == 179
}

/// The shortcut a key press triggers. None fires while the press was
/// already handled, is part of text composition, or lands in an editable
/// element. Media keys (and F7/F8/F9) skip and toggle; Cmd/Ctrl with an
/// arrow skips; a bare space toggles.
pub open spec fn shortcut_spec(e: KeyInput, editable_target: bool) -> Option<ShortcutAction> {
    if e.default_prevented || e.is_composing || editable_target {
        None
    } else if is_next_key(e) {
        Some(ShortcutAction::Next)
    } else if is_previous_key(e) {
        Some(ShortcutAction::Previous)
    } else if is_play_pause_key(e) {
        Some(ShortcutAction::TogglePlay)
    } else if (e.meta_key || e.ctrl_key) && !e.alt_key && !e.shift_key && e.key@ == "ArrowRight"@ {
        Some(ShortcutAction::Next)
    } else if (e.meta_key || e.ctrl_key) && !e.alt_key && !e.shift_key && e.key@ == "ArrowLeft"@ {
        Some(ShortcutAction::Previous)
    } else if !e.meta_key && !e.ctrl_key && !e.alt_key && (e.key@ == " "@ || e.key@ == "Spacebar"@
        || e.code@ == "Space"@) {
        Some(ShortcutAction::TogglePlay)
    } else {
        None
    }
}

pub fn shortcut_action_from_key(e: &KeyInput, editable_target: bool) -> (r: Option<ShortcutAction>)
    ensures
        r == shortcut_spec(*e, editable_target),
{
    if e.default_prevented || e.is_composing || editable_target {
        return None;
    }
    let key = e.key.as_str();
    let code = e.code.as_str();
    if str_eq(key, "MediaTrackNext") || str_eq(key, "MediaNextTrack") || str_eq(key, "AudioTrackNext")
        || str_eq(key, "AudioNext") || str_eq(key, "NextTrack") || str_eq(code, "MediaTrackNext")
        || str_eq(key, "F9") || e.key_code == 176 {
        return Some(ShortcutAction::Next);
    }
    if str_eq(key, "MediaTrackPrevious") || str_eq(key, "MediaPreviousTrack") || str_eq(code, "MediaTrackPrevious")
        || str_eq(key, "AudioTrackPrevious") || str_eq(key, "AudioPrev") || str_eq(key, "PreviousTrack")
        || str_eq(key, "F7") || e.key_code == 177 {
        return Some(ShortcutAction::Previous);
    }
    if str_eq(key, "MediaPlayPause") || str_eq(code, "MediaPlayPause") || str_eq(key, "AudioPlay")
        || str_eq(key, "AudioPause") || str_eq(key, "F8") || e.key_code == 179 {
        return Some(ShortcutAction::TogglePlay);
    }
    let meta_or_ctrl = e.meta_key || e.ctrl_key;
    if meta_or_ctrl && !e.alt_key && !e.shift_key {
        if str_eq(key, "ArrowRight") {
            return Some(ShortcutAction::Next);
        }
        if str_eq(key, "ArrowLeft") {
            return Some(ShortcutAction::Previous);
        }
    }
    if !e.meta_key && !e.ctrl_key && !e.alt_key && (str_eq(key, " ") || str_eq(key, "Spacebar") || str_eq(code, "Space")) {
        return Some(ShortcutAction::TogglePlay);
    }
    None
}

/// An element on the path from a key press's target up to the document.
#[derive(Debug)]
pub struct ElementInfo {
    pub tag_name: String,
    /// The value of its `contenteditable` attribute, when it has one.
    pub contenteditable: Option<String>,
}

/// Lower-cases the ASCII letters of a text.
pub fn ascii_lowercase(s: &str) -> (r: String)
    ensures
        r@ == s@.map_values(|c: char| ascii_lower(c)),
{
    let chars = chars_of(s);
    let mut out: Vec<char> = Vec::new();
    let mut i: usize = 0;
    while i < chars.len()
        invariant
            i <= chars@.len(),
            chars@ == s@,
            out@ == s@.take(i as int).map_values(|c: char| ascii_lower(c)),
        decreases chars@.len() - i,
    {
        out.push(to_ascii_lower(chars[i]));
        assert(out@ =~= s@.take(i + 1).map_values(|c: char| ascii_lower(c)));
        i += 1;
    }
    assert(s@.take(chars@.len() as int) =~= s@);
    string_from_chars(&out)
}

/// Text typed into this element must not trigger shortcuts: a form field,
/// or an element made editable.
pub open spec fn is_editable_element(e: ElementInfo) -> bool {
    let tag = e.tag_name@.map_values(|c: char| ascii_lower(c));
    ||| tag == "input"@
    ||| tag == "textarea"@
    ||| tag == "select"@
    ||| (e.contenteditable matches Some(v) && v@.map_values(|c: char| ascii_lower(c)) != "false"@)
}

pub fn element_is_editable(e: &ElementInfo) -> (r: bool)
    ensures
        r == is_editable_element(*e),
{
    let tag = ascii_lowercase(e.tag_name.as_str());
    if str_eq(tag.as_str(), "input") || str_eq(tag.as_str(), "textarea") || str_eq(tag.as_str(), "select") {
        return true;
    }
    match &e.contenteditable {
        Some(v) => {
            let lower = ascii_lowercase(v.as_str());
            !str_eq(lower.as_str(), "false")
        },
        None => false,
    }
}

/// The key press lands in an editable element when the target or any of
/// its ancestors (`chain`, from the target upwards) is one.
pub fn is_editable_shortcut_target(chain: &Vec<ElementInfo>) -> (r: bool)
    ensures
        r == exists|i: int| 0 <= i < chain@.len() && is_editable_element(#[trigger] chain@[i]),
{
    let mut i: usize = 0;
    while i < chain.len()
        invariant
            i <= chain@.len(),
            forall|j: int| 0 <= j < i ==> !is_editable_element(chain@[j]),
        decreases chain@.len() - i,
    {
        if element_is_editable(&chain[i]) {
            return true;
        }
        i += 1;
    }
    false
}

} // verus!
