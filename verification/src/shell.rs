//! Decisions of the application shell: the greeting command and the key
//! that hides the window.

use vstd::prelude::*;

verus! {

pub open spec fn greeting(name: Seq<char>) -> Seq<char> {
    "Hello, "@ + name + "! You've been greeted from Rust!"@
}

pub fn greet(name: &str) -> (r: String)
    ensures
        r@ == greeting(name@),
{
    let mut s = String::from_str("Hello, ");
    s.append(name);
    s.append("! You've been greeted from Rust!");
    s
}

/// What the hide key does to the main window.
#[derive(Debug, Clone, Copy, PartialEq, Eq, Structural)]
pub enum WindowToggle {
    Hide,
    ShowAndFocus,
}

/// The hide key hides a visible window and brings back a hidden one; a
/// window whose visibility cannot be read counts as visible.
pub fn boss_key_action(visible: Option<bool>) -> (r: WindowToggle)
    ensures
        r == if visible != Some(false) {
            WindowToggle::Hide
        } else {
            WindowToggle::ShowAndFocus
        },
{
    match visible {
        Some(false) => WindowToggle::ShowAndFocus,
        _ => WindowToggle::Hide,
    }
}

/// The name of the key of the hide shortcut, as keyboard codes are named.
pub const BOSS_KEY_CODE: &'static str = "KeyX";

/// Whether a shortcut is the hide key, Ctrl+Alt+X: Control and Alt held,
/// no other modifier, and the key X.
pub fn is_boss_shortcut(control: bool, alt: bool, other_modifiers: bool, key_code: &str) -> (r: bool)
    ensures
        r == (control && alt && !other_modifiers && key_code@ == BOSS_KEY_CODE@),
{
    control && alt && !other_modifiers && crate::text::str_eq(key_code, BOSS_KEY_CODE)
}

/// What a global shortcut event does to the main window: only a press of
/// the hide key acts, toggling the window as `boss_key_action` says; a key
/// release or another shortcut changes nothing.
pub fn boss_key_decision(is_boss_shortcut: bool, pressed: bool, visible: Option<bool>) -> (r: Option<WindowToggle>)
    ensures
        r is Some <==> (is_boss_shortcut && pressed),
        r matches Some(t) ==> t == (if visible != Some(false) {
            WindowToggle::Hide
        } else {
            WindowToggle::ShowAndFocus
        }),
{
    if is_boss_shortcut && pressed {
        Some(boss_key_action(visible))
    } else {
        None
    }
}

} // verus!
