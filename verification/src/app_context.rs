//! Classification of the application that has keyboard focus, from the name
//! or window class that the desktop reports for it.
use vstd::prelude::*;
use crate::models::{ActiveAppClass, ActiveAppContext};
use crate::text::{
    chars_of, has_substr, lower, str_contains, string_of, to_lower_chars, trim, trim_chars,
};

verus! {

/// The normalized application id: trimmed and ASCII lower-cased.
pub open spec fn normalized_id(raw: Seq<char>) -> Seq<char> {
    lower(trim(raw))
}

/// Whether the id names a web browser.
pub open spec fn is_browser_id(a: Seq<char>) -> bool {
    ||| has_substr(a, "firefox"@)
    ||| has_substr(a, "google-chrome"@)
    ||| has_substr(a, "chrome"@)
    ||| has_substr(a, "chromium"@)
    ||| has_substr(a, "brave"@)
    ||| has_substr(a, "microsoft-edge"@)
    ||| has_substr(a, "edge"@)
    ||| has_substr(a, "vivaldi"@)
    ||| has_substr(a, "zen"@)
    ||| has_substr(a, "safari"@)
}

/// Whether the id names a text or code editor.
pub open spec fn is_editor_id(a: Seq<char>) -> bool {
    ||| has_substr(a, "code"@)
    ||| has_substr(a, "codium"@)
    ||| has_substr(a, "cursor"@)
    ||| has_substr(a, "gedit"@)
    ||| has_substr(a, "text-editor"@)
    ||| has_substr(a, "kate"@)
    ||| has_substr(a, "sublime"@)
    ||| has_substr(a, "jetbrains"@)
    ||| has_substr(a, "xcode"@)
    ||| has_substr(a, "textedit"@)
}

/// Whether the id names a terminal emulator.
pub open spec fn is_terminal_id(a: Seq<char>) -> bool {
    ||| has_substr(a, "gnome-terminal"@)
    ||| has_substr(a, "ptyxis"@)
    ||| has_substr(a, "wezterm"@)
    ||| has_substr(a, "alacritty"@)
    ||| has_substr(a, "kitty"@)
    ||| has_substr(a, "xterm"@)
    ||| has_substr(a, "konsole"@)
    ||| has_substr(a, "tilix"@)
    ||| has_substr(a, "terminal"@)
    ||| has_substr(a, "iterm"@)
    ||| has_substr(a, "warp"@)
}

/// The class of an application id; browsers are recognised first, then
/// editors, then terminals.
pub open spec fn app_class_of(a: Seq<char>) -> ActiveAppClass {
    if is_browser_id(a) {
        ActiveAppClass::Browser
    } else if is_editor_id(a) {
        ActiveAppClass::Editor
    } else if is_terminal_id(a) {
        ActiveAppClass::Terminal
    } else {
        ActiveAppClass::Generic
    }
}

/// Trims the reported name and lower-cases its ASCII letters.
pub fn normalize_app_id(raw: &str) -> (r: String)
    ensures
        r@ == normalized_id(raw@),
{
    let cs = chars_of(raw);
    let t = trim_chars(&cs);
    let l = to_lower_chars(&t);
    string_of(&l)
}

/// Whether the id names a web browser.
pub fn matches_browser(app_id: &str) -> (r: bool)
    ensures
        r == is_browser_id(app_id@),
{
    str_contains(app_id, "firefox") || str_contains(app_id, "google-chrome")
        || str_contains(app_id, "chrome") || str_contains(app_id, "chromium")
        || str_contains(app_id, "brave") || str_contains(app_id, "microsoft-edge")
        || str_contains(app_id, "edge") || str_contains(app_id, "vivaldi")
        || str_contains(app_id, "zen") || str_contains(app_id, "safari")
}

/// Whether the id names a text or code editor.
pub fn matches_editor(app_id: &str) -> (r: bool)
    ensures
        r == is_editor_id(app_id@),
{
    str_contains(app_id, "code") || str_contains(app_id, "codium")
        || str_contains(app_id, "cursor") || str_contains(app_id, "gedit")
        || str_contains(app_id, "text-editor") || str_contains(app_id, "kate")
        || str_contains(app_id, "sublime") || str_contains(app_id, "jetbrains")
        || str_contains(app_id, "xcode") || str_contains(app_id, "textedit")
}

/// Whether the id names a terminal emulator.
pub fn matches_terminal(app_id: &str) -> (r: bool)
    ensures
        r == is_terminal_id(app_id@),
{
    str_contains(app_id, "gnome-terminal") || str_contains(app_id, "ptyxis")
        || str_contains(app_id, "wezterm") || str_contains(app_id, "alacritty")
        || str_contains(app_id, "kitty") || str_contains(app_id, "xterm")
        || str_contains(app_id, "konsole") || str_contains(app_id, "tilix")
        || str_contains(app_id, "terminal") || str_contains(app_id, "iterm")
        || str_contains(app_id, "warp")
}

/// The class of a normalized application id.
pub fn classify_app(app_id: &str) -> (r: ActiveAppClass)
    ensures
        r == app_class_of(app_id@),
{
    if matches_browser(app_id) {
        ActiveAppClass::Browser
    } else if matches_editor(app_id) {
        ActiveAppClass::Editor
    } else if matches_terminal(app_id) {
        ActiveAppClass::Terminal
    } else {
        ActiveAppClass::Generic
    }
}

/// The focus context for a window class reported by the desktop shell: the
/// class is normalized and classified.
pub fn context_from_window_class(wm_class: &str) -> (r: ActiveAppContext)
    ensures
        r.app_id matches Some(id) && id@ == normalized_id(wm_class@),
        r.app_class == app_class_of(normalized_id(wm_class@)),
{
    let app_id = normalize_app_id(wm_class);
    let class = classify_app(app_id.as_str());
    ActiveAppContext { app_class: class, app_id: Some(app_id) }
}

/// The focus context for the name of the frontmost application process, or
/// `None` when the name is blank.
pub fn context_from_process_name(name: &str) -> (r: Option<ActiveAppContext>)
    ensures
        normalized_id(name@).len() == 0 ==> r is None,
        normalized_id(name@).len() > 0 ==> (r matches Some(c) && c.app_id matches Some(id)
            && id@ == normalized_id(name@) && c.app_class == app_class_of(normalized_id(name@))),
{
    let app_id = normalize_app_id(name);
    if app_id.as_str().unicode_len() == 0 {
        return None;
    }
    let class = classify_app(app_id.as_str());
    Some(ActiveAppContext { app_class: class, app_id: Some(app_id) })
}

} // verus!
