//! The filesystem layout of the pipeline, under the per-user configuration
//! directory.
//!
//! The marker files, the shortcut scripts and the settings file all live in
//! one directory; detection side and consuming side may be different
//! processes and find each other only through these paths.

use vstd::prelude::*;

verus! {

/// The configuration directory under a home directory.
pub open spec fn config_dir_chars(home: Seq<char>) -> Seq<char> {
    home + "/.config/translator-app"@
}

/// The per-user configuration directory.
pub fn config_dir(home: &str) -> (r: String)
    ensures
        r@ == config_dir_chars(home@),
{
    String::from_str(home).concat("/.config/translator-app")
}

/// The hotkey-trigger marker: its existence and modification time signal
/// that the hotkey fired.
pub fn trigger_marker_path(home: &str) -> (r: String)
    ensures
        r@ == config_dir_chars(home@) + "/hotkey-trigger"@,
{
    config_dir(home).concat("/hotkey-trigger")
}

/// The captured-selection marker: its content carries the selection text.
pub fn selection_marker_path(home: &str) -> (r: String)
    ensures
        r@ == config_dir_chars(home@) + "/selection.txt"@,
{
    config_dir(home).concat("/selection.txt")
}

/// The focus-request marker: its existence asks the UI to raise and focus
/// the window.
pub fn focus_marker_path(home: &str) -> (r: String)
    ensures
        r@ == config_dir_chars(home@) + "/focus-window"@,
{
    config_dir(home).concat("/focus-window")
}

/// The shell script registered as the desktop shortcut; it touches the
/// hotkey-trigger marker.
pub fn trigger_script_path(home: &str) -> (r: String)
    ensures
        r@ == config_dir_chars(home@) + "/trigger.sh"@,
{
    config_dir(home).concat("/trigger.sh")
}

/// The focus helper script.
pub fn focus_script_path(home: &str) -> (r: String)
    ensures
        r@ == config_dir_chars(home@) + "/focus.sh"@,
{
    config_dir(home).concat("/focus.sh")
}

/// The settings file.
pub fn settings_file_path(home: &str) -> (r: String)
    ensures
        r@ == config_dir_chars(home@) + "/settings.json"@,
{
    config_dir(home).concat("/settings.json")
}

} // verus!
