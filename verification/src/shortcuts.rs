//! The shell-integration artifacts of Wayland hotkey registration: the
//! trigger script and the per-shell registration command lines.
//!
//! The script's only job is to touch the hotkey-trigger marker; the
//! registration commands bind it to the key combination through the
//! desktop-settings tool on GNOME or the config-writing tool on KDE. For
//! any other shell, operator-facing instructions describe the manual setup.
//! Each command line is a plain argument list, program first; running the
//! commands is the caller's part.

use vstd::prelude::*;

verus! {

/// The content of the trigger script: a shell header and one line touching
/// the trigger marker.
pub fn trigger_script_content(trigger_path: &str) -> (r: String)
    ensures
        r@ == "#!/bin/sh\ntouch "@ + trigger_path@ + "\n"@,
{
    String::from_str("#!/bin/sh\ntouch ").concat(trigger_path).concat("\n")
}

/// The content of the focus helper script: it re-runs the application with
/// the focus flag.
pub fn focus_script_content(exe_path: &str) -> (r: String)
    ensures
        r@ == "#!/bin/sh\n"@ + exe_path@ + " --focus\n"@,
{
    String::from_str("#!/bin/sh\n").concat(exe_path).concat(" --focus\n")
}

/// Append one argument to an argument list.
fn push_arg(v: &mut Vec<String>, s: &str)
    ensures
        final(v).deep_view() == old(v).deep_view().push(s@),
{
    v.push(String::from_str(s));
    assert(final(v).deep_view() =~= old(v).deep_view().push(s@));
}

/// The command marking the custom-keybinding slot in the GNOME settings
/// database.
pub open spec fn gnome_register_cmd() -> Seq<Seq<char>> {
    seq![
        "gsettings"@,
        "set"@,
        "org.gnome.settings-daemon.plugins.media-keys"@,
        "custom-keybindings"@,
        "['/org/gnome/settings-daemon/plugins/media-keys/custom-keybindings/translator/']"@,
    ]
}

/// The command naming the keybinding.
pub open spec fn gnome_name_cmd() -> Seq<Seq<char>> {
    seq![
        "gsettings"@,
        "set"@,
        "org.gnome.settings-daemon.plugins.media-keys.custom-keybinding:/org/gnome/settings-daemon/plugins/media-keys/custom-keybindings/translator/"@,
        "name"@,
        "'Translator Hotkey'"@,
    ]
}

/// The command binding the trigger script as the keybinding's action.
pub open spec fn gnome_exec_cmd(script: Seq<char>) -> Seq<Seq<char>> {
    seq![
        "gsettings"@,
        "set"@,
        "org.gnome.settings-daemon.plugins.media-keys.custom-keybinding:/org/gnome/settings-daemon/plugins/media-keys/custom-keybindings/translator/"@,
        "command"@,
        "'"@ + script + "'"@,
    ]
}

/// The command setting the key combination of the keybinding.
pub open spec fn gnome_binding_cmd() -> Seq<Seq<char>> {
    seq![
        "gsettings"@,
        "set"@,
        "org.gnome.settings-daemon.plugins.media-keys.custom-keybinding:/org/gnome/settings-daemon/plugins/media-keys/custom-keybindings/translator/"@,
        "binding"@,
        "'<Control><Alt>t'"@,
    ]
}

/// The four GNOME registration commands, in the order they are run.
pub open spec fn spec_gnome_commands(script: Seq<char>) -> Seq<Seq<Seq<char>>> {
    seq![gnome_register_cmd(), gnome_name_cmd(), gnome_exec_cmd(script), gnome_binding_cmd()]
}

/// Build the GNOME registration command lines for a trigger script.
pub fn gnome_shortcut_commands(script_path: &str) -> (r: Vec<Vec<String>>)
    ensures
        r.deep_view() == spec_gnome_commands(script_path@),
{
    let mut reg: Vec<String> = Vec::new();
    push_arg(&mut reg, "gsettings");
    push_arg(&mut reg, "set");
    push_arg(&mut reg, "org.gnome.settings-daemon.plugins.media-keys");
    push_arg(&mut reg, "custom-keybindings");
    push_arg(
        &mut reg,
        "['/org/gnome/settings-daemon/plugins/media-keys/custom-keybindings/translator/']",
    );
    assert(reg.deep_view() =~= gnome_register_cmd());

    let mut name: Vec<String> = Vec::new();
    push_arg(&mut name, "gsettings");
    push_arg(&mut name, "set");
    push_arg(
        &mut name,
        "org.gnome.settings-daemon.plugins.media-keys.custom-keybinding:/org/gnome/settings-daemon/plugins/media-keys/custom-keybindings/translator/",
    );
    push_arg(&mut name, "name");
    push_arg(&mut name, "'Translator Hotkey'");
    assert(name.deep_view() =~= gnome_name_cmd());

    let mut exec: Vec<String> = Vec::new();
    push_arg(&mut exec, "gsettings");
    push_arg(&mut exec, "set");
    push_arg(
        &mut exec,
        "org.gnome.settings-daemon.plugins.media-keys.custom-keybinding:/org/gnome/settings-daemon/plugins/media-keys/custom-keybindings/translator/",
    );
    push_arg(&mut exec, "command");
    let quoted = String::from_str("'").concat(script_path).concat("'");
    let ghost exec_before = exec.deep_view();
    exec.push(quoted);
    assert(exec.deep_view() =~= exec_before.push("'"@ + script_path@ + "'"@));
    assert(exec.deep_view() =~= gnome_exec_cmd(script_path@));

    let mut bind: Vec<String> = Vec::new();
    push_arg(&mut bind, "gsettings");
    push_arg(&mut bind, "set");
    push_arg(
        &mut bind,
        "org.gnome.settings-daemon.plugins.media-keys.custom-keybinding:/org/gnome/settings-daemon/plugins/media-keys/custom-keybindings/translator/",
    );
    push_arg(&mut bind, "binding");
    push_arg(&mut bind, "'<Control><Alt>t'");
    assert(bind.deep_view() =~= gnome_binding_cmd());

    let mut r: Vec<Vec<String>> = Vec::new();
    r.push(reg);
    r.push(name);
    r.push(exec);
    r.push(bind);
    assert(r.deep_view() =~= spec_gnome_commands(script_path@));
    r
}

/// The KDE command writing the shortcut into the global-shortcuts
/// configuration.
pub open spec fn kde_write_cmd(script: Seq<char>) -> Seq<Seq<char>> {
    seq![
        "kwriteconfig5"@,
        "--file"@,
        "kglobalshortcutsrc"@,
        "--group"@,
        "translator"@,
        "--key"@,
        "TranslatorHotkey"@,
        script + ",,Translator Hotkey"@,
    ]
}

/// The KDE command reloading the global-shortcut service.
pub open spec fn kde_reload_cmd() -> Seq<Seq<char>> {
    seq!["kquitapp5"@, "kglobalaccel"@]
}

/// The two KDE registration commands, in the order they are run.
pub open spec fn spec_kde_commands(script: Seq<char>) -> Seq<Seq<Seq<char>>> {
    seq![kde_write_cmd(script), kde_reload_cmd()]
}

/// Build the KDE registration command lines for a trigger script.
pub fn kde_shortcut_commands(script_path: &str) -> (r: Vec<Vec<String>>)
    ensures
        r.deep_view() == spec_kde_commands(script_path@),
{
    let mut write: Vec<String> = Vec::new();
    push_arg(&mut write, "kwriteconfig5");
    push_arg(&mut write, "--file");
    push_arg(&mut write, "kglobalshortcutsrc");
    push_arg(&mut write, "--group");
    push_arg(&mut write, "translator");
    push_arg(&mut write, "--key");
    push_arg(&mut write, "TranslatorHotkey");
    let entry = String::from_str(script_path).concat(",,Translator Hotkey");
    let ghost write_before = write.deep_view();
    write.push(entry);
    assert(write.deep_view() =~= write_before.push(script_path@ + ",,Translator Hotkey"@));
    assert(write.deep_view() =~= kde_write_cmd(script_path@));

    let mut reload: Vec<String> = Vec::new();
    push_arg(&mut reload, "kquitapp5");
    push_arg(&mut reload, "kglobalaccel");
    assert(reload.deep_view() =~= kde_reload_cmd());

    let mut r: Vec<Vec<String>> = Vec::new();
    r.push(write);
    r.push(reload);
    assert(r.deep_view() =~= spec_kde_commands(script_path@));
    r
}

/// The command making a script executable.
pub fn make_executable_command(path: &str) -> (r: Vec<String>)
    ensures
        r.deep_view() == seq!["chmod"@, "+x"@, path@],
{
    let mut v: Vec<String> = Vec::new();
    push_arg(&mut v, "chmod");
    push_arg(&mut v, "+x");
    push_arg(&mut v, path);
    assert(v.deep_view() =~= seq!["chmod"@, "+x"@, path@]);
    v
}

/// The operator-facing lines printed where no shell-specific registration
/// applies: the shortcut must be added by hand.
pub fn manual_instruction_lines(script_path: &str) -> (r: Vec<String>)
    ensures
        r.deep_view() == seq![
            "Shortcut registration for your desktop environment is not directly supported."@,
            "Please manually add a global shortcut for Ctrl+Alt+T that runs:"@,
            "  "@ + script_path@,
        ],
{
    let mut v: Vec<String> = Vec::new();
    push_arg(
        &mut v,
        "Shortcut registration for your desktop environment is not directly supported.",
    );
    push_arg(&mut v, "Please manually add a global shortcut for Ctrl+Alt+T that runs:");
    let indented = String::from_str("  ").concat(script_path);
    let ghost before = v.deep_view();
    v.push(indented);
    assert(v.deep_view() =~= before.push("  "@ + script_path@));
    assert(v.deep_view() =~= seq![
        "Shortcut registration for your desktop environment is not directly supported."@,
        "Please manually add a global shortcut for Ctrl+Alt+T that runs:"@,
        "  "@ + script_path@,
    ]);
    v
}

} // verus!
