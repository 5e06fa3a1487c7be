//! Display-server detection, selection capture, window activation, and the
//! filesystem artifacts.

use swiftlingo::activator::{
    active_window_message_data, atoms_to_bytes, net_active_window_name, net_wm_state_above_name,
    net_wm_state_name, net_wm_state_sticky_name, WindowManager, WindowState, X11Atoms,
};
use swiftlingo::ascii::{contains_ignore_ascii_case_str, eq_ignore_ascii_case, str_eq};
use swiftlingo::paths::{
    config_dir, focus_marker_path, focus_script_path, selection_marker_path, settings_file_path,
    trigger_marker_path, trigger_script_path,
};
use swiftlingo::probe::{detect, detect_shell, is_wayland_session, DesktopShell, DisplayServerKind, EnvSnapshot};
use swiftlingo::selection_reader::{
    capture_from, capture_plan, should_keep_waiting, SelectionMethod, SELECTION_WAIT_TIMEOUT_MS,
};
use swiftlingo::shortcuts::{
    focus_script_content, gnome_shortcut_commands, kde_shortcut_commands, make_executable_command,
    manual_instruction_lines, trigger_script_content,
};

fn snapshot(
    session_type: Option<&str>,
    wayland_display: Option<&str>,
    x11_display: Option<&str>,
    gdk_backend: Option<&str>,
    current_desktop: Option<&str>,
) -> EnvSnapshot {
    EnvSnapshot {
        session_type: session_type.map(String::from),
        wayland_display: wayland_display.map(String::from),
        x11_display: x11_display.map(String::from),
        gdk_backend: gdk_backend.map(String::from),
        current_desktop: current_desktop.map(String::from),
    }
}

#[test]
fn detect_wayland_session_type_wins() {
    let s = snapshot(Some("wayland"), None, Some(":0"), None, None);
    assert_eq!(detect(&s), DisplayServerKind::Wayland);
    let s = snapshot(Some("Wayland"), None, None, None, None);
    assert_eq!(detect(&s), DisplayServerKind::Wayland);
}

#[test]
fn detect_unknown_without_any_setting() {
    let s = snapshot(None, None, None, None, None);
    assert_eq!(detect(&s), DisplayServerKind::Unknown);
}

#[test]
fn detect_x11_with_display_only() {
    let s = snapshot(None, None, Some(":0"), None, None);
    assert_eq!(detect(&s), DisplayServerKind::X11);
    let s = snapshot(Some("x11"), None, Some(":0"), None, None);
    assert_eq!(detect(&s), DisplayServerKind::X11);
}

#[test]
fn detect_wayland_display_beats_x11_display() {
    let s = snapshot(None, Some("wayland-0"), Some(":0"), None, None);
    assert_eq!(detect(&s), DisplayServerKind::Wayland);
}

#[test]
fn detect_shell_matches_case_insensitively() {
    let s = snapshot(None, None, None, None, Some("ubuntu:GNOME"));
    assert_eq!(detect_shell(&s), DesktopShell::Gnome);
    let s = snapshot(None, None, None, None, Some("KDE"));
    assert_eq!(detect_shell(&s), DesktopShell::Kde);
    let s = snapshot(None, None, None, None, Some("sway"));
    assert_eq!(detect_shell(&s), DesktopShell::Generic);
    let s = snapshot(None, None, None, None, None);
    assert_eq!(detect_shell(&s), DesktopShell::Generic);
}

#[test]
fn wayland_session_indicators() {
    assert!(is_wayland_session(&snapshot(Some("wayland"), None, None, None, None)));
    assert!(is_wayland_session(&snapshot(None, Some("wayland-0"), None, None, None)));
    assert!(is_wayland_session(&snapshot(None, None, None, Some("Wayland"), None)));
    assert!(!is_wayland_session(&snapshot(Some("x11"), None, Some(":0"), None, None)));
}

#[test]
fn ascii_matching() {
    assert!(eq_ignore_ascii_case("WayLand", "wayland"));
    assert!(!eq_ignore_ascii_case("wayland", "waylandd"));
    assert!(str_eq("abc", "abc"));
    assert!(!str_eq("abc", "abd"));
    assert!(contains_ignore_ascii_case_str("ubuntu:GNOME", "gnome"));
    assert!(contains_ignore_ascii_case_str("kde", "kde"));
    assert!(!contains_ignore_ascii_case_str("sway", "gnome"));
    assert!(contains_ignore_ascii_case_str("anything", ""));
}

#[test]
fn capture_takes_first_non_empty() {
    let attempts = vec![
        None,
        Some(String::new()),
        Some(String::from("der Text")),
        Some(String::from("later")),
    ];
    assert_eq!(capture_from(&attempts), "der Text");
}

#[test]
fn capture_of_all_failures_is_empty_not_an_error() {
    let attempts: Vec<Option<String>> = vec![None, None, Some(String::new()), None];
    assert_eq!(capture_from(&attempts), "");
    let no_attempts: Vec<Option<String>> = Vec::new();
    assert_eq!(capture_from(&no_attempts), "");
}

#[test]
fn capture_plan_order() {
    assert_eq!(
        capture_plan(),
        vec![
            SelectionMethod::PrimaryClipboard,
            SelectionMethod::X11Tool,
            SelectionMethod::WaylandTool,
            SelectionMethod::X11ToolNoWaylandEnv,
        ]
    );
}

#[test]
fn clipboard_wait_is_bounded() {
    assert_eq!(SELECTION_WAIT_TIMEOUT_MS, 2000);
    assert!(should_keep_waiting(false, 0));
    assert!(should_keep_waiting(false, 2000));
    assert!(!should_keep_waiting(false, 2001));
    assert!(!should_keep_waiting(true, 0));
}

fn atoms() -> X11Atoms {
    X11Atoms {
        net_active_window: 0x101,
        net_wm_state: 0x102,
        net_wm_state_above: 0x103,
        net_wm_state_sticky: 0x104,
    }
}

#[test]
fn focus_window_is_idempotent() {
    let wm = WindowManager::new(&snapshot(None, None, Some(":0"), None, None), Some(atoms()));
    let mut w = WindowState {
        visible: false,
        minimized: true,
        focused: false,
        sticky: false,
        above: false,
    };
    let acts = wm.focus_window(&mut w);
    assert!(w.visible && !w.minimized && w.focused);
    assert!(acts.send_active_window_message);
    assert!(!acts.present_with_time);
    let after_first = w;
    let acts = wm.focus_window(&mut w);
    assert_eq!(w, after_first, "second activation changes nothing");
    assert!(acts.send_active_window_message);
    assert!(w.focused);
}

#[test]
fn wayland_manager_uses_toolkit_only() {
    let wm = WindowManager::new(&snapshot(Some("wayland"), None, None, None, None), Some(atoms()));
    assert!(wm.is_wayland);
    assert!(wm.x11.is_none(), "no X11 connection is kept under Wayland");
    let mut w = WindowState {
        visible: true,
        minimized: false,
        focused: true,
        sticky: false,
        above: false,
    };
    let property = wm.setup_window(&mut w);
    assert!(property.is_none());
    assert!(!w.sticky && !w.above);
    let acts = wm.focus_window(&mut w);
    assert!(acts.present_with_time);
    assert!(!acts.send_active_window_message);
}

#[test]
fn degraded_x11_manager_skips_protocol_steps() {
    let wm = WindowManager::new(&snapshot(None, None, Some(":0"), None, None), None);
    assert!(!wm.is_wayland);
    let mut w = WindowState {
        visible: false,
        minimized: false,
        focused: false,
        sticky: false,
        above: false,
    };
    assert!(wm.setup_window(&mut w).is_none());
    let acts = wm.focus_window(&mut w);
    assert!(!acts.send_active_window_message);
    assert!(w.focused, "toolkit-only activation still focuses the model");
}

#[test]
fn setup_window_applies_sticky_and_above() {
    let wm = WindowManager::new(&snapshot(None, None, Some(":0"), None, None), Some(atoms()));
    let mut w = WindowState {
        visible: false,
        minimized: false,
        focused: false,
        sticky: false,
        above: false,
    };
    let property = wm.setup_window(&mut w).expect("property data");
    assert!(w.sticky && w.above);
    // sticky atom 0x104 first, then above atom 0x103, little endian
    assert_eq!(property, vec![0x04, 0x01, 0, 0, 0x03, 0x01, 0, 0]);
}

#[test]
fn minimize_drops_focus() {
    let wm = WindowManager::new(&snapshot(None, None, Some(":0"), None, None), None);
    let mut w = WindowState {
        visible: true,
        minimized: false,
        focused: true,
        sticky: true,
        above: true,
    };
    wm.minimize_window(&mut w);
    assert!(w.minimized && !w.focused);
    assert!(w.visible && w.sticky && w.above);
    assert!(wm.check_clipboard_tools());
    wm.install_tools_if_needed();
}

#[test]
fn focus_script_only_for_x11() {
    let x11_wm = WindowManager::new(&snapshot(None, None, Some(":0"), None, None), None);
    assert_eq!(
        x11_wm.create_focus_script("/usr/bin/translator").as_deref(),
        Some("#!/bin/sh\n/usr/bin/translator --focus\n")
    );
    let wayland_wm = WindowManager::new(&snapshot(Some("wayland"), None, None, None, None), None);
    assert_eq!(wayland_wm.create_focus_script("/usr/bin/translator"), None);
}

#[test]
fn active_window_message_layout() {
    assert_eq!(active_window_message_data(), vec![1, 0, 0, 0, 0]);
}

#[test]
fn atom_byte_encoding() {
    let bytes = atoms_to_bytes(&vec![0x11223344, 1]);
    assert_eq!(bytes, vec![0x44, 0x33, 0x22, 0x11, 1, 0, 0, 0]);
    assert_eq!(atoms_to_bytes(&Vec::new()), Vec::<u8>::new());
}

#[test]
fn ewmh_atom_names() {
    assert_eq!(net_active_window_name(), "_NET_ACTIVE_WINDOW");
    assert_eq!(net_wm_state_name(), "_NET_WM_STATE");
    assert_eq!(net_wm_state_above_name(), "_NET_WM_STATE_ABOVE");
    assert_eq!(net_wm_state_sticky_name(), "_NET_WM_STATE_STICKY");
}

#[test]
fn configuration_paths() {
    assert_eq!(config_dir("/home/u"), "/home/u/.config/translator-app");
    assert_eq!(trigger_marker_path("/home/u"), "/home/u/.config/translator-app/hotkey-trigger");
    assert_eq!(selection_marker_path("/home/u"), "/home/u/.config/translator-app/selection.txt");
    assert_eq!(focus_marker_path("/home/u"), "/home/u/.config/translator-app/focus-window");
    assert_eq!(trigger_script_path("/home/u"), "/home/u/.config/translator-app/trigger.sh");
    assert_eq!(focus_script_path("/home/u"), "/home/u/.config/translator-app/focus.sh");
    assert_eq!(settings_file_path("/home/u"), "/home/u/.config/translator-app/settings.json");
}

#[test]
fn script_contents() {
    assert_eq!(
        trigger_script_content("/home/u/.config/translator-app/hotkey-trigger"),
        "#!/bin/sh\ntouch /home/u/.config/translator-app/hotkey-trigger\n"
    );
    assert_eq!(
        focus_script_content("/usr/bin/translator"),
        "#!/bin/sh\n/usr/bin/translator --focus\n"
    );
}

#[test]
fn gnome_registration_commands() {
    let cmds = gnome_shortcut_commands("/home/u/.config/translator-app/trigger.sh");
    assert_eq!(cmds.len(), 4);
    assert_eq!(
        cmds[0],
        vec![
            "gsettings".to_string(),
            "set".to_string(),
            "org.gnome.settings-daemon.plugins.media-keys".to_string(),
            "custom-keybindings".to_string(),
            "['/org/gnome/settings-daemon/plugins/media-keys/custom-keybindings/translator/']"
                .to_string(),
        ]
    );
    let path = "org.gnome.settings-daemon.plugins.media-keys.custom-keybinding:/org/gnome/settings-daemon/plugins/media-keys/custom-keybindings/translator/";
    assert_eq!(cmds[1][2], path);
    assert_eq!(cmds[1][3], "name");
    assert_eq!(cmds[1][4], "'Translator Hotkey'");
    assert_eq!(cmds[2][3], "command");
    assert_eq!(cmds[2][4], "'/home/u/.config/translator-app/trigger.sh'");
    assert_eq!(cmds[3][3], "binding");
    assert_eq!(cmds[3][4], "'<Control><Alt>t'");
}

#[test]
fn kde_registration_commands() {
    let cmds = kde_shortcut_commands("/home/u/.config/translator-app/trigger.sh");
    assert_eq!(cmds.len(), 2);
    assert_eq!(
        cmds[0],
        vec![
            "kwriteconfig5".to_string(),
            "--file".to_string(),
            "kglobalshortcutsrc".to_string(),
            "--group".to_string(),
            "translator".to_string(),
            "--key".to_string(),
            "TranslatorHotkey".to_string(),
            "/home/u/.config/translator-app/trigger.sh,,Translator Hotkey".to_string(),
        ]
    );
    assert_eq!(cmds[1], vec!["kquitapp5".to_string(), "kglobalaccel".to_string()]);
}

#[test]
fn chmod_and_manual_instructions() {
    assert_eq!(
        make_executable_command("/tmp/s.sh"),
        vec!["chmod".to_string(), "+x".to_string(), "/tmp/s.sh".to_string()]
    );
    let lines = manual_instruction_lines("/tmp/s.sh");
    assert_eq!(lines.len(), 3);
    assert_eq!(lines[2], "  /tmp/s.sh");
}
