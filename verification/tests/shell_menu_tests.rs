use copytej::shell_menu::{
    context_menu_entries, context_menu_keys, menu_command_for, move_command_for, registry_unsupported_error,
};

#[test]
fn menu_entries_for_files_then_directories() {
    let exe = r"C:\Program Files\CopyTej\copytej.exe";
    let v = context_menu_entries(exe);
    assert_eq!(v.len(), 8);
    let command = "\"C:\\Program Files\\CopyTej\\copytej.exe\" \"%1\"";
    assert_eq!(v[0].key, r"HKCU\Software\Classes\*\shell\CopyTej");
    assert_eq!(v[0].value, "Copy with CopyTej");
    assert_eq!(v[0].failure, "Failed to add file context menu registry key");
    assert_eq!(v[1].key, r"HKCU\Software\Classes\*\shell\CopyTej\command");
    assert_eq!(v[1].value, command);
    assert_eq!(v[1].failure, "Failed to add file command registry key");
    assert_eq!(v[2].key, r"HKCU\Software\Classes\Directory\shell\CopyTej");
    assert_eq!(v[2].value, "Copy with CopyTej");
    assert_eq!(v[2].failure, "Failed to add directory context menu registry key");
    assert_eq!(v[3].key, r"HKCU\Software\Classes\Directory\shell\CopyTej\command");
    assert_eq!(v[3].value, command);
    assert_eq!(v[3].failure, "Failed to add directory command registry key");
    let mv = "\"C:\\Program Files\\CopyTej\\copytej.exe\" --move \"%1\"";
    assert_eq!(v[4].key, r"HKCU\Software\Classes\*\shell\CopyTejMove");
    assert_eq!(v[4].value, "Move with CopyTej");
    assert_eq!(v[4].failure, "Failed to add file move menu registry key");
    assert_eq!(v[5].key, r"HKCU\Software\Classes\*\shell\CopyTejMove\command");
    assert_eq!(v[5].value, mv);
    assert_eq!(v[5].failure, "Failed to add file move command registry key");
    assert_eq!(v[6].key, r"HKCU\Software\Classes\Directory\shell\CopyTejMove");
    assert_eq!(v[6].value, "Move with CopyTej");
    assert_eq!(v[6].failure, "Failed to add directory move menu registry key");
    assert_eq!(v[7].key, r"HKCU\Software\Classes\Directory\shell\CopyTejMove\command");
    assert_eq!(v[7].value, mv);
    assert_eq!(v[7].failure, "Failed to add directory move command registry key");
}

#[test]
fn the_move_entry_launches_a_move() {
    let cmd = move_command_for("a.exe");
    assert_eq!(cmd, "\"a.exe\" --move \"%1\"");
    // What Explorer runs for `C:\x.txt` parses as a move of that file.
    let argv = vec!["a.exe".to_string(), "--move".to_string(), "C:\\x.txt".to_string()];
    let a = copytej::parse_cli_args(&argv).unwrap();
    assert!(a.is_move);
    assert_eq!(a.src_paths, vec!["C:\\x.txt".to_string()]);
}

#[test]
fn menu_command_quotes_program_and_path() {
    assert_eq!(menu_command_for("a.exe"), "\"a.exe\" \"%1\"");
    assert_eq!(menu_command_for(""), "\"\" \"%1\"");
}

#[test]
fn menu_keys_removed_on_unregister() {
    assert_eq!(
        context_menu_keys(),
        vec![
            r"HKCU\Software\Classes\*\shell\CopyTej".to_string(),
            r"HKCU\Software\Classes\Directory\shell\CopyTej".to_string(),
            r"HKCU\Software\Classes\*\shell\CopyTejMove".to_string(),
            r"HKCU\Software\Classes\Directory\shell\CopyTejMove".to_string()
        ]
    );
    assert_eq!(registry_unsupported_error(), "Registry operations are only supported on Windows");
}
