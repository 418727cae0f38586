use rtc_agent::preferences::{
    sanitize_preferences, sanitize_quick_commands, sanitize_shortcuts, PreferencesStore,
};
use rtc_agent::protocol::{
    RemoteTerminalAgentPreferencesData, RemoteTerminalQuickCommandData, RemoteTerminalShortcutData,
    RemoteTerminalShortcutKind, RemoteTerminalShortcutModifier,
};

#[test]
fn sanitize_empty_shortcuts() {
    let result = sanitize_shortcuts(vec![]);
    assert!(result.is_empty());
}

#[test]
fn sanitize_shortcut_empty_id_is_filtered() {
    let items = vec![RemoteTerminalShortcutData {
        id: "".into(),
        label: "test".into(),
        kind: RemoteTerminalShortcutKind::Key,
        sequence: vec![],
        key: "a".into(),
        modifiers: vec![],
        preset: false,
    }];
    assert!(sanitize_shortcuts(items).is_empty());
}

#[test]
fn sanitize_shortcut_whitespace_id_is_filtered() {
    let items = vec![RemoteTerminalShortcutData { id: "  ".into(), ..Default::default() }];
    assert!(sanitize_shortcuts(items).is_empty());
}

#[test]
fn sanitize_shortcut_key_kind_without_key_is_filtered() {
    let items = vec![RemoteTerminalShortcutData {
        id: "s1".into(),
        kind: RemoteTerminalShortcutKind::Key,
        key: "".into(),
        ..Default::default()
    }];
    assert!(sanitize_shortcuts(items).is_empty());
}

#[test]
fn sanitize_shortcut_sequence_kind_without_sequence_is_filtered() {
    let items = vec![RemoteTerminalShortcutData {
        id: "s1".into(),
        kind: RemoteTerminalShortcutKind::Sequence,
        sequence: vec![],
        ..Default::default()
    }];
    assert!(sanitize_shortcuts(items).is_empty());
}

#[test]
fn sanitize_shortcut_valid_key_passes() {
    let items = vec![RemoteTerminalShortcutData {
        id: "s1".into(),
        label: "Copy".into(),
        kind: RemoteTerminalShortcutKind::Key,
        key: "c".into(),
        modifiers: vec![RemoteTerminalShortcutModifier::Ctrl],
        ..Default::default()
    }];
    let result = sanitize_shortcuts(items);
    assert_eq!(result.len(), 1);
    assert_eq!(result[0].id, "s1");
    assert_eq!(result[0].modifiers, vec![RemoteTerminalShortcutModifier::Ctrl]);
}

#[test]
fn sanitize_shortcut_valid_sequence_passes() {
    let items = vec![RemoteTerminalShortcutData {
        id: "s1".into(),
        label: "Escape".into(),
        kind: RemoteTerminalShortcutKind::Sequence,
        sequence: vec!["\x1b".into(), "c".into()],
        ..Default::default()
    }];
    let result = sanitize_shortcuts(items);
    assert_eq!(result.len(), 1);
    assert_eq!(result[0].sequence.len(), 2);
}

#[test]
fn sanitize_shortcut_filters_unknown_modifiers() {
    let items = vec![RemoteTerminalShortcutData {
        id: "s1".into(),
        kind: RemoteTerminalShortcutKind::Key,
        key: "x".into(),
        modifiers: vec![
            RemoteTerminalShortcutModifier::Ctrl,
            RemoteTerminalShortcutModifier::Alt,
            RemoteTerminalShortcutModifier::Shift,
            RemoteTerminalShortcutModifier::Meta,
        ],
        ..Default::default()
    }];
    let result = sanitize_shortcuts(items);
    assert_eq!(result[0].modifiers.len(), 4);
}

#[test]
fn sanitize_shortcut_filters_empty_sequence_entries() {
    let items = vec![RemoteTerminalShortcutData {
        id: "s1".into(),
        kind: RemoteTerminalShortcutKind::Sequence,
        sequence: vec!["valid".into(), "".into(), "also-valid".into()],
        ..Default::default()
    }];
    let result = sanitize_shortcuts(items);
    assert_eq!(result[0].sequence.len(), 2);
}

#[test]
fn sanitize_shortcut_trims_id() {
    let items = vec![RemoteTerminalShortcutData {
        id: "  sid-1  ".into(),
        kind: RemoteTerminalShortcutKind::Key,
        key: "a".into(),
        ..Default::default()
    }];
    let result = sanitize_shortcuts(items);
    assert_eq!(result[0].id, "sid-1");
}

#[test]
fn sanitize_empty_quick_commands() {
    assert!(sanitize_quick_commands(vec![]).is_empty());
}

#[test]
fn sanitize_quick_command_empty_id_is_filtered() {
    let items = vec![RemoteTerminalQuickCommandData {
        id: "".into(),
        label: "ls".into(),
        command: "ls -la".into(),
    }];
    assert!(sanitize_quick_commands(items).is_empty());
}

#[test]
fn sanitize_quick_command_empty_label_is_filtered() {
    let items = vec![RemoteTerminalQuickCommandData {
        id: "c1".into(),
        label: "".into(),
        command: "ls".into(),
    }];
    assert!(sanitize_quick_commands(items).is_empty());
}

#[test]
fn sanitize_quick_command_empty_command_is_filtered() {
    let items = vec![RemoteTerminalQuickCommandData {
        id: "c1".into(),
        label: "List".into(),
        command: "".into(),
    }];
    assert!(sanitize_quick_commands(items).is_empty());
}

#[test]
fn sanitize_quick_command_whitespace_only_is_filtered() {
    let items = vec![RemoteTerminalQuickCommandData {
        id: "  ".into(),
        label: "  ".into(),
        command: "  ".into(),
    }];
    assert!(sanitize_quick_commands(items).is_empty());
}

#[test]
fn sanitize_quick_command_valid_passes() {
    let items = vec![RemoteTerminalQuickCommandData {
        id: "c1".into(),
        label: "List files".into(),
        command: "ls -la".into(),
    }];
    let result = sanitize_quick_commands(items);
    assert_eq!(result.len(), 1);
    assert_eq!(result[0].command, "ls -la");
}

#[test]
fn sanitize_quick_command_trims_all_fields() {
    let items = vec![RemoteTerminalQuickCommandData {
        id: "  c1  ".into(),
        label: "  List  ".into(),
        command: "  ls  ".into(),
    }];
    let result = sanitize_quick_commands(items);
    assert_eq!(result[0].id, "c1");
    assert_eq!(result[0].label, "List");
    assert_eq!(result[0].command, "ls");
}

#[test]
fn sanitize_quick_command_mixed_valid_invalid() {
    let items = vec![
        RemoteTerminalQuickCommandData {
            id: "c1".into(),
            label: "Valid".into(),
            command: "echo ok".into(),
        },
        RemoteTerminalQuickCommandData {
            id: "".into(),
            label: "Invalid".into(),
            command: "echo fail".into(),
        },
        RemoteTerminalQuickCommandData {
            id: "c2".into(),
            label: "".into(),
            command: "echo fail2".into(),
        },
        RemoteTerminalQuickCommandData {
            id: "c3".into(),
            label: "Valid2".into(),
            command: "echo ok2".into(),
        },
    ];
    let result = sanitize_quick_commands(items);
    assert_eq!(result.len(), 2);
    assert_eq!(result[0].id, "c1");
    assert_eq!(result[1].id, "c3");
}

#[test]
fn sanitize_preferences_trims_working_directory() {
    let prefs = RemoteTerminalAgentPreferencesData {
        default_working_directory: "  /home/user  ".into(),
        ..Default::default()
    };
    let result = sanitize_preferences(prefs);
    assert_eq!(result.default_working_directory, "/home/user");
}

#[test]
fn preferences_store_default_when_file_missing() {
    let mut store = PreferencesStore::new("/nonexistent/path/prefs.json");
    store.load(None);
    let prefs = store.get_preferences();
    assert_eq!(prefs.default_working_directory, "");
    assert!(prefs.shortcuts.is_empty());
}

#[test]
fn store_serves_committed_preferences() {
    let mut store = PreferencesStore::new("/tmp/rtc-agent-prefs-test/preferences.json");
    let prefs = RemoteTerminalAgentPreferencesData {
        default_working_directory: "/tmp".into(),
        shortcuts: vec![RemoteTerminalShortcutData {
            id: "s1".into(),
            label: "Copy".into(),
            kind: RemoteTerminalShortcutKind::Key,
            key: "c".into(),
            modifiers: vec![RemoteTerminalShortcutModifier::Ctrl],
            ..Default::default()
        }],
        quick_commands: vec![],
    };

    let staged = PreferencesStore::stage(prefs);
    let saved = store.commit(staged);
    assert_eq!(saved.default_working_directory, "/tmp");

    let retrieved = store.get_preferences();
    assert_eq!(retrieved.default_working_directory, "/tmp");
    assert_eq!(retrieved.shortcuts.len(), 1);
}

#[test]
fn store_serves_empty_preferences_for_unparsable_file() {
    // A file that does not parse is loaded as nothing.
    let mut store = PreferencesStore::new("/tmp/rtc-agent-prefs-test-corrupt/preferences.json");
    store.load(None);
    let prefs = store.get_preferences();
    assert_eq!(prefs.default_working_directory, "");
    assert!(prefs.shortcuts.is_empty());
}

#[test]
fn sanitizing_twice_changes_nothing() {
    let prefs = RemoteTerminalAgentPreferencesData {
        default_working_directory: "  /srv  ".into(),
        shortcuts: vec![RemoteTerminalShortcutData {
            id: " k ".into(),
            label: " L ".into(),
            kind: RemoteTerminalShortcutKind::Sequence,
            sequence: vec![" a ".into(), "   ".into()],
            ..Default::default()
        }],
        quick_commands: vec![RemoteTerminalQuickCommandData {
            id: " q ".into(),
            label: " Q ".into(),
            command: " echo ".into(),
        }],
    };
    let once = sanitize_preferences(prefs);
    let twice = sanitize_preferences(once.clone());
    assert_eq!(once.default_working_directory, twice.default_working_directory);
    assert_eq!(once.shortcuts.len(), twice.shortcuts.len());
    assert_eq!(once.shortcuts[0].id, twice.shortcuts[0].id);
    assert_eq!(once.shortcuts[0].sequence, twice.shortcuts[0].sequence);
    assert_eq!(once.quick_commands[0].command, twice.quick_commands[0].command);
}

#[test]
fn loaded_cache_is_kept_until_commit() {
    let mut store = PreferencesStore::new("/tmp/x.json");
    assert!(store.needs_load());
    store.load(None);
    assert!(!store.needs_load());
    let staged = PreferencesStore::stage(RemoteTerminalAgentPreferencesData {
        default_working_directory: " /work ".into(),
        ..Default::default()
    });
    store.load(None);
    store.commit(staged);
    assert_eq!(store.get_preferences().default_working_directory, "/work");
}

#[test]
fn failed_write_leaves_cache_untouched() {
    let mut store = PreferencesStore::new("/tmp/y.json");
    let first = PreferencesStore::stage(RemoteTerminalAgentPreferencesData {
        default_working_directory: "/first".into(),
        ..Default::default()
    });
    assert!(store.record_write(first, Ok(())).is_ok());
    let second = PreferencesStore::stage(RemoteTerminalAgentPreferencesData {
        default_working_directory: "/second".into(),
        ..Default::default()
    });
    let outcome = store.record_write(second, Err("write /tmp/y.json: denied".to_string()));
    assert_eq!(outcome.unwrap_err(), "write /tmp/y.json: denied");
    assert_eq!(store.get_preferences().default_working_directory, "/first");
}

#[test]
fn successful_write_is_served() {
    let mut store = PreferencesStore::new("/tmp/z.json");
    let staged = PreferencesStore::stage(RemoteTerminalAgentPreferencesData {
        default_working_directory: "  /srv  ".into(),
        ..Default::default()
    });
    let saved = store.record_write(staged, Ok(())).unwrap();
    assert_eq!(saved.default_working_directory, "/srv");
    assert!(!store.needs_load());
    assert_eq!(store.get_preferences().default_working_directory, "/srv");
}
