use snippet::settings::{
    snapshot_for, AppConfig, ModelSource, SettingsError, SettingsStore, ShortcutConfig,
    DEFAULT_OLLAMA_BASE_URL,
};

#[test]
fn defaults_to_the_local_ollama_server() {
    let config = AppConfig::default();
    assert_eq!(config.ollama_base_url, DEFAULT_OLLAMA_BASE_URL);
    assert_eq!(config.model, None);
    assert!(!config.thinking);
}

#[test]
fn normalizes_a_configured_url_and_model() {
    let config = AppConfig {
        ollama_base_url: " http://localhost:11434/ ".into(),
        model: Some(" qwen3:8b ".into()),
        thinking: true,
        shortcuts: ShortcutConfig::default(),
    }
    .normalized()
    .unwrap();

    assert_eq!(config.ollama_base_url, DEFAULT_OLLAMA_BASE_URL);
    assert_eq!(config.model.as_deref(), Some("qwen3:8b"));
    assert!(config.thinking);
}

#[test]
fn rejects_an_invalid_base_url() {
    let error = AppConfig {
        ollama_base_url: "not-a-url".into(),
        model: None,
        thinking: false,
        shortcuts: ShortcutConfig::default(),
    }
    .normalized()
    .unwrap_err();

    assert!(matches!(error, SettingsError::InvalidBaseUrl));
}

#[test]
fn provides_the_default_shortcuts() {
    assert_eq!(ShortcutConfig::default().open_popup, "Ctrl+Shift+Space");
    assert_eq!(ShortcutConfig::default().summarize, "Ctrl+Shift+S");
    assert_eq!(ShortcutConfig::default().explain, "Ctrl+Shift+E");
    assert_eq!(ShortcutConfig::default().refine, "Ctrl+Shift+R");
}

#[test]
fn rejects_invalid_or_duplicate_shortcuts() {
    let invalid = ShortcutConfig {
        summarize: "not a shortcut".into(),
        ..ShortcutConfig::default()
    }
    .normalized()
    .unwrap_err();
    assert!(matches!(invalid, SettingsError::InvalidShortcut(_)));

    let duplicate = ShortcutConfig {
        explain: "Ctrl+Shift+S".into(),
        ..ShortcutConfig::default()
    }
    .normalized()
    .unwrap_err();
    assert!(matches!(duplicate, SettingsError::DuplicateShortcut));
}

#[test]
fn reports_no_model_when_settings_are_empty() {
    let snapshot = snapshot_for(AppConfig::default(), None);

    assert_eq!(snapshot.effective_model, None);
    assert!(matches!(snapshot.model_source, ModelSource::Unset));
}

#[test]
fn names_the_invalid_shortcut() {
    let error = ShortcutConfig {
        refine: "Ctrl+Nothing".into(),
        ..ShortcutConfig::default()
    }
    .normalized()
    .unwrap_err();
    assert_eq!(error, SettingsError::InvalidShortcut("Refine".into()));
    assert_eq!(
        error.user_message(),
        "Refine needs a shortcut such as Ctrl+Shift+S, or leave it blank to disable it."
    );
}

#[test]
fn leaves_blank_shortcuts_disabled_and_trims_the_others() {
    let shortcuts = ShortcutConfig {
        open_popup: "  Ctrl+Shift+Space ".into(),
        summarize: "   ".into(),
        explain: String::new(),
        refine: "ctrl+shift+r".into(),
    }
    .normalized()
    .unwrap();
    assert_eq!(shortcuts.open_popup, "Ctrl+Shift+Space");
    assert_eq!(shortcuts.summarize, "");
    assert_eq!(shortcuts.explain, "");
    assert_eq!(shortcuts.refine, "ctrl+shift+r");
}

#[test]
fn lists_the_bindings_in_order() {
    let shortcuts = ShortcutConfig::default();
    assert_eq!(
        shortcuts.bindings(),
        [
            ("Open popup", "Ctrl+Shift+Space"),
            ("Summarize", "Ctrl+Shift+S"),
            ("Explain", "Ctrl+Shift+E"),
            ("Refine", "Ctrl+Shift+R"),
        ]
    );
}

#[test]
fn rejects_addresses_without_a_web_scheme_or_host() {
    for address in ["   ", "///", "ftp://localhost:11434", "file:///tmp/ollama", "mailto:a@b"] {
        let error = AppConfig {
            ollama_base_url: address.into(),
            ..AppConfig::default()
        }
        .normalized()
        .unwrap_err();
        assert!(matches!(error, SettingsError::InvalidBaseUrl), "{address}");
    }
    let config = AppConfig {
        ollama_base_url: "https://ollama.example.com///".into(),
        model: Some("   ".into()),
        ..AppConfig::default()
    }
    .normalized()
    .unwrap();
    assert_eq!(config.ollama_base_url, "https://ollama.example.com");
    assert_eq!(config.model, None);
}

#[test]
fn checks_the_address_before_the_shortcuts() {
    let error = AppConfig {
        ollama_base_url: "nope".into(),
        shortcuts: ShortcutConfig {
            explain: "Ctrl+Shift+S".into(),
            ..ShortcutConfig::default()
        },
        ..AppConfig::default()
    }
    .normalized()
    .unwrap_err();
    assert_eq!(error, SettingsError::InvalidBaseUrl);
}

#[test]
fn normalizing_twice_changes_nothing() {
    let once = AppConfig {
        ollama_base_url: "\thttp://127.0.0.1:11434// ".into(),
        model: Some(" llama3 ".into()),
        thinking: true,
        shortcuts: ShortcutConfig {
            summarize: " Alt+S ".into(),
            ..ShortcutConfig::default()
        },
    }
    .normalized()
    .unwrap();
    let twice = once.clone().normalized().unwrap();
    assert_eq!(once, twice);
}

#[test]
fn prefers_the_environment_model() {
    let config = AppConfig {
        model: Some("saved".into()),
        ..AppConfig::default()
    };
    let snapshot = snapshot_for(config.clone(), Some("  env-model ".into()));
    assert_eq!(snapshot.effective_model.as_deref(), Some("env-model"));
    assert!(matches!(snapshot.model_source, ModelSource::Environment));

    let snapshot = snapshot_for(config, Some(" ".into()));
    assert_eq!(snapshot.effective_model.as_deref(), Some("saved"));
    assert!(matches!(snapshot.model_source, ModelSource::Settings));
}

#[test]
fn the_store_keeps_what_update_accepted() {
    let mut store = SettingsStore::load(None).unwrap();
    assert_eq!(store.snapshot(None).config, AppConfig::default());

    let snapshot = store
        .update(
            AppConfig {
                model: Some(" mistral ".into()),
                ..AppConfig::default()
            },
            None,
        )
        .unwrap();
    assert_eq!(snapshot.effective_model.as_deref(), Some("mistral"));
    assert_eq!(store.snapshot(None).config.model.as_deref(), Some("mistral"));

    let refused = store.update(
        AppConfig {
            ollama_base_url: "bad".into(),
            ..AppConfig::default()
        },
        None,
    );
    assert!(matches!(refused, Err(SettingsError::InvalidBaseUrl)));
    assert_eq!(store.snapshot(None).config.model.as_deref(), Some("mistral"));
}

#[test]
fn loading_normalizes_the_saved_configuration() {
    let store = SettingsStore::load(Some(AppConfig {
        ollama_base_url: "http://localhost:11434/".into(),
        ..AppConfig::default()
    }))
    .unwrap();
    assert_eq!(
        store.snapshot(None).config.ollama_base_url,
        DEFAULT_OLLAMA_BASE_URL
    );
    assert!(SettingsStore::load(Some(AppConfig {
        ollama_base_url: "".into(),
        ..AppConfig::default()
    }))
    .is_err());
}

#[test]
fn describes_settings_errors() {
    assert_eq!(
        SettingsError::Read("denied".into()).user_message(),
        "Snippet could not read its saved settings: denied"
    );
    assert_eq!(
        SettingsError::Write("full".into()).user_message(),
        "Snippet could not save your settings: full"
    );
    assert_eq!(
        SettingsError::InvalidBaseUrl.user_message(),
        "Enter a valid http:// or https:// Ollama address."
    );
}
