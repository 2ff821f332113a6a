use codexmeter::models::{
    AppLanguage, AppSettings, ConnectionState, ConnectionStatus, ResolvedLanguage, SavedPosition,
};
use codexmeter::settings::SettingsStore;

fn with_path(path: Option<&str>, secs: u64) -> AppSettings {
    AppSettings {
        refresh_interval_secs: secs,
        codex_binary_path: path.map(|p| p.to_string()),
        ..AppSettings::default()
    }
}

#[test]
fn defaults_follow_the_system_language() {
    let s = AppSettings::default();
    assert_eq!(s.language, AppLanguage::System);
    assert_eq!(s.refresh_interval_secs, 60);
    assert!(!s.compact_menu_bar);
    assert!(!s.hide_missing_windows);
    assert!(!s.widget_visible);
    assert_eq!(s.widget_position, None);
    assert_eq!(s.codex_binary_path, None);
}

#[test]
fn other_defaults() {
    assert_eq!(ResolvedLanguage::default(), ResolvedLanguage::English);
    assert_eq!(ConnectionStatus::default(), ConnectionStatus::Disconnected);
    let c = ConnectionState::default();
    assert_eq!(c.status, ConnectionStatus::Disconnected);
    assert_eq!(c.message, None);
    assert_eq!(c.executable, None);
}

#[test]
fn refresh_interval_is_clamped() {
    assert_eq!(with_path(None, 5).normalized().refresh_interval_secs, 30);
    assert_eq!(with_path(None, 30).normalized().refresh_interval_secs, 30);
    assert_eq!(with_path(None, 45).normalized().refresh_interval_secs, 45);
    assert_eq!(with_path(None, 60).normalized().refresh_interval_secs, 60);
    assert_eq!(with_path(None, 3600).normalized().refresh_interval_secs, 60);
    assert_eq!(with_path(None, 0).normalized().refresh_interval_secs, 30);
}

#[test]
fn binary_path_is_trimmed() {
    let s = with_path(Some("  /usr/bin/codex \n"), 60).normalized();
    assert_eq!(s.codex_binary_path.as_deref(), Some("/usr/bin/codex"));
    let inner = with_path(Some("\t/Program Files/codex.exe\u{3000}"), 60).normalized();
    assert_eq!(inner.codex_binary_path.as_deref(), Some("/Program Files/codex.exe"));
}

#[test]
fn blank_binary_path_is_dropped() {
    assert_eq!(with_path(Some(""), 60).normalized().codex_binary_path, None);
    assert_eq!(with_path(Some(" \t\r\n\u{a0}"), 60).normalized().codex_binary_path, None);
}

#[test]
fn long_binary_path_is_cut_to_2048_chars() {
    let long: String = std::iter::repeat('é').take(3000).collect();
    let s = with_path(Some(&long), 60).normalized();
    let p = s.codex_binary_path.unwrap();
    assert_eq!(p.chars().count(), 2048);
    assert!(p.chars().all(|c| c == 'é'));
    let exact: String = std::iter::repeat('a').take(2048).collect();
    assert_eq!(with_path(Some(&exact), 60).normalized().codex_binary_path.unwrap(), exact);
}

#[test]
fn normalizing_keeps_other_fields() {
    let s = AppSettings {
        language: AppLanguage::SimplifiedChinese,
        refresh_interval_secs: 40,
        compact_menu_bar: true,
        hide_missing_windows: true,
        widget_visible: true,
        widget_position: Some(SavedPosition { x: -5, y: 7 }),
        codex_binary_path: None,
    };
    let n = s.clone().normalized();
    assert_eq!(n, s);
}

#[test]
fn normalizing_twice_changes_nothing_more() {
    let s = with_path(Some("  codex  "), 100).normalized();
    assert_eq!(s.clone().normalized(), s);
}

#[test]
fn normalizing_twice_differs_when_the_cut_ends_in_white_space() {
    let mut p: String = std::iter::repeat('a').take(2047).collect();
    p.push(' ');
    p.push('b');
    let once = with_path(Some(&p), 60).normalized();
    assert!(once.codex_binary_path.as_ref().unwrap().ends_with(' '));
    let twice = once.clone().normalized();
    assert_eq!(twice.codex_binary_path.unwrap().chars().count(), 2047);
}

#[test]
fn store_loads_defaults_when_nothing_decoded() {
    let store = SettingsStore::load(None);
    assert_eq!(store.get(), AppSettings::default());
}

#[test]
fn store_loads_decoded_settings_normalized() {
    let store = SettingsStore::load(Some(with_path(Some(" x "), 1)));
    let s = store.get();
    assert_eq!(s.refresh_interval_secs, 30);
    assert_eq!(s.codex_binary_path.as_deref(), Some("x"));
}

#[test]
fn replaced_settings_are_read_back_normalized() {
    let mut store = SettingsStore::load(None);
    let pending = SettingsStore::prepare(with_path(Some(" codex "), 10));
    assert_eq!(pending.settings().refresh_interval_secs, 30);
    let saved = store.finish(pending, Ok(())).unwrap();
    assert_eq!(saved.codex_binary_path.as_deref(), Some("codex"));
    assert_eq!(store.get(), saved);
}

#[test]
fn failed_write_keeps_the_old_settings() {
    let mut store = SettingsStore::load(None);
    let pending = SettingsStore::prepare(with_path(Some("codex"), 45));
    let r = store.finish(pending, Err("Unable to write settings: denied".to_string()));
    assert_eq!(r, Err("Unable to write settings: denied".to_string()));
    assert_eq!(store.get(), AppSettings::default());
}
