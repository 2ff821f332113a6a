use codexmeter::launcher::Platform;
use codexmeter::models::{AppSettings, ResolvedLanguage, SavedPosition};
use codexmeter::ui::{
    menu_action, menu_bar_title, resolved_or_default, starts_hidden, tray_labels, tray_tooltip,
    widget_moved, LanguageState, MenuAction, TitleWindow,
};

#[test]
fn language_state_reads_back_what_was_set() {
    let mut s = LanguageState::default();
    assert_eq!(s.get(), ResolvedLanguage::English);
    s.set(ResolvedLanguage::SimplifiedChinese);
    assert_eq!(s.get(), ResolvedLanguage::SimplifiedChinese);
    s.set(ResolvedLanguage::English);
    assert_eq!(s.get(), ResolvedLanguage::English);
}

#[test]
fn unknown_language_defaults_to_english() {
    assert_eq!(resolved_or_default(None), ResolvedLanguage::English);
    assert_eq!(
        resolved_or_default(Some(ResolvedLanguage::SimplifiedChinese)),
        ResolvedLanguage::SimplifiedChinese
    );
}

#[test]
fn english_labels_per_platform() {
    let mac = tray_labels(ResolvedLanguage::English, Platform::MacOs);
    assert_eq!(mac.show, "Codex Usage");
    assert_eq!(mac.widget, "Floating Widget");
    assert_eq!(mac.refresh, "Refresh");
    assert_eq!(mac.startup, "Launch at Login");
    assert_eq!(mac.settings, "Settings");
    assert_eq!(mac.quit, "Quit CodexMeter");
    let win = tray_labels(ResolvedLanguage::English, Platform::Windows);
    assert_eq!(win.widget, "Show Widget");
    assert_eq!(win.startup, "Launch at Startup");
}

#[test]
fn chinese_labels_per_platform() {
    let mac = tray_labels(ResolvedLanguage::SimplifiedChinese, Platform::MacOs);
    assert_eq!(mac.show, "Codex 用量");
    assert_eq!(mac.widget, "显示桌面悬浮窗");
    assert_eq!(mac.refresh, "刷新");
    assert_eq!(mac.startup, "登录时启动");
    assert_eq!(mac.settings, "设置");
    assert_eq!(mac.quit, "退出 CodexMeter");
    let win = tray_labels(ResolvedLanguage::SimplifiedChinese, Platform::Windows);
    assert_eq!(win.startup, "开机时启动");
    assert_eq!(win.widget, "显示桌面悬浮窗");
}

#[test]
fn menu_items_map_to_actions() {
    assert_eq!(menu_action("show"), MenuAction::ShowPanel);
    assert_eq!(menu_action("widget"), MenuAction::ToggleWidget);
    assert_eq!(menu_action("refresh"), MenuAction::Refresh);
    assert_eq!(menu_action("startup"), MenuAction::ToggleStartup);
    assert_eq!(menu_action("settings"), MenuAction::OpenSettings);
    assert_eq!(menu_action("quit"), MenuAction::Quit);
    assert_eq!(menu_action("Quit"), MenuAction::Ignore);
    assert_eq!(menu_action(""), MenuAction::Ignore);
}

#[test]
fn tooltip_shows_remaining_quota() {
    assert_eq!(tray_tooltip(&Some("43%".to_string())), "Codex 剩余额度 43%");
    assert_eq!(tray_tooltip(&None), "Codex 额度");
}

#[test]
fn hidden_flag_is_found_anywhere() {
    let args = |v: &[&str]| v.iter().map(|s| s.to_string()).collect::<Vec<_>>();
    assert!(starts_hidden(&args(&["app", "--hidden"])));
    assert!(starts_hidden(&args(&["--hidden", "x"])));
    assert!(!starts_hidden(&args(&["app", "--hidden=1"])));
    assert!(!starts_hidden(&args(&[])));
}

#[test]
fn widget_position_is_saved_only_when_it_changes() {
    let s = AppSettings::default();
    let moved = widget_moved(&s, 10, -3).unwrap();
    assert_eq!(moved.widget_position, Some(SavedPosition { x: 10, y: -3 }));
    assert_eq!(moved.refresh_interval_secs, s.refresh_interval_secs);
    assert!(widget_moved(&moved, 10, -3).is_none());
    assert!(widget_moved(&moved, 11, -3).is_some());
}

fn window(mins: Option<u64>, remaining: u64) -> TitleWindow {
    TitleWindow { duration_mins: mins, remaining_percent: remaining }
}

#[test]
fn menu_bar_title_shows_both_windows() {
    let keyed = vec![window(Some(300), 76), window(Some(10080), 43)];
    assert_eq!(menu_bar_title(Some(keyed), None, false), "5h 76% · W 43%");
}

#[test]
fn menu_bar_title_matches_windows_by_duration() {
    let keyed = vec![window(Some(10080), 43), window(Some(300), 100)];
    assert_eq!(menu_bar_title(Some(keyed), None, false), "5h 100% · W 43%");
    let unknown = vec![window(None, 10), window(Some(60), 20)];
    assert_eq!(menu_bar_title(Some(unknown), None, false), "5h -- · W --");
}

#[test]
fn menu_bar_title_marks_or_hides_missing_windows() {
    let weekly_only = vec![window(Some(10080), 0)];
    assert_eq!(menu_bar_title(Some(weekly_only.clone()), None, false), "5h -- · W 0%");
    assert_eq!(menu_bar_title(Some(weekly_only), None, true), "W 0%");
    let five_only = vec![window(Some(300), 5)];
    assert_eq!(menu_bar_title(Some(five_only), None, true), "5h 5%");
    assert_eq!(menu_bar_title(None, None, true), "");
    assert_eq!(menu_bar_title(None, None, false), "5h -- · W --");
}

#[test]
fn menu_bar_title_prefers_the_codex_limit() {
    let keyed = vec![window(Some(300), 12)];
    let legacy = vec![window(Some(300), 90), window(Some(10080), 80)];
    assert_eq!(menu_bar_title(Some(keyed), Some(legacy.clone()), false), "5h 12% · W --");
    assert_eq!(menu_bar_title(None, Some(legacy), false), "5h 90% · W 80%");
}
