//! What the tray and the windows show and do: the interface language, the
//! tray menu texts, menu commands, the tray tooltip and widget placement.
use vstd::prelude::*;
use crate::launcher::Platform;
use crate::models::{AppSettings, AppSettingsView, ResolvedLanguage, SavedPosition};
use crate::text::{decimal_digits, push_decimal, text_equals};

verus! {

/// The interface language currently in use.
pub struct LanguageState {
    value: ResolvedLanguage,
}

impl View for LanguageState {
    type V = ResolvedLanguage;

    closed spec fn view(&self) -> ResolvedLanguage {
        self.value
    }
}

impl Default for LanguageState {
    /// English until the interface reports its language.
    fn default() -> (r: Self)
        ensures
            r@ == ResolvedLanguage::English,
    {
        LanguageState { value: ResolvedLanguage::English }
    }
}

impl LanguageState {
    /// Switches to `language`.
    pub fn set(&mut self, language: ResolvedLanguage)
        ensures
            final(self)@ == language,
    {
        self.value = language;
    }

    /// The language in use.
    pub fn get(&self) -> (r: ResolvedLanguage)
        ensures
            r == self@,
    {
        self.value
    }
}

/// The language in use when it is known, else English.
pub fn resolved_or_default(language: Option<ResolvedLanguage>) -> (r: ResolvedLanguage)
    ensures
        r == match language {
            Some(l) => l,
            None => ResolvedLanguage::English,
        },
{
    match language {
        Some(l) => l,
        None => ResolvedLanguage::English,
    }
}

/// The texts of the tray menu items.
#[derive(Debug, PartialEq, Eq)]
pub struct TrayLabels {
    pub show: String,
    pub widget: String,
    pub refresh: String,
    pub startup: String,
    pub settings: String,
    pub quit: String,
}

pub struct TrayLabelsView {
    pub show: Seq<char>,
    pub widget: Seq<char>,
    pub refresh: Seq<char>,
    pub startup: Seq<char>,
    pub settings: Seq<char>,
    pub quit: Seq<char>,
}

impl View for TrayLabels {
    type V = TrayLabelsView;

    open spec fn view(&self) -> TrayLabelsView {
        TrayLabelsView {
            show: self.show@,
            widget: self.widget@,
            refresh: self.refresh@,
            startup: self.startup@,
            settings: self.settings@,
            quit: self.quit@,
        }
    }
}

/// The tray menu texts in `language`; Windows names the widget and the
/// start-up option differently from macOS.
pub open spec fn tray_labels_for(language: ResolvedLanguage, platform: Platform) -> TrayLabelsView {
    let windows = platform == Platform::Windows;
    if language == ResolvedLanguage::SimplifiedChinese {
        TrayLabelsView {
            show: "Codex 用量"@,
            widget: "显示桌面悬浮窗"@,
            refresh: "刷新"@,
            startup: if windows {
                "开机时启动"@
            } else {
                "登录时启动"@
            },
            settings: "设置"@,
            quit: "退出 CodexMeter"@,
        }
    } else {
        TrayLabelsView {
            show: "Codex Usage"@,
            widget: if windows {
                "Show Widget"@
            } else {
                "Floating Widget"@
            },
            refresh: "Refresh"@,
            startup: if windows {
                "Launch at Startup"@
            } else {
                "Launch at Login"@
            },
            settings: "Settings"@,
            quit: "Quit CodexMeter"@,
        }
    }
}

fn owned(s: &str) -> (r: String)
    ensures
        r@ == s@,
{
    s.to_owned()
}

/// The tray menu texts in `language` on `platform` (see `tray_labels_for`).
pub fn tray_labels(language: ResolvedLanguage, platform: Platform) -> (r: TrayLabels)
    ensures
        r@ == tray_labels_for(language, platform),
{
    let windows = platform == Platform::Windows;
    if language == ResolvedLanguage::SimplifiedChinese {
        TrayLabels {
            show: owned("Codex 用量"),
            widget: owned("显示桌面悬浮窗"),
            refresh: owned("刷新"),
            startup: if windows {
                owned("开机时启动")
            } else {
                owned("登录时启动")
            },
            settings: owned("设置"),
            quit: owned("退出 CodexMeter"),
        }
    } else {
        TrayLabels {
            show: owned("Codex Usage"),
            widget: if windows {
                owned("Show Widget")
            } else {
                owned("Floating Widget")
            },
            refresh: owned("Refresh"),
            startup: if windows {
                owned("Launch at Startup")
            } else {
                owned("Launch at Login")
            },
            settings: owned("Settings"),
            quit: owned("Quit CodexMeter"),
        }
    }
}

/// What a tray menu item asks for.
#[derive(Clone, Copy, Debug, PartialEq, Eq, Structural)]
pub enum MenuAction {
    ShowPanel,
    ToggleWidget,
    Refresh,
    ToggleStartup,
    OpenSettings,
    Quit,
    Ignore,
}

/// The action of the menu item with identifier `id`.
pub open spec fn menu_action_for(id: Seq<char>) -> MenuAction {
    if id == "show"@ {
        MenuAction::ShowPanel
    } else if id == "widget"@ {
        MenuAction::ToggleWidget
    } else if id == "refresh"@ {
        MenuAction::Refresh
    } else if id == "startup"@ {
        MenuAction::ToggleStartup
    } else if id == "settings"@ {
        MenuAction::OpenSettings
    } else if id == "quit"@ {
        MenuAction::Quit
    } else {
        MenuAction::Ignore
    }
}

/// The action of the menu item with identifier `id`; unknown items do nothing.
pub fn menu_action(id: &str) -> (r: MenuAction)
    ensures
        r == menu_action_for(id@),
{
    if text_equals(id, "show") {
        MenuAction::ShowPanel
    } else if text_equals(id, "widget") {
        MenuAction::ToggleWidget
    } else if text_equals(id, "refresh") {
        MenuAction::Refresh
    } else if text_equals(id, "startup") {
        MenuAction::ToggleStartup
    } else if text_equals(id, "settings") {
        MenuAction::OpenSettings
    } else if text_equals(id, "quit") {
        MenuAction::Quit
    } else {
        MenuAction::Ignore
    }
}

/// The tray tooltip: the lowest remaining quota when one is known, else a plain label.
pub open spec fn tooltip_for(remaining: Option<Seq<char>>) -> Seq<char> {
    match remaining {
        Some(p) => "Codex 剩余额度 "@ + p,
        None => "Codex 额度"@,
    }
}

/// The tray tooltip for the lowest remaining quota, already formatted as a percentage.
pub fn tray_tooltip(remaining: &Option<String>) -> (r: String)
    ensures
        r@ == tooltip_for(crate::models::opt_chars(*remaining)),
{
    match remaining {
        Some(p) => {
            let mut t = owned("Codex 剩余额度 ");
            t.append(p.as_str());
            t
        },
        None => owned("Codex 额度"),
    }
}

/// The command-line flag that starts the monitor with its panel hidden.
pub open spec fn has_hidden_flag(args: Seq<Seq<char>>) -> bool {
    exists|i: int| 0 <= i < args.len() && args[i] == "--hidden"@
}

/// Whether the command line asks to start with the panel hidden.
pub fn starts_hidden(args: &Vec<String>) -> (r: bool)
    ensures
        r == has_hidden_flag(crate::launcher::strings_view(args@)),
{
    let ghost v = crate::launcher::strings_view(args@);
    let mut k: usize = 0;
    while k < args.len()
        invariant
            k <= args.len(),
            v == crate::launcher::strings_view(args@),
            forall|m: int| 0 <= m < k ==> v[m] != "--hidden"@,
        decreases args.len() - k,
    {
        if text_equals(args[k].as_str(), "--hidden") {
            assert(v[k as int] == "--hidden"@);
            return true;
        }
        k = k + 1;
    }
    false
}

/// The settings to save after the widget moved to `(x, y)`: the same settings with
/// the new position, or none when the position is already the saved one.
pub open spec fn moved_widget_settings(s: AppSettingsView, x: i32, y: i32) -> Option<AppSettingsView> {
    let p = SavedPosition { x, y };
    if s.widget_position == Some(p) {
        None
    } else {
        Some(AppSettingsView { widget_position: Some(p), ..s })
    }
}

/// The settings to save after the widget moved (see `moved_widget_settings`).
pub fn widget_moved(settings: &AppSettings, x: i32, y: i32) -> (r: Option<AppSettings>)
    ensures
        match r {
            Some(s) => moved_widget_settings(settings@, x, y) == Some(s@),
            None => moved_widget_settings(settings@, x, y) is None,
        },
{
    let same = match settings.widget_position {
        Some(p) => p.x == x && p.y == y,
        None => false,
    };
    if same {
        None
    } else {
        let mut s = settings.clone();
        s.widget_position = Some(SavedPosition { x, y });
        Some(s)
    }
}

/// One quota window as the menu-bar title reads it: its length in minutes, when the
/// server reports one, and its remaining percentage (0 to 100), rounded by the host.
#[derive(Clone, Copy, Debug, PartialEq, Eq, Structural)]
pub struct TitleWindow {
    pub duration_mins: Option<u64>,
    pub remaining_percent: u64,
}

/// The length of the 5 Hour window, in minutes.
pub const FIVE_HOUR_MINS: u64 = 300;

/// The length of the Weekly window, in minutes.
pub const WEEKLY_MINS: u64 = 10080;

/// The remaining percentage of the first window of `ws` that is `mins` minutes long.
pub open spec fn window_remaining(ws: Seq<TitleWindow>, mins: u64) -> Option<u64>
    decreases ws.len(),
{
    if ws.len() == 0 {
        None
    } else if ws[0].duration_mins == Some(mins) {
        Some(ws[0].remaining_percent)
    } else {
        window_remaining(ws.drop_first(), mins)
    }
}

/// The windows the title reads: those under `rateLimitsByLimitId.codex` when the
/// server sent them, else those under `rateLimits`.
pub open spec fn title_windows(keyed: Option<Seq<TitleWindow>>, legacy: Option<Seq<TitleWindow>>) -> Seq<
    TitleWindow,
> {
    match keyed {
        Some(k) => k,
        None => match legacy {
            Some(l) => l,
            None => Seq::empty(),
        },
    }
}

/// One part of the title: the label and the remaining percentage, `--` for a window
/// the server did not report, or nothing when such windows are hidden.
pub open spec fn title_part(label: Seq<char>, remaining: Option<u64>, hide_missing: bool) -> Seq<char> {
    match remaining {
        Some(p) => label + " "@ + decimal_digits(p as nat) + "%"@,
        None => if hide_missing {
            Seq::empty()
        } else {
            label + " --"@
        },
    }
}

/// The macOS menu-bar title, such as `5h 76% · W 43%`: the 5 Hour part, then the
/// Weekly part, joined by ` · ` when both are shown.
pub open spec fn menu_bar_title_for(windows: Seq<TitleWindow>, hide_missing: bool) -> Seq<char> {
    let five = title_part("5h"@, window_remaining(windows, FIVE_HOUR_MINS), hide_missing);
    let weekly = title_part("W"@, window_remaining(windows, WEEKLY_MINS), hide_missing);
    if five.len() > 0 && weekly.len() > 0 {
        five + " · "@ + weekly
    } else {
        five + weekly
    }
}

fn find_window(ws: &Vec<TitleWindow>, mins: u64) -> (r: Option<u64>)
    ensures
        r == window_remaining(ws@, mins),
{
    let mut k: usize = 0;
    assert(ws@.skip(0) =~= ws@);
    while k < ws.len()
        invariant
            k <= ws.len(),
            window_remaining(ws@, mins) == window_remaining(ws@.skip(k as int), mins),
        decreases ws.len() - k,
    {
        assert(ws@.skip(k as int).drop_first() =~= ws@.skip(k + 1));
        if ws[k].duration_mins == Some(mins) {
            return Some(ws[k].remaining_percent);
        }
        k = k + 1;
    }
    None
}

fn push_title_part(s: &mut String, label: &str, remaining: Option<u64>, hide_missing: bool)
    ensures
        final(s)@ == old(s)@ + title_part(label@, remaining, hide_missing),
{
    match remaining {
        Some(p) => {
            s.append(label);
            s.append(" ");
            push_decimal(s, p);
            s.append("%");
        },
        None => {
            if !hide_missing {
                s.append(label);
                s.append(" --");
            }
        },
    }
}

/// The macOS menu-bar title (see `menu_bar_title_for`) of the windows that the
/// server sent, read as `title_windows` says.
pub fn menu_bar_title(
    keyed: Option<Vec<TitleWindow>>,
    legacy: Option<Vec<TitleWindow>>,
    hide_missing: bool,
) -> (r: String)
    ensures
        r@ == menu_bar_title_for(
            title_windows(
                match keyed {
                    Some(k) => Some(k@),
                    None => None,
                },
                match legacy {
                    Some(l) => Some(l@),
                    None => None,
                },
            ),
            hide_missing,
        ),
{
    let windows: Vec<TitleWindow> = match keyed {
        Some(k) => k,
        None => match legacy {
            Some(l) => l,
            None => Vec::new(),
        },
    };
    let five_hour = find_window(&windows, FIVE_HOUR_MINS);
    let weekly = find_window(&windows, WEEKLY_MINS);
    let mut five = String::new();
    push_title_part(&mut five, "5h", five_hour, hide_missing);
    let mut week = String::new();
    push_title_part(&mut week, "W", weekly, hide_missing);
    proof {
        reveal_strlit("5h");
        reveal_strlit("W");
        reveal_strlit(" ");
        reveal_strlit("%");
        reveal_strlit(" --");
    }
    let mut title = five;
    if !title.as_str().is_empty() && !week.as_str().is_empty() {
        title.append(" · ");
    }
    title.append(week.as_str());
    title
}

/// A quota window that the server did not report is never estimated: the title shows
/// `--` for it, or leaves it out when missing windows are hidden, so a weekly-only
/// answer reads `5h -- · W …` by default and only `W …` with hiding on.
pub proof fn lemma_weekly_only_title(windows: Seq<TitleWindow>, weekly: u64)
    requires
        window_remaining(windows, FIVE_HOUR_MINS) is None,
        window_remaining(windows, WEEKLY_MINS) == Some(weekly),
    ensures
        menu_bar_title_for(windows, false) == "5h -- · W "@ + decimal_digits(weekly as nat) + "%"@,
        menu_bar_title_for(windows, true) == "W "@ + decimal_digits(weekly as nat) + "%"@,
{
    reveal_strlit("5h");
    reveal_strlit("W");
    reveal_strlit(" ");
    reveal_strlit("%");
    reveal_strlit(" --");
    reveal_strlit(" · ");
    reveal_strlit("5h -- · W ");
    reveal_strlit("W ");
    assert(menu_bar_title_for(windows, false) =~= "5h -- · W "@ + decimal_digits(weekly as nat) + "%"@);
    assert(menu_bar_title_for(windows, true) =~= "W "@ + decimal_digits(weekly as nat) + "%"@);
}

/// Windows are found by their length alone, the first of that length counting: when
/// the window at `k` is the first that is `mins` minutes long, its remaining
/// percentage is the one shown; when no window has that length, there is none.
pub proof fn lemma_window_found_by_duration(ws: Seq<TitleWindow>, mins: u64, k: int)
    requires
        0 <= k < ws.len(),
        ws[k].duration_mins == Some(mins),
        forall|j: int| 0 <= j < k ==> (#[trigger] ws[j]).duration_mins != Some(mins),
    ensures
        window_remaining(ws, mins) == Some(ws[k].remaining_percent),
    decreases k,
{
    if k > 0 {
        let d = ws.drop_first();
        assert forall|j: int| 0 <= j < k - 1 implies (#[trigger] d[j]).duration_mins != Some(mins) by {
            assert(d[j] == ws[j + 1]);
        }
        assert(ws[0].duration_mins != Some(mins));
        lemma_window_found_by_duration(d, mins, k - 1);
        assert(d[k - 1] == ws[k]);
    }
}

/// A window length that no window has is never shown with a percentage.
pub proof fn lemma_window_missing(ws: Seq<TitleWindow>, mins: u64)
    requires
        forall|j: int| 0 <= j < ws.len() ==> (#[trigger] ws[j]).duration_mins != Some(mins),
    ensures
        window_remaining(ws, mins) is None,
    decreases ws.len(),
{
    if ws.len() > 0 {
        let d = ws.drop_first();
        assert forall|j: int| 0 <= j < d.len() implies (#[trigger] d[j]).duration_mins != Some(mins) by {
            assert(d[j] == ws[j + 1]);
        }
        assert(ws[0].duration_mins != Some(mins));
        lemma_window_missing(d, mins);
    }
}

/// The windows of the `codex` limit are read whenever the server sent them; the
/// legacy `rateLimits` windows only when it did not; with neither there are none.
pub proof fn lemma_codex_limit_preferred(keyed: Option<Seq<TitleWindow>>, legacy: Option<Seq<TitleWindow>>)
    ensures
        keyed is Some ==> title_windows(keyed, legacy) == keyed->0,
        keyed is None && legacy is Some ==> title_windows(keyed, legacy) == legacy->0,
        keyed is None && legacy is None ==> title_windows(keyed, legacy).len() == 0,
{
}

/// Hiding only ever concerns windows the server left out: when both the 5 Hour
/// and the Weekly window are reported, the title shows both, hiding on or off.
pub proof fn lemma_both_windows_title(windows: Seq<TitleWindow>, hide_missing: bool, a: u64, b: u64)
    requires
        window_remaining(windows, 300) == Some(a),
        window_remaining(windows, 10080) == Some(b),
    ensures
        menu_bar_title_for(windows, hide_missing) == "5h "@ + decimal_digits(a as nat) + "% · W "@
            + decimal_digits(b as nat) + "%"@,
{
    reveal_strlit("5h");
    reveal_strlit("W");
    reveal_strlit(" ");
    reveal_strlit("%");
    reveal_strlit(" · ");
    reveal_strlit("5h ");
    reveal_strlit("% · W ");
    let five = title_part("5h"@, Some(a), hide_missing);
    let weekly = title_part("W"@, Some(b), hide_missing);
    assert(five.len() > 0);
    assert(weekly.len() > 0);
    assert(menu_bar_title_for(windows, hide_missing) =~= "5h "@ + decimal_digits(a as nat) + "% · W "@
        + decimal_digits(b as nat) + "%"@);
}

/// A 5 Hour-only answer reads `5h … · W --` by default and only `5h …` when missing
/// windows are hidden.
pub proof fn lemma_five_hour_only_title(windows: Seq<TitleWindow>, five: u64)
    requires
        window_remaining(windows, 300) == Some(five),
        window_remaining(windows, 10080) is None,
    ensures
        menu_bar_title_for(windows, false) == "5h "@ + decimal_digits(five as nat) + "% · W --"@,
        menu_bar_title_for(windows, true) == "5h "@ + decimal_digits(five as nat) + "%"@,
{
    reveal_strlit("5h");
    reveal_strlit("W");
    reveal_strlit(" ");
    reveal_strlit("%");
    reveal_strlit(" --");
    reveal_strlit(" · ");
    reveal_strlit("5h ");
    reveal_strlit("% · W --");
    assert(menu_bar_title_for(windows, false) =~= "5h "@ + decimal_digits(five as nat) + "% · W --"@);
    assert(menu_bar_title_for(windows, true) =~= "5h "@ + decimal_digits(five as nat) + "%"@);
}

/// With neither window reported, the title is `5h -- · W --`, or empty when
/// missing windows are hidden: nothing is estimated.
pub proof fn lemma_no_windows_title(windows: Seq<TitleWindow>)
    requires
        window_remaining(windows, 300) is None,
        window_remaining(windows, 10080) is None,
    ensures
        menu_bar_title_for(windows, false) == "5h -- · W --"@,
        menu_bar_title_for(windows, true).len() == 0,
{
    reveal_strlit("5h");
    reveal_strlit("W");
    reveal_strlit(" --");
    reveal_strlit(" · ");
    reveal_strlit("5h -- · W --");
    assert(menu_bar_title_for(windows, false) =~= "5h -- · W --"@);
}

} // verus!
