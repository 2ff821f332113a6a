//! The data the quota monitor keeps and shows: connection state, user
//! settings and the state handed to the user interface.
use vstd::prelude::*;
use crate::text::{chars_of, is_white_space, lemma_trim_of_trimmed, lemma_trim_starts_non_white, string_from_chars, trim, trim_bounds};

verus! {

/// The longest custom executable path, in characters, that settings keep.
pub const MAX_BINARY_PATH_CHARS: usize = 2048;

/// The shortest automatic refresh interval, in seconds.
pub const MIN_REFRESH_SECS: u64 = 30;

/// The longest automatic refresh interval, in seconds.
pub const MAX_REFRESH_SECS: u64 = 60;

/// The refresh interval of fresh settings, in seconds.
pub const DEFAULT_REFRESH_SECS: u64 = 60;

/// The view of an optional string: its characters, if any.
pub open spec fn opt_chars(o: Option<String>) -> Option<Seq<char>> {
    match o {
        Some(s) => Some(s@),
        None => None,
    }
}

/// A copy of an optional string.
pub fn clone_opt_string(o: &Option<String>) -> (r: Option<String>)
    ensures
        opt_chars(r) == opt_chars(*o),
{
    match o {
        Some(s) => Some(s.clone()),
        None => None,
    }
}

/// How the App Server connection stands.
#[derive(Clone, Copy, Debug, PartialEq, Eq, Structural)]
pub enum ConnectionStatus {
    Disconnected,
    Connecting,
    Connected,
    Stale,
    Failed,
}

impl Default for ConnectionStatus {
    fn default() -> (r: Self)
        ensures
            r == ConnectionStatus::Disconnected,
    {
        ConnectionStatus::Disconnected
    }
}

/// The connection status, the message that explains it and the executable in use.
#[derive(Debug, PartialEq, Eq)]
pub struct ConnectionState {
    pub status: ConnectionStatus,
    pub message: Option<String>,
    pub executable: Option<String>,
}

pub struct ConnectionStateView {
    pub status: ConnectionStatus,
    pub message: Option<Seq<char>>,
    pub executable: Option<Seq<char>>,
}

impl View for ConnectionState {
    type V = ConnectionStateView;

    open spec fn view(&self) -> ConnectionStateView {
        ConnectionStateView {
            status: self.status,
            message: opt_chars(self.message),
            executable: opt_chars(self.executable),
        }
    }
}

impl Default for ConnectionState {
    fn default() -> (r: Self)
        ensures
            r.status == ConnectionStatus::Disconnected,
            r.message is None,
            r.executable is None,
    {
        ConnectionState { status: ConnectionStatus::Disconnected, message: None, executable: None }
    }
}

impl Clone for ConnectionState {
    fn clone(&self) -> (r: Self)
        ensures
            r@ == self@,
    {
        ConnectionState {
            status: self.status,
            message: clone_opt_string(&self.message),
            executable: clone_opt_string(&self.executable),
        }
    }
}

/// Where the floating widget was last placed, in physical pixels.
#[derive(Clone, Copy, Debug, PartialEq, Eq, Structural)]
pub struct SavedPosition {
    pub x: i32,
    pub y: i32,
}

/// The interface language the user chose.
#[derive(Clone, Copy, Debug, PartialEq, Eq, Structural)]
pub enum AppLanguage {
    System,
    English,
    SimplifiedChinese,
}

impl Default for AppLanguage {
    fn default() -> (r: Self)
        ensures
            r == AppLanguage::System,
    {
        AppLanguage::System
    }
}

/// The language the interface is shown in, once the system language is resolved.
#[derive(Clone, Copy, Debug, PartialEq, Eq, Structural)]
pub enum ResolvedLanguage {
    English,
    SimplifiedChinese,
}

impl Default for ResolvedLanguage {
    fn default() -> (r: Self)
        ensures
            r == ResolvedLanguage::English,
    {
        ResolvedLanguage::English
    }
}

/// How many quota reset credits the account has.
#[derive(Clone, Copy, Debug, PartialEq, Eq, Structural)]
pub struct RateLimitResetCreditsSummary {
    pub available_count: u64,
}

/// The settings that the user can change and that are saved.
#[derive(Debug, PartialEq, Eq)]
pub struct AppSettings {
    pub language: AppLanguage,
    pub refresh_interval_secs: u64,
    pub compact_menu_bar: bool,
    pub hide_missing_windows: bool,
    pub widget_visible: bool,
    pub widget_position: Option<SavedPosition>,
    pub codex_binary_path: Option<String>,
}

pub struct AppSettingsView {
    pub language: AppLanguage,
    pub refresh_interval_secs: u64,
    pub compact_menu_bar: bool,
    pub hide_missing_windows: bool,
    pub widget_visible: bool,
    pub widget_position: Option<SavedPosition>,
    pub codex_binary_path: Option<Seq<char>>,
}

impl View for AppSettings {
    type V = AppSettingsView;

    open spec fn view(&self) -> AppSettingsView {
        AppSettingsView {
            language: self.language,
            refresh_interval_secs: self.refresh_interval_secs,
            compact_menu_bar: self.compact_menu_bar,
            hide_missing_windows: self.hide_missing_windows,
            widget_visible: self.widget_visible,
            widget_position: self.widget_position,
            codex_binary_path: opt_chars(self.codex_binary_path),
        }
    }
}

/// The settings of a first start: follow the system language, refresh every
/// minute, everything else off and no custom executable.
pub open spec fn default_settings() -> AppSettingsView {
    AppSettingsView {
        language: AppLanguage::System,
        refresh_interval_secs: DEFAULT_REFRESH_SECS,
        compact_menu_bar: false,
        hide_missing_windows: false,
        widget_visible: false,
        widget_position: None,
        codex_binary_path: None,
    }
}

/// `secs` brought into the accepted refresh range.
pub open spec fn clamp_refresh(secs: u64) -> u64 {
    if secs < MIN_REFRESH_SECS {
        MIN_REFRESH_SECS
    } else if secs > MAX_REFRESH_SECS {
        MAX_REFRESH_SECS
    } else {
        secs
    }
}

/// A custom executable path as settings keep it: trimmed, cut to its first
/// `MAX_BINARY_PATH_CHARS` characters, and absent when nothing but white space is left.
pub open spec fn normalize_path(p: Option<Seq<char>>) -> Option<Seq<char>> {
    match p {
        None => None,
        Some(v) => {
            let t = trim(v);
            if t.len() == 0 {
                None
            } else if t.len() <= MAX_BINARY_PATH_CHARS {
                Some(t)
            } else {
                Some(t.take(MAX_BINARY_PATH_CHARS as int))
            }
        },
    }
}

/// Settings with the refresh interval clamped and the executable path normalized;
/// every other field is kept.
pub open spec fn normalize_settings(s: AppSettingsView) -> AppSettingsView {
    AppSettingsView {
        refresh_interval_secs: clamp_refresh(s.refresh_interval_secs),
        codex_binary_path: normalize_path(s.codex_binary_path),
        ..s
    }
}

/// The bounds that normalized settings keep: the refresh interval lies in the
/// accepted range and a custom path is non-empty, at most
/// `MAX_BINARY_PATH_CHARS` long and starts with a character that is not white space.
pub open spec fn settings_in_bounds(s: AppSettingsView) -> bool {
    &&& MIN_REFRESH_SECS <= s.refresh_interval_secs <= MAX_REFRESH_SECS
    &&& match s.codex_binary_path {
        None => true,
        Some(p) => 0 < p.len() <= MAX_BINARY_PATH_CHARS && !is_white_space(p[0]),
    }
}

impl Default for AppSettings {
    fn default() -> (r: Self)
        ensures
            r@ == default_settings(),
    {
        AppSettings {
            language: AppLanguage::System,
            refresh_interval_secs: DEFAULT_REFRESH_SECS,
            compact_menu_bar: false,
            hide_missing_windows: false,
            widget_visible: false,
            widget_position: None,
            codex_binary_path: None,
        }
    }
}

impl Clone for AppSettings {
    fn clone(&self) -> (r: Self)
        ensures
            r@ == self@,
    {
        AppSettings {
            language: self.language,
            refresh_interval_secs: self.refresh_interval_secs,
            compact_menu_bar: self.compact_menu_bar,
            hide_missing_windows: self.hide_missing_windows,
            widget_visible: self.widget_visible,
            widget_position: self.widget_position,
            codex_binary_path: clone_opt_string(&self.codex_binary_path),
        }
    }
}

/// `secs` brought into the accepted refresh range.
pub fn clamp_refresh_secs(secs: u64) -> (r: u64)
    ensures
        r == clamp_refresh(secs),
{
    if secs < MIN_REFRESH_SECS {
        MIN_REFRESH_SECS
    } else if secs > MAX_REFRESH_SECS {
        MAX_REFRESH_SECS
    } else {
        secs
    }
}

/// The normalized form of a custom executable path.
pub fn normalize_binary_path(p: Option<String>) -> (r: Option<String>)
    ensures
        opt_chars(r) == normalize_path(opt_chars(p)),
{
    match p {
        None => None,
        Some(value) => {
            let chars = chars_of(value.as_str());
            let (i, j) = trim_bounds(&chars);
            if i == j {
                None
            } else {
                let end = if j - i <= MAX_BINARY_PATH_CHARS {
                    j
                } else {
                    i + MAX_BINARY_PATH_CHARS
                };
                let out = string_from_chars(&chars, i, end);
                proof {
                    let t = chars@.subrange(i as int, j as int);
                    if j - i > MAX_BINARY_PATH_CHARS {
                        assert(t.take(MAX_BINARY_PATH_CHARS as int) =~= chars@.subrange(
                            i as int,
                            end as int,
                        ));
                    }
                }
                Some(out)
            }
        },
    }
}

impl AppSettings {
    /// These settings with the refresh interval clamped to 30..=60 seconds and the
    /// custom executable path trimmed, cut to 2048 characters and dropped when blank.
    pub fn normalized(self) -> (r: Self)
        ensures
            r@ == normalize_settings(self@),
    {
        let mut s = self;
        s.refresh_interval_secs = clamp_refresh_secs(s.refresh_interval_secs);
        s.codex_binary_path = normalize_binary_path(s.codex_binary_path);
        s
    }
}

/// Normalized settings keep their bounds.
pub proof fn lemma_normalized_in_bounds(s: AppSettingsView)
    ensures
        settings_in_bounds(normalize_settings(s)),
{
    if let Some(v) = s.codex_binary_path {
        let t = trim(v);
        if t.len() > 0 {
            lemma_trim_starts_non_white(v);
        }
    }
}

/// Normalizing settings whose path does not end in white space changes nothing more
/// the second time.
pub proof fn lemma_normalize_idempotent(s: AppSettingsView)
    requires
        match normalize_settings(s).codex_binary_path {
            None => true,
            Some(p) => !is_white_space(p.last()),
        },
    ensures
        normalize_settings(normalize_settings(s)) == normalize_settings(s),
{
    let n = normalize_settings(s);
    lemma_normalized_in_bounds(s);
    if let Some(p) = n.codex_binary_path {
        lemma_trim_of_trimmed(p);
        assert(normalize_path(Some(p)) == Some(p));
    }
}

/// The refresh interval is brought into 30..=60 seconds and nothing else: an interval
/// in range is kept, a shorter one becomes 30 and a longer one 60.
pub proof fn lemma_refresh_interval_clamped(secs: u64)
    ensures
        30 <= clamp_refresh(secs) <= 60,
        30 <= secs <= 60 ==> clamp_refresh(secs) == secs,
        secs < 30 ==> clamp_refresh(secs) == 30,
        secs > 60 ==> clamp_refresh(secs) == 60,
{
}

/// A longer interval asked for never gives a shorter interval in use.
pub proof fn lemma_refresh_interval_monotone(a: u64, b: u64)
    requires
        a <= b,
    ensures
        clamp_refresh(a) <= clamp_refresh(b),
{
}

/// Normalizing changes only the refresh interval, which it clamps to 30..=60 seconds,
/// and the executable path; every choice of the user is kept as it was.
pub proof fn lemma_normalize_keeps_choices(s: AppSettingsView)
    ensures
        normalize_settings(s).language == s.language,
        normalize_settings(s).compact_menu_bar == s.compact_menu_bar,
        normalize_settings(s).hide_missing_windows == s.hide_missing_windows,
        normalize_settings(s).widget_visible == s.widget_visible,
        normalize_settings(s).widget_position == s.widget_position,
        30 <= normalize_settings(s).refresh_interval_secs <= 60,
        30 <= s.refresh_interval_secs <= 60 ==> normalize_settings(s).refresh_interval_secs
            == s.refresh_interval_secs,
        s.refresh_interval_secs < 30 ==> normalize_settings(s).refresh_interval_secs == 30,
        s.refresh_interval_secs > 60 ==> normalize_settings(s).refresh_interval_secs == 60,
        s.codex_binary_path is None ==> normalize_settings(s).codex_binary_path is None,
{
}

} // verus!
