//! The settings store: the settings in use, always normalized, and the
//! two steps of saving new ones (normalize, then keep them once written).
use vstd::prelude::*;
use crate::models::{
    AppSettings, AppSettingsView, AppLanguage, default_settings, lemma_normalize_keeps_choices,
    lemma_normalized_in_bounds, normalize_settings,
    settings_in_bounds,
};

verus! {

/// The settings in use. What it holds always lies within the bounds of
/// normalized settings.
pub struct SettingsStore {
    value: AppSettings,
}

/// Normalized settings waiting to be written before they are kept.
pub struct PendingSettings {
    value: AppSettings,
}

impl SettingsStore {
    #[verifier::type_invariant]
    spec fn well_formed(&self) -> bool {
        settings_in_bounds(self.value@)
    }
}

impl PendingSettings {
    #[verifier::type_invariant]
    spec fn well_formed(&self) -> bool {
        settings_in_bounds(self.value@)
    }
}

impl View for SettingsStore {
    type V = AppSettingsView;

    closed spec fn view(&self) -> AppSettingsView {
        self.value@
    }
}

impl View for PendingSettings {
    type V = AppSettingsView;

    closed spec fn view(&self) -> AppSettingsView {
        self.value@
    }
}

/// The settings that a start begins with: those read from the settings file
/// when it could be read and decoded, else the defaults; normalized either way.
pub open spec fn loaded_settings(decoded: Option<AppSettingsView>) -> AppSettingsView {
    match decoded {
        Some(s) => normalize_settings(s),
        None => normalize_settings(default_settings()),
    }
}

impl SettingsStore {
    /// A store holding the settings read at start (`None` when the file was
    /// missing or could not be decoded), normalized.
    pub fn load(decoded: Option<AppSettings>) -> (r: Self)
        ensures
            r@ == loaded_settings(match decoded {
                Some(s) => Some(s@),
                None => None,
            }),
    {
        let raw = match decoded {
            Some(s) => s,
            None => AppSettings::default(),
        };
        let ghost raw_view = raw@;
        let value = raw.normalized();
        proof {
            lemma_normalized_in_bounds(raw_view);
        }
        SettingsStore { value }
    }

    /// A copy of the settings in use.
    pub fn get(&self) -> (r: AppSettings)
        ensures
            r@ == self@,
            settings_in_bounds(r@),
    {
        proof {
            use_type_invariant(self);
        }
        self.value.clone()
    }

    /// The first step of replacing the settings: `value` normalized, ready to be written.
    pub fn prepare(value: AppSettings) -> (r: PendingSettings)
        ensures
            r@ == normalize_settings(value@),
    {
        let ghost raw_view = value@;
        let normalized = value.normalized();
        proof {
            lemma_normalized_in_bounds(raw_view);
        }
        PendingSettings { value: normalized }
    }

    /// The second step of replacing the settings: when writing `pending` succeeded
    /// the store keeps it and returns a copy of it; when it failed, the store is
    /// unchanged and the error is returned.
    pub fn finish(&mut self, pending: PendingSettings, written: Result<(), String>) -> (r: Result<
        AppSettings,
        String,
    >)
        ensures
            final(self)@ == after_finish(old(self)@, pending@, written is Ok),
            match written {
                Ok(()) => r matches Ok(s) && s@ == pending@,
                Err(e) => r matches Err(m) && m@ == e@,
            },
    {
        proof {
            use_type_invariant(&pending);
        }
        match written {
            Ok(()) => {
                let copy = pending.value.clone();
                self.value = pending.value;
                Ok(copy)
            },
            Err(e) => Err(e),
        }
    }
}

impl PendingSettings {
    /// The normalized settings to write.
    pub fn settings(&self) -> (r: &AppSettings)
        ensures
            r@ == self@,
            settings_in_bounds(r@),
    {
        proof {
            use_type_invariant(self);
        }
        &self.value
    }
}

/// What a store holds after `finish`: the pending settings when writing them
/// succeeded, else what it held before.
pub open spec fn after_finish(before: AppSettingsView, pending: AppSettingsView, written: bool) -> AppSettingsView {
    if written {
        pending
    } else {
        before
    }
}

/// Replacing the settings (`prepare`, then `finish` after the write) leaves the
/// store holding the new settings normalized, within bounds, when the write
/// succeeded, and holding exactly what it held before when the write failed.
pub proof fn lemma_read_after_replace(before: AppSettingsView, value: AppSettingsView)
    ensures
        after_finish(before, normalize_settings(value), true) == normalize_settings(value),
        settings_in_bounds(after_finish(before, normalize_settings(value), true)),
        after_finish(before, normalize_settings(value), false) == before,
{
    lemma_normalized_in_bounds(value);
}

/// Loading keeps what was saved: every choice read from the settings file comes back
/// as it was, the refresh interval clamped to 30..=60 seconds; settings that were
/// already in range and name no executable come back unchanged. Without a readable
/// file the defaults are used: the system language, a 60-second interval, the full
/// title, missing windows marked, no widget and no custom executable.
pub proof fn lemma_load_keeps_saved_choices(s: AppSettingsView)
    ensures
        loaded_settings(Some(s)).language == s.language,
        loaded_settings(Some(s)).compact_menu_bar == s.compact_menu_bar,
        loaded_settings(Some(s)).hide_missing_windows == s.hide_missing_windows,
        loaded_settings(Some(s)).widget_visible == s.widget_visible,
        loaded_settings(Some(s)).widget_position == s.widget_position,
        30 <= s.refresh_interval_secs <= 60 ==> loaded_settings(Some(s)).refresh_interval_secs
            == s.refresh_interval_secs,
        s.refresh_interval_secs < 30 ==> loaded_settings(Some(s)).refresh_interval_secs == 30,
        s.refresh_interval_secs > 60 ==> loaded_settings(Some(s)).refresh_interval_secs == 60,
        30 <= s.refresh_interval_secs <= 60 && s.codex_binary_path is None ==> loaded_settings(
            Some(s),
        ) == s,
        loaded_settings(None) == default_settings(),
        loaded_settings(None).language == AppLanguage::System,
        loaded_settings(None).refresh_interval_secs == 60,
        !loaded_settings(None).compact_menu_bar,
        !loaded_settings(None).hide_missing_windows,
        !loaded_settings(None).widget_visible,
        loaded_settings(None).widget_position is None,
        loaded_settings(None).codex_binary_path is None,
{
    lemma_normalize_keeps_choices(s);
    lemma_normalize_keeps_choices(default_settings());
}

} // verus!
