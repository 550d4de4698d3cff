//! The performance panel: the state of each performance setting as last read,
//! and the classic `Run` startup entries.
use vstd::prelude::*;

use crate::log::{append_entry, with_entry};
use crate::text::{concat2, concat3, lit};

verus! {

/// A classic `Run` startup entry.
pub struct StartupAppEntry {
    pub name: String,
    pub scope: String,
    pub command: String,
    pub enabled: bool,
}

/// The performance settings, as last read from the system.
pub struct PerformanceState {
    pub initialized: bool,
    pub ultimate_performance_enabled: bool,
    pub hags_enabled: bool,
    pub vbs_enabled: bool,
    pub restart_apps_enabled: bool,
    pub background_apps_enabled: bool,
    pub activity_history_enabled: bool,
    pub visual_effects_performance_enabled: bool,
    pub transparency_enabled: bool,
    pub game_mode_enabled: bool,
    pub windowed_optimizations_enabled: bool,
    pub background_recording_enabled: bool,
    pub superfetch_enabled: bool,
    pub search_indexing_enabled: bool,
    pub delivery_optimization_enabled: bool,
    pub network_task_offload_enabled: bool,
    pub show_startup_apps_modal: bool,
    pub startup_apps: Vec<StartupAppEntry>,
}

impl Default for PerformanceState {
    /// Nothing read yet: every setting off, no startup entries.
    fn default() -> (r: Self)
        ensures
            !r.initialized,
            forall|t: PerfSetting| !#[trigger] setting_value(r, t),
            !r.show_startup_apps_modal,
            r.startup_apps@.len() == 0,
    {
        let r = PerformanceState {
            initialized: false,
            ultimate_performance_enabled: false,
            hags_enabled: false,
            vbs_enabled: false,
            restart_apps_enabled: false,
            background_apps_enabled: false,
            activity_history_enabled: false,
            visual_effects_performance_enabled: false,
            transparency_enabled: false,
            game_mode_enabled: false,
            windowed_optimizations_enabled: false,
            background_recording_enabled: false,
            superfetch_enabled: false,
            search_indexing_enabled: false,
            delivery_optimization_enabled: false,
            network_task_offload_enabled: false,
            show_startup_apps_modal: false,
            startup_apps: Vec::new(),
        };
        assert forall|t: PerfSetting| !#[trigger] setting_value(r, t) by {
            reveal(setting_value);
        }
        r
    }
}

/// One of the performance settings.
#[derive(Clone, Copy, PartialEq, Eq, Structural)]
pub enum PerfSetting {
    UltimatePerformance,
    Hags,
    Vbs,
    RestartApps,
    BackgroundApps,
    ActivityHistory,
    VisualEffectsPerformance,
    Transparency,
    GameMode,
    WindowedOptimizations,
    BackgroundRecording,
    Superfetch,
    SearchIndexing,
    DeliveryOptimization,
    NetworkTaskOffload,
}

/// The settings in the order in which they are read.
pub fn all_settings() -> (r: Vec<PerfSetting>)
    ensures
        r@.len() == 15,
        forall|s: PerfSetting| #[trigger] r@.contains(s),
{
    let r = vec![
        PerfSetting::UltimatePerformance,
        PerfSetting::Hags,
        PerfSetting::Vbs,
        PerfSetting::RestartApps,
        PerfSetting::BackgroundApps,
        PerfSetting::ActivityHistory,
        PerfSetting::VisualEffectsPerformance,
        PerfSetting::Transparency,
        PerfSetting::GameMode,
        PerfSetting::WindowedOptimizations,
        PerfSetting::BackgroundRecording,
        PerfSetting::Superfetch,
        PerfSetting::SearchIndexing,
        PerfSetting::DeliveryOptimization,
        PerfSetting::NetworkTaskOffload,
    ];
    assert forall|s: PerfSetting| #[trigger] r@.contains(s) by {
        match s {
            PerfSetting::UltimatePerformance => assert(r@[0] == s),
            PerfSetting::Hags => assert(r@[1] == s),
            PerfSetting::Vbs => assert(r@[2] == s),
            PerfSetting::RestartApps => assert(r@[3] == s),
            PerfSetting::BackgroundApps => assert(r@[4] == s),
            PerfSetting::ActivityHistory => assert(r@[5] == s),
            PerfSetting::VisualEffectsPerformance => assert(r@[6] == s),
            PerfSetting::Transparency => assert(r@[7] == s),
            PerfSetting::GameMode => assert(r@[8] == s),
            PerfSetting::WindowedOptimizations => assert(r@[9] == s),
            PerfSetting::BackgroundRecording => assert(r@[10] == s),
            PerfSetting::Superfetch => assert(r@[11] == s),
            PerfSetting::SearchIndexing => assert(r@[12] == s),
            PerfSetting::DeliveryOptimization => assert(r@[13] == s),
            PerfSetting::NetworkTaskOffload => assert(r@[14] == s),
        }
    }
    r
}

/// The state of a setting.
#[verifier::opaque]
pub open spec fn setting_value(st: PerformanceState, s: PerfSetting) -> bool {
    match s {
        PerfSetting::UltimatePerformance => st.ultimate_performance_enabled,
        PerfSetting::Hags => st.hags_enabled,
        PerfSetting::Vbs => st.vbs_enabled,
        PerfSetting::RestartApps => st.restart_apps_enabled,
        PerfSetting::BackgroundApps => st.background_apps_enabled,
        PerfSetting::ActivityHistory => st.activity_history_enabled,
        PerfSetting::VisualEffectsPerformance => st.visual_effects_performance_enabled,
        PerfSetting::Transparency => st.transparency_enabled,
        PerfSetting::GameMode => st.game_mode_enabled,
        PerfSetting::WindowedOptimizations => st.windowed_optimizations_enabled,
        PerfSetting::BackgroundRecording => st.background_recording_enabled,
        PerfSetting::Superfetch => st.superfetch_enabled,
        PerfSetting::SearchIndexing => st.search_indexing_enabled,
        PerfSetting::DeliveryOptimization => st.delivery_optimization_enabled,
        PerfSetting::NetworkTaskOffload => st.network_task_offload_enabled,
    }
}

/// The field's name of a setting, as failures to read it are reported.
pub open spec fn setting_name_spec(s: PerfSetting) -> Seq<char> {
    match s {
        PerfSetting::UltimatePerformance => "ultimate_performance_enabled"@,
        PerfSetting::Hags => "hags_enabled"@,
        PerfSetting::Vbs => "vbs_enabled"@,
        PerfSetting::RestartApps => "restart_apps_enabled"@,
        PerfSetting::BackgroundApps => "background_apps_enabled"@,
        PerfSetting::ActivityHistory => "activity_history_enabled"@,
        PerfSetting::VisualEffectsPerformance => "visual_effects_performance_enabled"@,
        PerfSetting::Transparency => "transparency_enabled"@,
        PerfSetting::GameMode => "game_mode_enabled"@,
        PerfSetting::WindowedOptimizations => "windowed_optimizations_enabled"@,
        PerfSetting::BackgroundRecording => "background_recording_enabled"@,
        PerfSetting::Superfetch => "superfetch_enabled"@,
        PerfSetting::SearchIndexing => "search_indexing_enabled"@,
        PerfSetting::DeliveryOptimization => "delivery_optimization_enabled"@,
        PerfSetting::NetworkTaskOffload => "network_task_offload_enabled"@,
    }
}

/// The field's name of a setting.
pub fn setting_name(s: PerfSetting) -> (r: String)
    ensures
        r@ == setting_name_spec(s),
{
    match s {
        PerfSetting::UltimatePerformance => lit("ultimate_performance_enabled"),
        PerfSetting::Hags => lit("hags_enabled"),
        PerfSetting::Vbs => lit("vbs_enabled"),
        PerfSetting::RestartApps => lit("restart_apps_enabled"),
        PerfSetting::BackgroundApps => lit("background_apps_enabled"),
        PerfSetting::ActivityHistory => lit("activity_history_enabled"),
        PerfSetting::VisualEffectsPerformance => lit("visual_effects_performance_enabled"),
        PerfSetting::Transparency => lit("transparency_enabled"),
        PerfSetting::GameMode => lit("game_mode_enabled"),
        PerfSetting::WindowedOptimizations => lit("windowed_optimizations_enabled"),
        PerfSetting::BackgroundRecording => lit("background_recording_enabled"),
        PerfSetting::Superfetch => lit("superfetch_enabled"),
        PerfSetting::SearchIndexing => lit("search_indexing_enabled"),
        PerfSetting::DeliveryOptimization => lit("delivery_optimization_enabled"),
        PerfSetting::NetworkTaskOffload => lit("network_task_offload_enabled"),
    }
}

/// `new` is `old` with setting `s` set to `v`, everything else unchanged.
pub open spec fn set_only(old: PerformanceState, new: PerformanceState, s: PerfSetting, v: bool) -> bool {
    &&& new.ultimate_performance_enabled == if s == PerfSetting::UltimatePerformance { v } else { old.ultimate_performance_enabled }
    &&& new.hags_enabled == if s == PerfSetting::Hags { v } else { old.hags_enabled }
    &&& new.vbs_enabled == if s == PerfSetting::Vbs { v } else { old.vbs_enabled }
    &&& new.restart_apps_enabled == if s == PerfSetting::RestartApps { v } else { old.restart_apps_enabled }
    &&& new.background_apps_enabled == if s == PerfSetting::BackgroundApps { v } else { old.background_apps_enabled }
    &&& new.activity_history_enabled == if s == PerfSetting::ActivityHistory { v } else { old.activity_history_enabled }
    &&& new.visual_effects_performance_enabled == if s == PerfSetting::VisualEffectsPerformance { v } else { old.visual_effects_performance_enabled }
    &&& new.transparency_enabled == if s == PerfSetting::Transparency { v } else { old.transparency_enabled }
    &&& new.game_mode_enabled == if s == PerfSetting::GameMode { v } else { old.game_mode_enabled }
    &&& new.windowed_optimizations_enabled == if s == PerfSetting::WindowedOptimizations { v } else { old.windowed_optimizations_enabled }
    &&& new.background_recording_enabled == if s == PerfSetting::BackgroundRecording { v } else { old.background_recording_enabled }
    &&& new.superfetch_enabled == if s == PerfSetting::Superfetch { v } else { old.superfetch_enabled }
    &&& new.search_indexing_enabled == if s == PerfSetting::SearchIndexing { v } else { old.search_indexing_enabled }
    &&& new.delivery_optimization_enabled == if s == PerfSetting::DeliveryOptimization { v } else { old.delivery_optimization_enabled }
    &&& new.network_task_offload_enabled == if s == PerfSetting::NetworkTaskOffload { v } else { old.network_task_offload_enabled }
    &&& new.initialized == old.initialized
    &&& new.show_startup_apps_modal == old.show_startup_apps_modal
    &&& new.startup_apps == old.startup_apps
}

/// `new` has every setting of `old`.
pub open spec fn same_settings(old: PerformanceState, new: PerformanceState) -> bool {
    &&& new.ultimate_performance_enabled == old.ultimate_performance_enabled
    &&& new.hags_enabled == old.hags_enabled
    &&& new.vbs_enabled == old.vbs_enabled
    &&& new.restart_apps_enabled == old.restart_apps_enabled
    &&& new.background_apps_enabled == old.background_apps_enabled
    &&& new.activity_history_enabled == old.activity_history_enabled
    &&& new.visual_effects_performance_enabled == old.visual_effects_performance_enabled
    &&& new.transparency_enabled == old.transparency_enabled
    &&& new.game_mode_enabled == old.game_mode_enabled
    &&& new.windowed_optimizations_enabled == old.windowed_optimizations_enabled
    &&& new.background_recording_enabled == old.background_recording_enabled
    &&& new.superfetch_enabled == old.superfetch_enabled
    &&& new.search_indexing_enabled == old.search_indexing_enabled
    &&& new.delivery_optimization_enabled == old.delivery_optimization_enabled
    &&& new.network_task_offload_enabled == old.network_task_offload_enabled
}

/// After setting `s` to `v`, `s` reads back as `v` and every other setting
/// keeps its state.
pub proof fn lemma_set_setting_reads_back(old: PerformanceState, new: PerformanceState, s: PerfSetting, v: bool, t: PerfSetting)
    requires
        set_only(old, new, s, v),
    ensures
        setting_value(new, s) == v,
        t != s ==> setting_value(new, t) == setting_value(old, t),
{
    reveal(setting_value);
}

/// Sets setting `s` to `v` (after it was read, or when its switch is flipped).
pub fn set_setting(st: &mut PerformanceState, s: PerfSetting, v: bool)
    ensures
        set_only(*old(st), *final(st), s, v),
{
    if s == PerfSetting::UltimatePerformance {
        st.ultimate_performance_enabled = v;
    }
    if s == PerfSetting::Hags {
        st.hags_enabled = v;
    }
    if s == PerfSetting::Vbs {
        st.vbs_enabled = v;
    }
    if s == PerfSetting::RestartApps {
        st.restart_apps_enabled = v;
    }
    if s == PerfSetting::BackgroundApps {
        st.background_apps_enabled = v;
    }
    if s == PerfSetting::ActivityHistory {
        st.activity_history_enabled = v;
    }
    if s == PerfSetting::VisualEffectsPerformance {
        st.visual_effects_performance_enabled = v;
    }
    if s == PerfSetting::Transparency {
        st.transparency_enabled = v;
    }
    if s == PerfSetting::GameMode {
        st.game_mode_enabled = v;
    }
    if s == PerfSetting::WindowedOptimizations {
        st.windowed_optimizations_enabled = v;
    }
    if s == PerfSetting::BackgroundRecording {
        st.background_recording_enabled = v;
    }
    if s == PerfSetting::Superfetch {
        st.superfetch_enabled = v;
    }
    if s == PerfSetting::SearchIndexing {
        st.search_indexing_enabled = v;
    }
    if s == PerfSetting::DeliveryOptimization {
        st.delivery_optimization_enabled = v;
    }
    if s == PerfSetting::NetworkTaskOffload {
        st.network_task_offload_enabled = v;
    }
}

/// Takes what reading setting `s` gave: its value is kept, or why it could not
/// be read is logged and the setting stays as it was.
pub fn load_setting(st: &mut PerformanceState, s: PerfSetting, read: Result<bool, String>, log: &mut String)
    ensures
        read matches Ok(v) ==> set_only(*old(st), *final(st), s, v) && final(log)@ == old(log)@,
        read matches Err(e) ==> *final(st) == *old(st) && final(log)@ == with_entry(
            old(log)@,
            "Failed to load "@ + setting_name_spec(s) + ": "@ + e@,
        ),
{
    match read {
        Ok(v) => set_setting(st, s, v),
        Err(e) => {
            let m = concat3("Failed to load ", setting_name(s).as_str(), ": ");
            let m = concat2(m.as_str(), e.as_str());
            append_entry(log, m.as_str());
        },
    }
}

/// Takes the startup entries read, or logs why they could not be read (then the
/// list is empty).
pub fn load_startup_apps(st: &mut PerformanceState, read: Result<Vec<StartupAppEntry>, String>, log: &mut String)
    ensures
        read matches Ok(items) ==> final(st).startup_apps@ == items@ && final(log)@ == old(log)@,
        read matches Err(e) ==> final(st).startup_apps@.len() == 0 && final(log)@ == with_entry(
            old(log)@,
            "Failed to read startup apps: "@ + e@,
        ),
        same_settings(*old(st), *final(st)),
        final(st).initialized == old(st).initialized,
        final(st).show_startup_apps_modal == old(st).show_startup_apps_modal,
{
    match read {
        Ok(items) => {
            st.startup_apps = items;

        },
        Err(e) => {
            st.startup_apps = Vec::new();

            let m = concat2("Failed to read startup apps: ", e.as_str());
            append_entry(log, m.as_str());
        },
    }
}

/// Marks the panel as read.
pub fn mark_initialized(st: &mut PerformanceState)
    ensures
        final(st).initialized,
        same_settings(*old(st), *final(st)),
        final(st).startup_apps == old(st).startup_apps,
        final(st).show_startup_apps_modal == old(st).show_startup_apps_modal,
{
    st.initialized = true;

}

/// What switching a startup entry logs: the tool's message, or why it failed.
pub fn startup_toggle_line(name: &str, outcome: &Result<String, String>) -> (r: String)
    ensures
        outcome matches Ok(m) ==> r@ == m@,
        outcome matches Err(e) ==> r@ == "Failed to update startup app '"@ + name@ + "': "@ + e@,
{
    match outcome {
        Ok(m) => lit(m.as_str()),
        Err(e) => {
            let mut r = concat3("Failed to update startup app '", name, "': ");
            r.append(e.as_str());
            r
        },
    }
}

} // verus!
