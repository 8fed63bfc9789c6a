//! The settings schema and the merge engine.
//!
//! `Settings` is the fully resolved configuration tree: every leaf holds a
//! concrete value.  `PartialSettings` mirrors it with every section and every
//! leaf optional; an absent leaf means "inherit", never "clear".  Two
//! leaf-wise operations connect them: composing an override tree over a fully
//! resolved tree (`Settings::from`), and reconciling an incoming update into
//! an existing override tree (`PartialSettings::update`).

use vstd::prelude::*;

pub mod flush_queue;
pub mod laws;
pub mod settings_manager;
pub mod views;

pub use settings_manager::SettingsManager;

use crate::settings::views::opt_view;
use crate::settings::views::CoreSettingsView;
use crate::settings::views::HotkeySettingsView;
use crate::settings::views::PartialCoreSettingsView;
use crate::settings::views::PartialHotkeySettingsView;
use crate::settings::views::PartialSettingsView;
use crate::settings::views::PartialSupabaseSettingsView;
use crate::settings::views::PartialTranslationSettingsView;
use crate::settings::views::SettingsView;
use crate::settings::views::SupabaseSettingsView;
use crate::settings::views::TranslationSettingsView;
use crate::settings::views::empty_partial_core;
use crate::settings::views::empty_partial_display;
use crate::settings::views::empty_partial_hotkeys;
use crate::settings::views::empty_partial_scaling;
use crate::settings::views::empty_partial_supabase;
use crate::settings::views::empty_partial_translation;
use crate::settings::views::empty_partial_translation_window;
use crate::settings::views::empty_partial_window;
use crate::settings::views::empty_partial;

verus! {

/// A list of key names forming one key combination.
pub type Keys = Vec<String>;

/// The fully resolved configuration tree.  Every leaf holds a value.
#[derive(Debug, PartialEq)]
pub struct Settings {
    pub core: CoreSettings,
    pub translation: TranslationSettings,
    pub display: DisplaySettings,
    pub translation_window: TranslationWindowSettings,
    pub history_window: WindowSettings,
    pub settings_window: WindowSettings,
    pub scaling: ScalingSettings,
    pub hotkeys: HotkeySettings,
    pub supabase: SupabaseSettings,
}

/// The sparse override tree: every section, and every leaf inside a present
/// section, may be absent.  Absence means "inherit the default".
#[derive(Debug, PartialEq)]
pub struct PartialSettings {
    pub core: Option<PartialCoreSettings>,
    pub translation: Option<PartialTranslationSettings>,
    pub display: Option<PartialDisplaySettings>,
    pub translation_window: Option<PartialTranslationWindowSettings>,
    pub history_window: Option<PartialWindowSettings>,
    pub settings_window: Option<PartialWindowSettings>,
    pub scaling: Option<PartialScalingSettings>,
    pub hotkeys: Option<PartialHotkeySettings>,
    pub supabase: Option<PartialSupabaseSettings>,
}

#[derive(Debug, PartialEq)]
pub struct CoreSettings {
    pub copy_delay_milliseconds: u64,
    pub request_timeout_milliseconds: u32,
    pub log_requests: bool,
    pub play_volume: u32,
    pub search_pattern: String,
    pub last_records_to_scan_for_merge: u32,
    pub levenshtein_distance_for_merge: u8,
    pub proxy: Option<String>,
}

#[derive(Debug, PartialEq)]
pub struct PartialCoreSettings {
    pub copy_delay_milliseconds: Option<u64>,
    pub request_timeout_milliseconds: Option<u32>,
    pub log_requests: Option<bool>,
    pub play_volume: Option<u32>,
    pub search_pattern: Option<String>,
    pub last_records_to_scan_for_merge: Option<u32>,
    pub levenshtein_distance_for_merge: Option<u8>,
    pub proxy: Option<Option<String>>,
}

#[derive(Debug, PartialEq)]
pub struct TranslationSettings {
    pub source_language: String,
    pub target_language: String,
    pub tags: Vec<Tag>,
}

#[derive(Debug, PartialEq)]
pub struct PartialTranslationSettings {
    pub source_language: Option<String>,
    pub target_language: Option<String>,
    pub tags: Option<Vec<Tag>>,
}

#[derive(Debug, PartialEq)]
pub struct Tag {
    pub tag: String,
    pub enabled: bool,
}

#[derive(Clone, Copy, Debug, PartialEq)]
pub struct DisplaySettings {
    pub visible_by_default_translations_in_category: u8,
    pub history_page_size: u16,
    pub history_columns: HistoryColumns,
}

#[derive(Clone, Copy, Debug, PartialEq)]
pub struct PartialDisplaySettings {
    pub visible_by_default_translations_in_category: Option<u8>,
    pub history_page_size: Option<u16>,
    pub history_columns: Option<HistoryColumns>,
}

/// The per-column display configuration of the history table.  The whole
/// struct is one leaf of the display section: it is inherited or overridden
/// atomically, never column by column.
#[derive(Clone, Copy, Debug, PartialEq)]
pub struct HistoryColumns {
    pub input: HistoryColumn,
    pub translation: HistoryColumn,
    pub tags: HistoryColumn,
    pub times_translated: HistoryColumn,
    pub last_translated_date: HistoryColumn,
    pub source_language: HistoryColumn,
    pub target_language: HistoryColumn,
    pub archived: HistoryColumn,
}

/// One history-table column.  The column weight is a binary32 fraction kept
/// as its raw bit pattern; the presentation layer converts at the boundary.
#[derive(Clone, Copy, Debug, PartialEq)]
pub struct HistoryColumn {
    pub visible: bool,
    pub weight_bits: u32,
    pub index: u8,
}

#[derive(Clone, Copy, Debug, PartialEq)]
pub struct TranslationWindowSettings {
    pub width: u32,
    pub height: u32,
    pub min_width: u32,
    pub min_height: u32,
    pub x: Option<i32>,
    pub y: Option<i32>,
    pub margin: u32,
}

#[derive(Clone, Copy, Debug, PartialEq)]
pub struct PartialTranslationWindowSettings {
    pub width: Option<u32>,
    pub height: Option<u32>,
    pub min_width: Option<u32>,
    pub min_height: Option<u32>,
    pub x: Option<Option<i32>>,
    pub y: Option<Option<i32>>,
    pub margin: Option<u32>,
}

#[derive(Clone, Copy, Debug, PartialEq)]
pub struct WindowSettings {
    pub width_percentage: u8,
    pub height_percentage: u8,
    pub min_width: u32,
    pub min_height: u32,
}

#[derive(Clone, Copy, Debug, PartialEq)]
pub struct PartialWindowSettings {
    pub width_percentage: Option<u8>,
    pub height_percentage: Option<u8>,
    pub min_width: Option<u32>,
    pub min_height: Option<u32>,
}

/// View-scaling configuration.  The factors are binary32 fractions kept as
/// raw bit patterns; the presentation layer converts at the boundary.
#[derive(Clone, Copy, Debug, PartialEq)]
pub struct ScalingSettings {
    pub scale_factor_bits: u32,
    pub scale_translation_view_only: bool,
    pub scaling_step_bits: u32,
    pub min_scaling_bits: u32,
    pub max_scaling_bits: u32,
    pub vertical_resolution_baseline: u32,
}

#[derive(Clone, Copy, Debug, PartialEq)]
pub struct PartialScalingSettings {
    pub scale_factor_bits: Option<u32>,
    pub scale_translation_view_only: Option<bool>,
    pub scaling_step_bits: Option<u32>,
    pub min_scaling_bits: Option<u32>,
    pub max_scaling_bits: Option<u32>,
    pub vertical_resolution_baseline: Option<u32>,
}

/// Each command is bound to a list of key combinations.  A list is one leaf:
/// it is inherited or overridden atomically, never element-wise.
#[derive(Debug, PartialEq)]
pub struct HotkeySettings {
    pub translate: Vec<Keys>,
    pub play_text: Vec<Keys>,
    pub show_definition: Vec<Keys>,
    pub input_text: Vec<Keys>,
    pub toggle_suspend: Vec<Keys>,
    pub zoom_in: Vec<Keys>,
    pub zoom_out: Vec<Keys>,
    pub reset_zoom: Vec<Keys>,
    pub toggle_definition: Vec<Keys>,
    pub archive_result: Vec<Keys>,
    pub add_tag: Vec<Keys>,
    pub toggle_tags: Vec<Keys>,
}

#[derive(Debug, PartialEq)]
pub struct PartialHotkeySettings {
    pub translate: Option<Vec<Keys>>,
    pub play_text: Option<Vec<Keys>>,
    pub show_definition: Option<Vec<Keys>>,
    pub input_text: Option<Vec<Keys>>,
    pub toggle_suspend: Option<Vec<Keys>>,
    pub zoom_in: Option<Vec<Keys>>,
    pub zoom_out: Option<Vec<Keys>>,
    pub reset_zoom: Option<Vec<Keys>>,
    pub toggle_definition: Option<Vec<Keys>>,
    pub archive_result: Option<Vec<Keys>>,
    pub add_tag: Option<Vec<Keys>>,
    pub toggle_tags: Option<Vec<Keys>>,
}

#[derive(Debug, PartialEq)]
pub struct SupabaseSettings {
    pub project_url: String,
    pub anon_key: String,
}

#[derive(Debug, PartialEq)]
pub struct PartialSupabaseSettings {
    pub project_url: Option<String>,
    pub anon_key: Option<String>,
}

/// Leaf rule of composition: a present override wins, an absent one inherits
/// the default.
pub open spec fn spec_leaf_or<A>(user: Option<A>, default: A) -> A {
    match user {
        Some(v) => v,
        None => default,
    }
}

/// Leaf rule of reconciliation: a present incoming leaf wins, an absent one
/// keeps the current leaf.
pub open spec fn spec_pick<A>(updated: Option<A>, current: Option<A>) -> Option<A> {
    if updated is Some {
        updated
    } else {
        current
    }
}

/// A section that can absorb an incoming update of the same shape.
pub trait UpdatableSettings: View + Sized {
    /// The meaning of `update` on the section's mathematical model.
    spec fn spec_update(pre: Self::V, updated_settings: Option<Self::V>) -> Self::V;

    /// Merge an incoming update into this section, leaf by leaf: a present
    /// leaf of `updated_settings` wins, an absent leaf keeps the current
    /// value.  An absent update leaves the section unchanged.
    fn update(&self, updated_settings: Option<Self>) -> (r: Self)
        ensures
            r@ == Self::spec_update(self@, opt_view(updated_settings)),
    ;
}

/// Reconciliation at the section slot: an absent current section is replaced
/// by the incoming one; a present current section absorbs the update.
pub open spec fn spec_update_settings<T: UpdatableSettings>(
    current_settings: Option<T::V>,
    updated_settings: Option<T::V>,
) -> Option<T::V> {
    match current_settings {
        None => updated_settings,
        Some(c) => Some(T::spec_update(c, updated_settings)),
    }
}

pub open spec fn spec_compose_core(
    user: PartialCoreSettingsView,
    default: CoreSettingsView,
) -> CoreSettingsView {
    CoreSettingsView {
        copy_delay_milliseconds: spec_leaf_or(
            user.copy_delay_milliseconds,
            default.copy_delay_milliseconds,
        ),
        request_timeout_milliseconds: spec_leaf_or(
            user.request_timeout_milliseconds,
            default.request_timeout_milliseconds,
        ),
        log_requests: spec_leaf_or(user.log_requests, default.log_requests),
        play_volume: spec_leaf_or(user.play_volume, default.play_volume),
        search_pattern: spec_leaf_or(user.search_pattern, default.search_pattern),
        last_records_to_scan_for_merge: spec_leaf_or(
            user.last_records_to_scan_for_merge,
            default.last_records_to_scan_for_merge,
        ),
        levenshtein_distance_for_merge: spec_leaf_or(
            user.levenshtein_distance_for_merge,
            default.levenshtein_distance_for_merge,
        ),
        proxy: spec_leaf_or(user.proxy, default.proxy),
    }
}

pub open spec fn spec_compose_translation(
    user: PartialTranslationSettingsView,
    default: TranslationSettingsView,
) -> TranslationSettingsView {
    TranslationSettingsView {
        source_language: spec_leaf_or(user.source_language, default.source_language),
        target_language: spec_leaf_or(user.target_language, default.target_language),
        tags: spec_leaf_or(user.tags, default.tags),
    }
}

pub open spec fn spec_compose_display(
    user: PartialDisplaySettings,
    default: DisplaySettings,
) -> DisplaySettings {
    DisplaySettings {
        visible_by_default_translations_in_category: spec_leaf_or(
            user.visible_by_default_translations_in_category,
            default.visible_by_default_translations_in_category,
        ),
        history_page_size: spec_leaf_or(user.history_page_size, default.history_page_size),
        history_columns: spec_leaf_or(user.history_columns, default.history_columns),
    }
}

pub open spec fn spec_compose_translation_window(
    user: PartialTranslationWindowSettings,
    default: TranslationWindowSettings,
) -> TranslationWindowSettings {
    TranslationWindowSettings {
        width: spec_leaf_or(user.width, default.width),
        height: spec_leaf_or(user.height, default.height),
        min_width: spec_leaf_or(user.min_width, default.min_width),
        min_height: spec_leaf_or(user.min_height, default.min_height),
        x: spec_leaf_or(user.x, default.x),
        y: spec_leaf_or(user.y, default.y),
        margin: spec_leaf_or(user.margin, default.margin),
    }
}

pub open spec fn spec_compose_window(
    user: PartialWindowSettings,
    default: WindowSettings,
) -> WindowSettings {
    WindowSettings {
        width_percentage: spec_leaf_or(user.width_percentage, default.width_percentage),
        height_percentage: spec_leaf_or(user.height_percentage, default.height_percentage),
        min_width: spec_leaf_or(user.min_width, default.min_width),
        min_height: spec_leaf_or(user.min_height, default.min_height),
    }
}

pub open spec fn spec_compose_scaling(
    user: PartialScalingSettings,
    default: ScalingSettings,
) -> ScalingSettings {
    ScalingSettings {
        scale_factor_bits: spec_leaf_or(user.scale_factor_bits, default.scale_factor_bits),
        scale_translation_view_only: spec_leaf_or(
            user.scale_translation_view_only,
            default.scale_translation_view_only,
        ),
        scaling_step_bits: spec_leaf_or(user.scaling_step_bits, default.scaling_step_bits),
        min_scaling_bits: spec_leaf_or(user.min_scaling_bits, default.min_scaling_bits),
        max_scaling_bits: spec_leaf_or(user.max_scaling_bits, default.max_scaling_bits),
        vertical_resolution_baseline: spec_leaf_or(
            user.vertical_resolution_baseline,
            default.vertical_resolution_baseline,
        ),
    }
}

pub open spec fn spec_compose_hotkeys(
    user: PartialHotkeySettingsView,
    default: HotkeySettingsView,
) -> HotkeySettingsView {
    HotkeySettingsView {
        translate: spec_leaf_or(user.translate, default.translate),
        play_text: spec_leaf_or(user.play_text, default.play_text),
        show_definition: spec_leaf_or(user.show_definition, default.show_definition),
        input_text: spec_leaf_or(user.input_text, default.input_text),
        toggle_suspend: spec_leaf_or(user.toggle_suspend, default.toggle_suspend),
        zoom_in: spec_leaf_or(user.zoom_in, default.zoom_in),
        zoom_out: spec_leaf_or(user.zoom_out, default.zoom_out),
        reset_zoom: spec_leaf_or(user.reset_zoom, default.reset_zoom),
        toggle_definition: spec_leaf_or(user.toggle_definition, default.toggle_definition),
        archive_result: spec_leaf_or(user.archive_result, default.archive_result),
        add_tag: spec_leaf_or(user.add_tag, default.add_tag),
        toggle_tags: spec_leaf_or(user.toggle_tags, default.toggle_tags),
    }
}

pub open spec fn spec_compose_supabase(
    user: PartialSupabaseSettingsView,
    default: SupabaseSettingsView,
) -> SupabaseSettingsView {
    SupabaseSettingsView {
        project_url: spec_leaf_or(user.project_url, default.project_url),
        anon_key: spec_leaf_or(user.anon_key, default.anon_key),
    }
}

/// Composition of a whole override tree over a fully resolved tree: an
/// absent section inherits the default section wholesale; a present section
/// is composed leaf by leaf.
pub open spec fn spec_compose(user: PartialSettingsView, default: SettingsView) -> SettingsView {
    SettingsView {
        core: match user.core {
            Some(c) => spec_compose_core(c, default.core),
            None => default.core,
        },
        translation: match user.translation {
            Some(t) => spec_compose_translation(t, default.translation),
            None => default.translation,
        },
        display: match user.display {
            Some(d) => spec_compose_display(d, default.display),
            None => default.display,
        },
        translation_window: match user.translation_window {
            Some(w) => spec_compose_translation_window(w, default.translation_window),
            None => default.translation_window,
        },
        history_window: match user.history_window {
            Some(w) => spec_compose_window(w, default.history_window),
            None => default.history_window,
        },
        settings_window: match user.settings_window {
            Some(w) => spec_compose_window(w, default.settings_window),
            None => default.settings_window,
        },
        scaling: match user.scaling {
            Some(s) => spec_compose_scaling(s, default.scaling),
            None => default.scaling,
        },
        hotkeys: match user.hotkeys {
            Some(h) => spec_compose_hotkeys(h, default.hotkeys),
            None => default.hotkeys,
        },
        supabase: match user.supabase {
            Some(s) => spec_compose_supabase(s, default.supabase),
            None => default.supabase,
        },
    }
}

/// Reconciliation of an incoming update into the current override tree,
/// section slot by section slot.
pub open spec fn spec_reconcile(
    current: PartialSettingsView,
    updated: PartialSettingsView,
) -> PartialSettingsView {
    PartialSettingsView {
        core: spec_update_settings::<PartialCoreSettings>(current.core, updated.core),
        translation: spec_update_settings::<PartialTranslationSettings>(
            current.translation,
            updated.translation,
        ),
        display: spec_update_settings::<PartialDisplaySettings>(current.display, updated.display),
        translation_window: spec_update_settings::<PartialTranslationWindowSettings>(
            current.translation_window,
            updated.translation_window,
        ),
        history_window: spec_update_settings::<PartialWindowSettings>(
            current.history_window,
            updated.history_window,
        ),
        settings_window: spec_update_settings::<PartialWindowSettings>(
            current.settings_window,
            updated.settings_window,
        ),
        scaling: spec_update_settings::<PartialScalingSettings>(current.scaling, updated.scaling),
        hotkeys: spec_update_settings::<PartialHotkeySettings>(current.hotkeys, updated.hotkeys),
        supabase: spec_update_settings::<PartialSupabaseSettings>(
            current.supabase,
            updated.supabase,
        ),
    }
}

impl Settings {
    /// Compose the user's override tree over the fully resolved defaults.
    /// Every leaf of the result is the override's leaf where present and the
    /// default's leaf otherwise.
    pub fn from(user_settings: PartialSettings, default_settings: Settings) -> (r: Self)
        ensures
            r@ == spec_compose(user_settings@, default_settings@),
    {
        Settings {
            core: match user_settings.core {
                Some(c) => CoreSettings::from(c, default_settings.core),
                None => default_settings.core,
            },
            translation: match user_settings.translation {
                Some(t) => TranslationSettings::from(t, default_settings.translation),
                None => default_settings.translation,
            },
            display: match user_settings.display {
                Some(d) => DisplaySettings::from(d, default_settings.display),
                None => default_settings.display,
            },
            translation_window: match user_settings.translation_window {
                Some(w) => TranslationWindowSettings::from(w, default_settings.translation_window),
                None => default_settings.translation_window,
            },
            history_window: match user_settings.history_window {
                Some(w) => WindowSettings::from(w, default_settings.history_window),
                None => default_settings.history_window,
            },
            settings_window: match user_settings.settings_window {
                Some(w) => WindowSettings::from(w, default_settings.settings_window),
                None => default_settings.settings_window,
            },
            scaling: match user_settings.scaling {
                Some(s) => ScalingSettings::from(s, default_settings.scaling),
                None => default_settings.scaling,
            },
            hotkeys: match user_settings.hotkeys {
                Some(h) => HotkeySettings::from(h, default_settings.hotkeys),
                None => default_settings.hotkeys,
            },
            supabase: match user_settings.supabase {
                Some(s) => SupabaseSettings::from(s, default_settings.supabase),
                None => default_settings.supabase,
            },
        }
    }
}

impl CoreSettings {
    pub fn from(user_settings: PartialCoreSettings, default_settings: CoreSettings) -> (r: Self)
        ensures
            r@ == spec_compose_core(user_settings@, default_settings@),
    {
        CoreSettings {
            copy_delay_milliseconds: match user_settings.copy_delay_milliseconds {
                Some(v) => v,
                None => default_settings.copy_delay_milliseconds,
            },
            request_timeout_milliseconds: match user_settings.request_timeout_milliseconds {
                Some(v) => v,
                None => default_settings.request_timeout_milliseconds,
            },
            log_requests: match user_settings.log_requests {
                Some(v) => v,
                None => default_settings.log_requests,
            },
            play_volume: match user_settings.play_volume {
                Some(v) => v,
                None => default_settings.play_volume,
            },
            search_pattern: match user_settings.search_pattern {
                Some(v) => v,
                None => default_settings.search_pattern,
            },
            last_records_to_scan_for_merge: match user_settings.last_records_to_scan_for_merge {
                Some(v) => v,
                None => default_settings.last_records_to_scan_for_merge,
            },
            levenshtein_distance_for_merge: match user_settings.levenshtein_distance_for_merge {
                Some(v) => v,
                None => default_settings.levenshtein_distance_for_merge,
            },
            proxy: match user_settings.proxy {
                Some(v) => v,
                None => default_settings.proxy,
            },
        }
    }
}

impl TranslationSettings {
    pub fn from(
        user_settings: PartialTranslationSettings,
        default_settings: TranslationSettings,
    ) -> (r: Self)
        ensures
            r@ == spec_compose_translation(user_settings@, default_settings@),
    {
        TranslationSettings {
            source_language: match user_settings.source_language {
                Some(v) => v,
                None => default_settings.source_language,
            },
            target_language: match user_settings.target_language {
                Some(v) => v,
                None => default_settings.target_language,
            },
            tags: match user_settings.tags {
                Some(v) => v,
                None => default_settings.tags,
            },
        }
    }
}

impl DisplaySettings {
    pub fn from(user_settings: PartialDisplaySettings, default_settings: DisplaySettings) -> (r:
        Self)
        ensures
            r@ == spec_compose_display(user_settings@, default_settings@),
    {
        DisplaySettings {
            visible_by_default_translations_in_category: match user_settings.visible_by_default_translations_in_category {
                Some(v) => v,
                None => default_settings.visible_by_default_translations_in_category,
            },
            history_page_size: match user_settings.history_page_size {
                Some(v) => v,
                None => default_settings.history_page_size,
            },
            history_columns: match user_settings.history_columns {
                Some(v) => v,
                None => default_settings.history_columns,
            },
        }
    }
}

impl TranslationWindowSettings {
    pub fn from(
        user_settings: PartialTranslationWindowSettings,
        default_settings: TranslationWindowSettings,
    ) -> (r: Self)
        ensures
            r@ == spec_compose_translation_window(user_settings@, default_settings@),
    {
        TranslationWindowSettings {
            width: match user_settings.width {
                Some(v) => v,
                None => default_settings.width,
            },
            height: match user_settings.height {
                Some(v) => v,
                None => default_settings.height,
            },
            min_width: match user_settings.min_width {
                Some(v) => v,
                None => default_settings.min_width,
            },
            min_height: match user_settings.min_height {
                Some(v) => v,
                None => default_settings.min_height,
            },
            x: match user_settings.x {
                Some(v) => v,
                None => default_settings.x,
            },
            y: match user_settings.y {
                Some(v) => v,
                None => default_settings.y,
            },
            margin: match user_settings.margin {
                Some(v) => v,
                None => default_settings.margin,
            },
        }
    }
}

impl WindowSettings {
    pub fn from(user_settings: PartialWindowSettings, default_settings: WindowSettings) -> (r:
        Self)
        ensures
            r@ == spec_compose_window(user_settings@, default_settings@),
    {
        WindowSettings {
            width_percentage: match user_settings.width_percentage {
                Some(v) => v,
                None => default_settings.width_percentage,
            },
            height_percentage: match user_settings.height_percentage {
                Some(v) => v,
                None => default_settings.height_percentage,
            },
            min_width: match user_settings.min_width {
                Some(v) => v,
                None => default_settings.min_width,
            },
            min_height: match user_settings.min_height {
                Some(v) => v,
                None => default_settings.min_height,
            },
        }
    }
}

impl ScalingSettings {
    pub fn from(user_settings: PartialScalingSettings, default_settings: ScalingSettings) -> (r:
        Self)
        ensures
            r@ == spec_compose_scaling(user_settings@, default_settings@),
    {
        ScalingSettings {
            scale_factor_bits: match user_settings.scale_factor_bits {
                Some(v) => v,
                None => default_settings.scale_factor_bits,
            },
            scale_translation_view_only: match user_settings.scale_translation_view_only {
                Some(v) => v,
                None => default_settings.scale_translation_view_only,
            },
            scaling_step_bits: match user_settings.scaling_step_bits {
                Some(v) => v,
                None => default_settings.scaling_step_bits,
            },
            min_scaling_bits: match user_settings.min_scaling_bits {
                Some(v) => v,
                None => default_settings.min_scaling_bits,
            },
            max_scaling_bits: match user_settings.max_scaling_bits {
                Some(v) => v,
                None => default_settings.max_scaling_bits,
            },
            vertical_resolution_baseline: match user_settings.vertical_resolution_baseline {
                Some(v) => v,
                None => default_settings.vertical_resolution_baseline,
            },
        }
    }
}

impl HotkeySettings {
    pub fn from(user_settings: PartialHotkeySettings, default_settings: HotkeySettings) -> (r:
        Self)
        ensures
            r@ == spec_compose_hotkeys(user_settings@, default_settings@),
    {
        HotkeySettings {
            translate: match user_settings.translate {
                Some(v) => v,
                None => default_settings.translate,
            },
            play_text: match user_settings.play_text {
                Some(v) => v,
                None => default_settings.play_text,
            },
            show_definition: match user_settings.show_definition {
                Some(v) => v,
                None => default_settings.show_definition,
            },
            input_text: match user_settings.input_text {
                Some(v) => v,
                None => default_settings.input_text,
            },
            toggle_suspend: match user_settings.toggle_suspend {
                Some(v) => v,
                None => default_settings.toggle_suspend,
            },
            zoom_in: match user_settings.zoom_in {
                Some(v) => v,
                None => default_settings.zoom_in,
            },
            zoom_out: match user_settings.zoom_out {
                Some(v) => v,
                None => default_settings.zoom_out,
            },
            reset_zoom: match user_settings.reset_zoom {
                Some(v) => v,
                None => default_settings.reset_zoom,
            },
            toggle_definition: match user_settings.toggle_definition {
                Some(v) => v,
                None => default_settings.toggle_definition,
            },
            archive_result: match user_settings.archive_result {
                Some(v) => v,
                None => default_settings.archive_result,
            },
            add_tag: match user_settings.add_tag {
                Some(v) => v,
                None => default_settings.add_tag,
            },
            toggle_tags: match user_settings.toggle_tags {
                Some(v) => v,
                None => default_settings.toggle_tags,
            },
        }
    }
}

impl SupabaseSettings {
    pub fn from(user_settings: PartialSupabaseSettings, default_settings: SupabaseSettings) -> (r:
        Self)
        ensures
            r@ == spec_compose_supabase(user_settings@, default_settings@),
    {
        SupabaseSettings {
            project_url: match user_settings.project_url {
                Some(v) => v,
                None => default_settings.project_url,
            },
            anon_key: match user_settings.anon_key {
                Some(v) => v,
                None => default_settings.anon_key,
            },
        }
    }
}

impl PartialSettings {
    /// Reconcile an incoming update into this override tree.  A present leaf
    /// of the update wins; an absent leaf keeps the stored value; a section
    /// absent on both sides stays absent.
    pub fn update(&self, updated_settings: PartialSettings) -> (r: Self)
        ensures
            r@ == spec_reconcile(self@, updated_settings@),
    {
        let pre = self.clone();
        Self {
            core: Self::update_settings(pre.core, updated_settings.core),
            translation: Self::update_settings(pre.translation, updated_settings.translation),
            display: Self::update_settings(pre.display, updated_settings.display),
            translation_window: Self::update_settings(
                pre.translation_window,
                updated_settings.translation_window,
            ),
            history_window: Self::update_settings(
                pre.history_window,
                updated_settings.history_window,
            ),
            settings_window: Self::update_settings(
                pre.settings_window,
                updated_settings.settings_window,
            ),
            scaling: Self::update_settings(pre.scaling, updated_settings.scaling),
            hotkeys: Self::update_settings(pre.hotkeys, updated_settings.hotkeys),
            supabase: Self::update_settings(pre.supabase, updated_settings.supabase),
        }
    }

    /// Reconciliation at one section slot.
    pub fn update_settings<T: Clone + UpdatableSettings>(
        current_settings: Option<T>,
        updated_settings: Option<T>,
    ) -> (r: Option<T>)
        ensures
            opt_view(r) == spec_update_settings::<T>(
                opt_view(current_settings),
                opt_view(updated_settings),
            ),
    {
        match current_settings {
            None => updated_settings,
            Some(c) => Some(c.update(updated_settings)),
        }
    }
}

impl UpdatableSettings for PartialCoreSettings {
    open spec fn spec_update(
        pre: PartialCoreSettingsView,
        updated_settings: Option<PartialCoreSettingsView>,
    ) -> PartialCoreSettingsView {
        match updated_settings {
            None => pre,
            Some(u) => PartialCoreSettingsView {
                copy_delay_milliseconds: spec_pick(
                    u.copy_delay_milliseconds,
                    pre.copy_delay_milliseconds,
                ),
                request_timeout_milliseconds: spec_pick(
                    u.request_timeout_milliseconds,
                    pre.request_timeout_milliseconds,
                ),
                log_requests: spec_pick(u.log_requests, pre.log_requests),
                play_volume: spec_pick(u.play_volume, pre.play_volume),
                search_pattern: spec_pick(u.search_pattern, pre.search_pattern),
                last_records_to_scan_for_merge: spec_pick(
                    u.last_records_to_scan_for_merge,
                    pre.last_records_to_scan_for_merge,
                ),
                levenshtein_distance_for_merge: spec_pick(
                    u.levenshtein_distance_for_merge,
                    pre.levenshtein_distance_for_merge,
                ),
                proxy: spec_pick(u.proxy, pre.proxy),
            },
        }
    }

    fn update(&self, updated_settings: Option<PartialCoreSettings>) -> (r: Self) {
        let pre = self.clone();
        match updated_settings {
            None => pre,
            Some(u) => PartialCoreSettings {
                copy_delay_milliseconds: if u.copy_delay_milliseconds.is_some() {
                    u.copy_delay_milliseconds
                } else {
                    pre.copy_delay_milliseconds
                },
                request_timeout_milliseconds: if u.request_timeout_milliseconds.is_some() {
                    u.request_timeout_milliseconds
                } else {
                    pre.request_timeout_milliseconds
                },
                log_requests: if u.log_requests.is_some() {
                    u.log_requests
                } else {
                    pre.log_requests
                },
                play_volume: if u.play_volume.is_some() {
                    u.play_volume
                } else {
                    pre.play_volume
                },
                search_pattern: if u.search_pattern.is_some() {
                    u.search_pattern
                } else {
                    pre.search_pattern
                },
                last_records_to_scan_for_merge: if u.last_records_to_scan_for_merge.is_some() {
                    u.last_records_to_scan_for_merge
                } else {
                    pre.last_records_to_scan_for_merge
                },
                levenshtein_distance_for_merge: if u.levenshtein_distance_for_merge.is_some() {
                    u.levenshtein_distance_for_merge
                } else {
                    pre.levenshtein_distance_for_merge
                },
                proxy: if u.proxy.is_some() {
                    u.proxy
                } else {
                    pre.proxy
                },
            },
        }
    }
}

impl UpdatableSettings for PartialTranslationSettings {
    open spec fn spec_update(
        pre: PartialTranslationSettingsView,
        updated_settings: Option<PartialTranslationSettingsView>,
    ) -> PartialTranslationSettingsView {
        match updated_settings {
            None => pre,
            Some(u) => PartialTranslationSettingsView {
                source_language: spec_pick(u.source_language, pre.source_language),
                target_language: spec_pick(u.target_language, pre.target_language),
                tags: spec_pick(u.tags, pre.tags),
            },
        }
    }

    fn update(&self, updated_settings: Option<PartialTranslationSettings>) -> (r: Self) {
        let pre = self.clone();
        match updated_settings {
            None => pre,
            Some(u) => PartialTranslationSettings {
                source_language: if u.source_language.is_some() {
                    u.source_language
                } else {
                    pre.source_language
                },
                target_language: if u.target_language.is_some() {
                    u.target_language
                } else {
                    pre.target_language
                },
                tags: if u.tags.is_some() {
                    u.tags
                } else {
                    pre.tags
                },
            },
        }
    }
}

impl UpdatableSettings for PartialDisplaySettings {
    open spec fn spec_update(
        pre: PartialDisplaySettings,
        updated_settings: Option<PartialDisplaySettings>,
    ) -> PartialDisplaySettings {
        match updated_settings {
            None => pre,
            Some(u) => PartialDisplaySettings {
                visible_by_default_translations_in_category: spec_pick(
                    u.visible_by_default_translations_in_category,
                    pre.visible_by_default_translations_in_category,
                ),
                history_page_size: spec_pick(u.history_page_size, pre.history_page_size),
                history_columns: spec_pick(u.history_columns, pre.history_columns),
            },
        }
    }

    fn update(&self, updated_settings: Option<PartialDisplaySettings>) -> (r: Self) {
        match updated_settings {
            None => *self,
            Some(u) => PartialDisplaySettings {
                visible_by_default_translations_in_category: if u.visible_by_default_translations_in_category.is_some() {
                    u.visible_by_default_translations_in_category
                } else {
                    self.visible_by_default_translations_in_category
                },
                history_page_size: if u.history_page_size.is_some() {
                    u.history_page_size
                } else {
                    self.history_page_size
                },
                history_columns: if u.history_columns.is_some() {
                    u.history_columns
                } else {
                    self.history_columns
                },
            },
        }
    }
}

impl UpdatableSettings for PartialTranslationWindowSettings {
    open spec fn spec_update(
        pre: PartialTranslationWindowSettings,
        updated_settings: Option<PartialTranslationWindowSettings>,
    ) -> PartialTranslationWindowSettings {
        match updated_settings {
            None => pre,
            Some(u) => PartialTranslationWindowSettings {
                width: spec_pick(u.width, pre.width),
                height: spec_pick(u.height, pre.height),
                min_width: spec_pick(u.min_width, pre.min_width),
                min_height: spec_pick(u.min_height, pre.min_height),
                x: spec_pick(u.x, pre.x),
                y: spec_pick(u.y, pre.y),
                margin: spec_pick(u.margin, pre.margin),
            },
        }
    }

    fn update(&self, updated_settings: Option<PartialTranslationWindowSettings>) -> (r: Self) {
        match updated_settings {
            None => *self,
            Some(u) => PartialTranslationWindowSettings {
                width: if u.width.is_some() {
                    u.width
                } else {
                    self.width
                },
                height: if u.height.is_some() {
                    u.height
                } else {
                    self.height
                },
                min_width: if u.min_width.is_some() {
                    u.min_width
                } else {
                    self.min_width
                },
                min_height: if u.min_height.is_some() {
                    u.min_height
                } else {
                    self.min_height
                },
                x: if u.x.is_some() {
                    u.x
                } else {
                    self.x
                },
                y: if u.y.is_some() {
                    u.y
                } else {
                    self.y
                },
                margin: if u.margin.is_some() {
                    u.margin
                } else {
                    self.margin
                },
            },
        }
    }
}

impl UpdatableSettings for PartialWindowSettings {
    open spec fn spec_update(
        pre: PartialWindowSettings,
        updated_settings: Option<PartialWindowSettings>,
    ) -> PartialWindowSettings {
        match updated_settings {
            None => pre,
            Some(u) => PartialWindowSettings {
                width_percentage: spec_pick(u.width_percentage, pre.width_percentage),
                height_percentage: spec_pick(u.height_percentage, pre.height_percentage),
                min_width: spec_pick(u.min_width, pre.min_width),
                min_height: spec_pick(u.min_height, pre.min_height),
            },
        }
    }

    fn update(&self, updated_settings: Option<PartialWindowSettings>) -> (r: Self) {
        match updated_settings {
            None => *self,
            Some(u) => PartialWindowSettings {
                width_percentage: if u.width_percentage.is_some() {
                    u.width_percentage
                } else {
                    self.width_percentage
                },
                height_percentage: if u.height_percentage.is_some() {
                    u.height_percentage
                } else {
                    self.height_percentage
                },
                min_width: if u.min_width.is_some() {
                    u.min_width
                } else {
                    self.min_width
                },
                min_height: if u.min_height.is_some() {
                    u.min_height
                } else {
                    self.min_height
                },
            },
        }
    }
}

impl UpdatableSettings for PartialScalingSettings {
    open spec fn spec_update(
        pre: PartialScalingSettings,
        updated_settings: Option<PartialScalingSettings>,
    ) -> PartialScalingSettings {
        match updated_settings {
            None => pre,
            Some(u) => PartialScalingSettings {
                scale_factor_bits: spec_pick(u.scale_factor_bits, pre.scale_factor_bits),
                scale_translation_view_only: spec_pick(
                    u.scale_translation_view_only,
                    pre.scale_translation_view_only,
                ),
                scaling_step_bits: spec_pick(u.scaling_step_bits, pre.scaling_step_bits),
                min_scaling_bits: spec_pick(u.min_scaling_bits, pre.min_scaling_bits),
                max_scaling_bits: spec_pick(u.max_scaling_bits, pre.max_scaling_bits),
                vertical_resolution_baseline: spec_pick(
                    u.vertical_resolution_baseline,
                    pre.vertical_resolution_baseline,
                ),
            },
        }
    }

    fn update(&self, updated_settings: Option<PartialScalingSettings>) -> (r: Self) {
        match updated_settings {
            None => *self,
            Some(u) => PartialScalingSettings {
                scale_factor_bits: if u.scale_factor_bits.is_some() {
                    u.scale_factor_bits
                } else {
                    self.scale_factor_bits
                },
                scale_translation_view_only: if u.scale_translation_view_only.is_some() {
                    u.scale_translation_view_only
                } else {
                    self.scale_translation_view_only
                },
                scaling_step_bits: if u.scaling_step_bits.is_some() {
                    u.scaling_step_bits
                } else {
                    self.scaling_step_bits
                },
                min_scaling_bits: if u.min_scaling_bits.is_some() {
                    u.min_scaling_bits
                } else {
                    self.min_scaling_bits
                },
                max_scaling_bits: if u.max_scaling_bits.is_some() {
                    u.max_scaling_bits
                } else {
                    self.max_scaling_bits
                },
                vertical_resolution_baseline: if u.vertical_resolution_baseline.is_some() {
                    u.vertical_resolution_baseline
                } else {
                    self.vertical_resolution_baseline
                },
            },
        }
    }
}

impl UpdatableSettings for PartialHotkeySettings {
    open spec fn spec_update(
        pre: PartialHotkeySettingsView,
        updated_settings: Option<PartialHotkeySettingsView>,
    ) -> PartialHotkeySettingsView {
        match updated_settings {
            None => pre,
            Some(u) => PartialHotkeySettingsView {
                translate: spec_pick(u.translate, pre.translate),
                play_text: spec_pick(u.play_text, pre.play_text),
                show_definition: spec_pick(u.show_definition, pre.show_definition),
                input_text: spec_pick(u.input_text, pre.input_text),
                toggle_suspend: spec_pick(u.toggle_suspend, pre.toggle_suspend),
                zoom_in: spec_pick(u.zoom_in, pre.zoom_in),
                zoom_out: spec_pick(u.zoom_out, pre.zoom_out),
                reset_zoom: spec_pick(u.reset_zoom, pre.reset_zoom),
                toggle_definition: spec_pick(u.toggle_definition, pre.toggle_definition),
                archive_result: spec_pick(u.archive_result, pre.archive_result),
                add_tag: spec_pick(u.add_tag, pre.add_tag),
                toggle_tags: spec_pick(u.toggle_tags, pre.toggle_tags),
            },
        }
    }

    fn update(&self, updated_settings: Option<PartialHotkeySettings>) -> (r: Self) {
        let pre = self.clone();
        match updated_settings {
            None => pre,
            Some(u) => PartialHotkeySettings {
                translate: if u.translate.is_some() {
                    u.translate
                } else {
                    pre.translate
                },
                play_text: if u.play_text.is_some() {
                    u.play_text
                } else {
                    pre.play_text
                },
                show_definition: if u.show_definition.is_some() {
                    u.show_definition
                } else {
                    pre.show_definition
                },
                input_text: if u.input_text.is_some() {
                    u.input_text
                } else {
                    pre.input_text
                },
                toggle_suspend: if u.toggle_suspend.is_some() {
                    u.toggle_suspend
                } else {
                    pre.toggle_suspend
                },
                zoom_in: if u.zoom_in.is_some() {
                    u.zoom_in
                } else {
                    pre.zoom_in
                },
                zoom_out: if u.zoom_out.is_some() {
                    u.zoom_out
                } else {
                    pre.zoom_out
                },
                reset_zoom: if u.reset_zoom.is_some() {
                    u.reset_zoom
                } else {
                    pre.reset_zoom
                },
                toggle_definition: if u.toggle_definition.is_some() {
                    u.toggle_definition
                } else {
                    pre.toggle_definition
                },
                archive_result: if u.archive_result.is_some() {
                    u.archive_result
                } else {
                    pre.archive_result
                },
                add_tag: if u.add_tag.is_some() {
                    u.add_tag
                } else {
                    pre.add_tag
                },
                toggle_tags: if u.toggle_tags.is_some() {
                    u.toggle_tags
                } else {
                    pre.toggle_tags
                },
            },
        }
    }
}

pub(crate) fn clone_opt_string(o: &Option<String>) -> (r: Option<String>)
    ensures
        r.deep_view() == o.deep_view(),
{
    match o {
        Some(s) => Some(s.clone()),
        None => None,
    }
}

fn clone_opt_opt_string(o: &Option<Option<String>>) -> (r: Option<Option<String>>)
    ensures
        r.deep_view() == o.deep_view(),
{
    match o {
        Some(inner) => Some(clone_opt_string(inner)),
        None => None,
    }
}

pub(crate) fn clone_tags(tags: &Vec<Tag>) -> (r: Vec<Tag>)
    ensures
        r.deep_view() == tags.deep_view(),
{
    let mut r: Vec<Tag> = Vec::new();
    let mut i: usize = 0;
    while i < tags.len()
        invariant
            i <= tags.len(),
            r@.len() == i,
            forall|j: int| 0 <= j < i as int ==> r@[j]@ == tags@[j]@,
        decreases tags.len() - i,
    {
        r.push(tags[i].clone());
        i = i + 1;
    }
    proof {
        assert forall|j: int| 0 <= j < r.deep_view().len() implies r.deep_view()[j]
            == tags.deep_view()[j] by {
            assert(r@[j]@ == tags@[j]@);
        }
        assert(r.deep_view() =~= tags.deep_view());
    }
    r
}

fn clone_opt_tags(o: &Option<Vec<Tag>>) -> (r: Option<Vec<Tag>>)
    ensures
        r.deep_view() == o.deep_view(),
{
    match o {
        Some(tags) => Some(clone_tags(tags)),
        None => None,
    }
}

fn clone_keys(keys: &Keys) -> (r: Keys)
    ensures
        r.deep_view() == keys.deep_view(),
{
    let mut r: Keys = Vec::new();
    let mut i: usize = 0;
    while i < keys.len()
        invariant
            i <= keys.len(),
            r@.len() == i,
            forall|j: int| 0 <= j < i as int ==> r@[j] == keys@[j],
        decreases keys.len() - i,
    {
        r.push(keys[i].clone());
        i = i + 1;
    }
    proof {
        assert(r@ =~= keys@);
    }
    r
}

pub(crate) fn clone_keys_list(list: &Vec<Keys>) -> (r: Vec<Keys>)
    ensures
        r.deep_view() == list.deep_view(),
{
    let mut r: Vec<Keys> = Vec::new();
    let mut i: usize = 0;
    while i < list.len()
        invariant
            i <= list.len(),
            r@.len() == i,
            forall|j: int| 0 <= j < i as int ==> r@[j].deep_view() == list@[j].deep_view(),
        decreases list.len() - i,
    {
        r.push(clone_keys(&list[i]));
        i = i + 1;
    }
    proof {
        assert forall|j: int| 0 <= j < r.deep_view().len() implies r.deep_view()[j]
            == list.deep_view()[j] by {
            assert(r@[j].deep_view() == list@[j].deep_view());
        }
        assert(r.deep_view() =~= list.deep_view());
    }
    r
}

fn clone_opt_keys_list(o: &Option<Vec<Keys>>) -> (r: Option<Vec<Keys>>)
    ensures
        r.deep_view() == o.deep_view(),
{
    match o {
        Some(list) => Some(clone_keys_list(list)),
        None => None,
    }
}

impl Clone for Tag {
    fn clone(&self) -> (res: Self)
        ensures
            res@ == self@,
    {
        Tag { tag: self.tag.clone(), enabled: self.enabled }
    }
}

impl Clone for CoreSettings {
    fn clone(&self) -> (res: Self)
        ensures
            res@ == self@,
    {
        CoreSettings {
            copy_delay_milliseconds: self.copy_delay_milliseconds,
            request_timeout_milliseconds: self.request_timeout_milliseconds,
            log_requests: self.log_requests,
            play_volume: self.play_volume,
            search_pattern: self.search_pattern.clone(),
            last_records_to_scan_for_merge: self.last_records_to_scan_for_merge,
            levenshtein_distance_for_merge: self.levenshtein_distance_for_merge,
            proxy: clone_opt_string(&self.proxy),
        }
    }
}

impl Clone for PartialCoreSettings {
    fn clone(&self) -> (res: Self)
        ensures
            res@ == self@,
    {
        PartialCoreSettings {
            copy_delay_milliseconds: self.copy_delay_milliseconds,
            request_timeout_milliseconds: self.request_timeout_milliseconds,
            log_requests: self.log_requests,
            play_volume: self.play_volume,
            search_pattern: clone_opt_string(&self.search_pattern),
            last_records_to_scan_for_merge: self.last_records_to_scan_for_merge,
            levenshtein_distance_for_merge: self.levenshtein_distance_for_merge,
            proxy: clone_opt_opt_string(&self.proxy),
        }
    }
}

impl Clone for TranslationSettings {
    fn clone(&self) -> (res: Self)
        ensures
            res@ == self@,
    {
        TranslationSettings {
            source_language: self.source_language.clone(),
            target_language: self.target_language.clone(),
            tags: clone_tags(&self.tags),
        }
    }
}

impl Clone for PartialTranslationSettings {
    fn clone(&self) -> (res: Self)
        ensures
            res@ == self@,
    {
        PartialTranslationSettings {
            source_language: clone_opt_string(&self.source_language),
            target_language: clone_opt_string(&self.target_language),
            tags: clone_opt_tags(&self.tags),
        }
    }
}

impl Clone for HotkeySettings {
    fn clone(&self) -> (res: Self)
        ensures
            res@ == self@,
    {
        HotkeySettings {
            translate: clone_keys_list(&self.translate),
            play_text: clone_keys_list(&self.play_text),
            show_definition: clone_keys_list(&self.show_definition),
            input_text: clone_keys_list(&self.input_text),
            toggle_suspend: clone_keys_list(&self.toggle_suspend),
            zoom_in: clone_keys_list(&self.zoom_in),
            zoom_out: clone_keys_list(&self.zoom_out),
            reset_zoom: clone_keys_list(&self.reset_zoom),
            toggle_definition: clone_keys_list(&self.toggle_definition),
            archive_result: clone_keys_list(&self.archive_result),
            add_tag: clone_keys_list(&self.add_tag),
            toggle_tags: clone_keys_list(&self.toggle_tags),
        }
    }
}

impl Clone for PartialHotkeySettings {
    fn clone(&self) -> (res: Self)
        ensures
            res@ == self@,
    {
        PartialHotkeySettings {
            translate: clone_opt_keys_list(&self.translate),
            play_text: clone_opt_keys_list(&self.play_text),
            show_definition: clone_opt_keys_list(&self.show_definition),
            input_text: clone_opt_keys_list(&self.input_text),
            toggle_suspend: clone_opt_keys_list(&self.toggle_suspend),
            zoom_in: clone_opt_keys_list(&self.zoom_in),
            zoom_out: clone_opt_keys_list(&self.zoom_out),
            reset_zoom: clone_opt_keys_list(&self.reset_zoom),
            toggle_definition: clone_opt_keys_list(&self.toggle_definition),
            archive_result: clone_opt_keys_list(&self.archive_result),
            add_tag: clone_opt_keys_list(&self.add_tag),
            toggle_tags: clone_opt_keys_list(&self.toggle_tags),
        }
    }
}

impl Clone for SupabaseSettings {
    fn clone(&self) -> (res: Self)
        ensures
            res@ == self@,
    {
        SupabaseSettings {
            project_url: self.project_url.clone(),
            anon_key: self.anon_key.clone(),
        }
    }
}

impl Clone for PartialSupabaseSettings {
    fn clone(&self) -> (res: Self)
        ensures
            res@ == self@,
    {
        PartialSupabaseSettings {
            project_url: clone_opt_string(&self.project_url),
            anon_key: clone_opt_string(&self.anon_key),
        }
    }
}

impl Clone for Settings {
    fn clone(&self) -> (res: Self)
        ensures
            res@ == self@,
    {
        Settings {
            core: self.core.clone(),
            translation: self.translation.clone(),
            display: self.display,
            translation_window: self.translation_window,
            history_window: self.history_window,
            settings_window: self.settings_window,
            scaling: self.scaling,
            hotkeys: self.hotkeys.clone(),
            supabase: self.supabase.clone(),
        }
    }
}

impl Clone for PartialSettings {
    fn clone(&self) -> (res: Self)
        ensures
            res@ == self@,
    {
        PartialSettings {
            core: match &self.core {
                Some(c) => Some(c.clone()),
                None => None,
            },
            translation: match &self.translation {
                Some(t) => Some(t.clone()),
                None => None,
            },
            display: self.display,
            translation_window: self.translation_window,
            history_window: self.history_window,
            settings_window: self.settings_window,
            scaling: self.scaling,
            hotkeys: match &self.hotkeys {
                Some(h) => Some(h.clone()),
                None => None,
            },
            supabase: match &self.supabase {
                Some(s) => Some(s.clone()),
                None => None,
            },
        }
    }
}

impl Default for PartialCoreSettings {
    fn default() -> (r: Self)
        ensures
            r@ == empty_partial_core(),
    {
        PartialCoreSettings {
            copy_delay_milliseconds: None,
            request_timeout_milliseconds: None,
            log_requests: None,
            play_volume: None,
            search_pattern: None,
            last_records_to_scan_for_merge: None,
            levenshtein_distance_for_merge: None,
            proxy: None,
        }
    }
}

impl Default for PartialTranslationSettings {
    fn default() -> (r: Self)
        ensures
            r@ == empty_partial_translation(),
    {
        PartialTranslationSettings { source_language: None, target_language: None, tags: None }
    }
}

impl Default for PartialDisplaySettings {
    fn default() -> (r: Self)
        ensures
            r@ == empty_partial_display(),
    {
        PartialDisplaySettings {
            visible_by_default_translations_in_category: None,
            history_page_size: None,
            history_columns: None,
        }
    }
}

impl Default for PartialTranslationWindowSettings {
    fn default() -> (r: Self)
        ensures
            r@ == empty_partial_translation_window(),
    {
        PartialTranslationWindowSettings {
            width: None,
            height: None,
            min_width: None,
            min_height: None,
            x: None,
            y: None,
            margin: None,
        }
    }
}

impl Default for PartialWindowSettings {
    fn default() -> (r: Self)
        ensures
            r@ == empty_partial_window(),
    {
        PartialWindowSettings {
            width_percentage: None,
            height_percentage: None,
            min_width: None,
            min_height: None,
        }
    }
}

impl Default for PartialScalingSettings {
    fn default() -> (r: Self)
        ensures
            r@ == empty_partial_scaling(),
    {
        PartialScalingSettings {
            scale_factor_bits: None,
            scale_translation_view_only: None,
            scaling_step_bits: None,
            min_scaling_bits: None,
            max_scaling_bits: None,
            vertical_resolution_baseline: None,
        }
    }
}

impl Default for PartialHotkeySettings {
    fn default() -> (r: Self)
        ensures
            r@ == empty_partial_hotkeys(),
    {
        PartialHotkeySettings {
            translate: None,
            play_text: None,
            show_definition: None,
            input_text: None,
            toggle_suspend: None,
            zoom_in: None,
            zoom_out: None,
            reset_zoom: None,
            toggle_definition: None,
            archive_result: None,
            add_tag: None,
            toggle_tags: None,
        }
    }
}

impl Default for PartialSupabaseSettings {
    fn default() -> (r: Self)
        ensures
            r@ == empty_partial_supabase(),
    {
        PartialSupabaseSettings { project_url: None, anon_key: None }
    }
}

impl Default for PartialSettings {
    fn default() -> (r: Self)
        ensures
            r@ == empty_partial(),
    {
        PartialSettings {
            core: None,
            translation: None,
            display: None,
            translation_window: None,
            history_window: None,
            settings_window: None,
            scaling: None,
            hotkeys: None,
            supabase: None,
        }
    }
}

impl UpdatableSettings for PartialSupabaseSettings {
    open spec fn spec_update(
        pre: PartialSupabaseSettingsView,
        updated_settings: Option<PartialSupabaseSettingsView>,
    ) -> PartialSupabaseSettingsView {
        match updated_settings {
            None => pre,
            Some(u) => PartialSupabaseSettingsView {
                project_url: spec_pick(u.project_url, pre.project_url),
                anon_key: spec_pick(u.anon_key, pre.anon_key),
            },
        }
    }

    fn update(&self, updated_settings: Option<PartialSupabaseSettings>) -> (r: Self) {
        let pre = self.clone();
        match updated_settings {
            None => pre,
            Some(u) => PartialSupabaseSettings {
                project_url: if u.project_url.is_some() {
                    u.project_url
                } else {
                    pre.project_url
                },
                anon_key: if u.anon_key.is_some() {
                    u.anon_key
                } else {
                    pre.anon_key
                },
            },
        }
    }
}

} // verus!
