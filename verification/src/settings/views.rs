//! Mathematical models of the settings trees.
//!
//! Every executable settings type has a view: a ghost mirror in which a
//! `String` becomes a `Seq<char>` and a `Vec` becomes a `Seq`.  Types whose
//! fields are all plain copyable values are their own model.  Contracts and
//! laws in the sibling modules are stated over these views.

use vstd::prelude::*;

use crate::settings::CoreSettings;
use crate::settings::HotkeySettings;
use crate::settings::PartialCoreSettings;
use crate::settings::PartialDisplaySettings;
use crate::settings::PartialHotkeySettings;
use crate::settings::PartialScalingSettings;
use crate::settings::PartialSettings;
use crate::settings::PartialSupabaseSettings;
use crate::settings::PartialTranslationSettings;
use crate::settings::PartialTranslationWindowSettings;
use crate::settings::PartialWindowSettings;
use crate::settings::Settings;
use crate::settings::SupabaseSettings;
use crate::settings::Tag;
use crate::settings::TranslationSettings;

verus! {

/// The view of an optional value, when the element type has a view of its own.
pub open spec fn opt_view<T: View>(o: Option<T>) -> Option<T::V> {
    match o {
        Some(t) => Some(t@),
        None => None,
    }
}

#[verifier::ext_equal]
pub struct TagView {
    pub tag: Seq<char>,
    pub enabled: bool,
}

#[verifier::ext_equal]
pub struct CoreSettingsView {
    pub copy_delay_milliseconds: u64,
    pub request_timeout_milliseconds: u32,
    pub log_requests: bool,
    pub play_volume: u32,
    pub search_pattern: Seq<char>,
    pub last_records_to_scan_for_merge: u32,
    pub levenshtein_distance_for_merge: u8,
    pub proxy: Option<Seq<char>>,
}

#[verifier::ext_equal]
pub struct TranslationSettingsView {
    pub source_language: Seq<char>,
    pub target_language: Seq<char>,
    pub tags: Seq<TagView>,
}

#[verifier::ext_equal]
pub struct HotkeySettingsView {
    pub translate: Seq<Seq<Seq<char>>>,
    pub play_text: Seq<Seq<Seq<char>>>,
    pub show_definition: Seq<Seq<Seq<char>>>,
    pub input_text: Seq<Seq<Seq<char>>>,
    pub toggle_suspend: Seq<Seq<Seq<char>>>,
    pub zoom_in: Seq<Seq<Seq<char>>>,
    pub zoom_out: Seq<Seq<Seq<char>>>,
    pub reset_zoom: Seq<Seq<Seq<char>>>,
    pub toggle_definition: Seq<Seq<Seq<char>>>,
    pub archive_result: Seq<Seq<Seq<char>>>,
    pub add_tag: Seq<Seq<Seq<char>>>,
    pub toggle_tags: Seq<Seq<Seq<char>>>,
}

#[verifier::ext_equal]
pub struct SupabaseSettingsView {
    pub project_url: Seq<char>,
    pub anon_key: Seq<char>,
}

#[verifier::ext_equal]
pub struct SettingsView {
    pub core: CoreSettingsView,
    pub translation: TranslationSettingsView,
    pub display: crate::settings::DisplaySettings,
    pub translation_window: crate::settings::TranslationWindowSettings,
    pub history_window: crate::settings::WindowSettings,
    pub settings_window: crate::settings::WindowSettings,
    pub scaling: crate::settings::ScalingSettings,
    pub hotkeys: HotkeySettingsView,
    pub supabase: SupabaseSettingsView,
}

#[verifier::ext_equal]
pub struct PartialCoreSettingsView {
    pub copy_delay_milliseconds: Option<u64>,
    pub request_timeout_milliseconds: Option<u32>,
    pub log_requests: Option<bool>,
    pub play_volume: Option<u32>,
    pub search_pattern: Option<Seq<char>>,
    pub last_records_to_scan_for_merge: Option<u32>,
    pub levenshtein_distance_for_merge: Option<u8>,
    pub proxy: Option<Option<Seq<char>>>,
}

#[verifier::ext_equal]
pub struct PartialTranslationSettingsView {
    pub source_language: Option<Seq<char>>,
    pub target_language: Option<Seq<char>>,
    pub tags: Option<Seq<TagView>>,
}

#[verifier::ext_equal]
pub struct PartialHotkeySettingsView {
    pub translate: Option<Seq<Seq<Seq<char>>>>,
    pub play_text: Option<Seq<Seq<Seq<char>>>>,
    pub show_definition: Option<Seq<Seq<Seq<char>>>>,
    pub input_text: Option<Seq<Seq<Seq<char>>>>,
    pub toggle_suspend: Option<Seq<Seq<Seq<char>>>>,
    pub zoom_in: Option<Seq<Seq<Seq<char>>>>,
    pub zoom_out: Option<Seq<Seq<Seq<char>>>>,
    pub reset_zoom: Option<Seq<Seq<Seq<char>>>>,
    pub toggle_definition: Option<Seq<Seq<Seq<char>>>>,
    pub archive_result: Option<Seq<Seq<Seq<char>>>>,
    pub add_tag: Option<Seq<Seq<Seq<char>>>>,
    pub toggle_tags: Option<Seq<Seq<Seq<char>>>>,
}

#[verifier::ext_equal]
pub struct PartialSupabaseSettingsView {
    pub project_url: Option<Seq<char>>,
    pub anon_key: Option<Seq<char>>,
}

#[verifier::ext_equal]
pub struct PartialSettingsView {
    pub core: Option<PartialCoreSettingsView>,
    pub translation: Option<PartialTranslationSettingsView>,
    pub display: Option<PartialDisplaySettings>,
    pub translation_window: Option<PartialTranslationWindowSettings>,
    pub history_window: Option<PartialWindowSettings>,
    pub settings_window: Option<PartialWindowSettings>,
    pub scaling: Option<PartialScalingSettings>,
    pub hotkeys: Option<PartialHotkeySettingsView>,
    pub supabase: Option<PartialSupabaseSettingsView>,
}

impl View for Tag {
    type V = TagView;

    open spec fn view(&self) -> TagView {
        TagView { tag: self.tag@, enabled: self.enabled }
    }
}

impl DeepView for Tag {
    type V = TagView;

    open spec fn deep_view(&self) -> TagView {
        self.view()
    }
}

impl View for CoreSettings {
    type V = CoreSettingsView;

    open spec fn view(&self) -> CoreSettingsView {
        CoreSettingsView {
            copy_delay_milliseconds: self.copy_delay_milliseconds,
            request_timeout_milliseconds: self.request_timeout_milliseconds,
            log_requests: self.log_requests,
            play_volume: self.play_volume,
            search_pattern: self.search_pattern@,
            last_records_to_scan_for_merge: self.last_records_to_scan_for_merge,
            levenshtein_distance_for_merge: self.levenshtein_distance_for_merge,
            proxy: self.proxy.deep_view(),
        }
    }
}

impl DeepView for CoreSettings {
    type V = CoreSettingsView;

    open spec fn deep_view(&self) -> CoreSettingsView {
        self.view()
    }
}

impl View for TranslationSettings {
    type V = TranslationSettingsView;

    open spec fn view(&self) -> TranslationSettingsView {
        TranslationSettingsView {
            source_language: self.source_language@,
            target_language: self.target_language@,
            tags: self.tags.deep_view(),
        }
    }
}

impl DeepView for TranslationSettings {
    type V = TranslationSettingsView;

    open spec fn deep_view(&self) -> TranslationSettingsView {
        self.view()
    }
}

impl View for HotkeySettings {
    type V = HotkeySettingsView;

    open spec fn view(&self) -> HotkeySettingsView {
        HotkeySettingsView {
            translate: self.translate.deep_view(),
            play_text: self.play_text.deep_view(),
            show_definition: self.show_definition.deep_view(),
            input_text: self.input_text.deep_view(),
            toggle_suspend: self.toggle_suspend.deep_view(),
            zoom_in: self.zoom_in.deep_view(),
            zoom_out: self.zoom_out.deep_view(),
            reset_zoom: self.reset_zoom.deep_view(),
            toggle_definition: self.toggle_definition.deep_view(),
            archive_result: self.archive_result.deep_view(),
            add_tag: self.add_tag.deep_view(),
            toggle_tags: self.toggle_tags.deep_view(),
        }
    }
}

impl DeepView for HotkeySettings {
    type V = HotkeySettingsView;

    open spec fn deep_view(&self) -> HotkeySettingsView {
        self.view()
    }
}

impl View for SupabaseSettings {
    type V = SupabaseSettingsView;

    open spec fn view(&self) -> SupabaseSettingsView {
        SupabaseSettingsView { project_url: self.project_url@, anon_key: self.anon_key@ }
    }
}

impl DeepView for SupabaseSettings {
    type V = SupabaseSettingsView;

    open spec fn deep_view(&self) -> SupabaseSettingsView {
        self.view()
    }
}

impl View for Settings {
    type V = SettingsView;

    open spec fn view(&self) -> SettingsView {
        SettingsView {
            core: self.core@,
            translation: self.translation@,
            display: self.display,
            translation_window: self.translation_window,
            history_window: self.history_window,
            settings_window: self.settings_window,
            scaling: self.scaling,
            hotkeys: self.hotkeys@,
            supabase: self.supabase@,
        }
    }
}

impl DeepView for Settings {
    type V = SettingsView;

    open spec fn deep_view(&self) -> SettingsView {
        self.view()
    }
}

impl View for PartialCoreSettings {
    type V = PartialCoreSettingsView;

    open spec fn view(&self) -> PartialCoreSettingsView {
        PartialCoreSettingsView {
            copy_delay_milliseconds: self.copy_delay_milliseconds,
            request_timeout_milliseconds: self.request_timeout_milliseconds,
            log_requests: self.log_requests,
            play_volume: self.play_volume,
            search_pattern: self.search_pattern.deep_view(),
            last_records_to_scan_for_merge: self.last_records_to_scan_for_merge,
            levenshtein_distance_for_merge: self.levenshtein_distance_for_merge,
            proxy: self.proxy.deep_view(),
        }
    }
}

impl DeepView for PartialCoreSettings {
    type V = PartialCoreSettingsView;

    open spec fn deep_view(&self) -> PartialCoreSettingsView {
        self.view()
    }
}

impl View for PartialTranslationSettings {
    type V = PartialTranslationSettingsView;

    open spec fn view(&self) -> PartialTranslationSettingsView {
        PartialTranslationSettingsView {
            source_language: self.source_language.deep_view(),
            target_language: self.target_language.deep_view(),
            tags: self.tags.deep_view(),
        }
    }
}

impl DeepView for PartialTranslationSettings {
    type V = PartialTranslationSettingsView;

    open spec fn deep_view(&self) -> PartialTranslationSettingsView {
        self.view()
    }
}

impl View for crate::settings::DisplaySettings {
    type V = crate::settings::DisplaySettings;

    open spec fn view(&self) -> crate::settings::DisplaySettings {
        *self
    }
}

impl DeepView for crate::settings::DisplaySettings {
    type V = crate::settings::DisplaySettings;

    open spec fn deep_view(&self) -> crate::settings::DisplaySettings {
        *self
    }
}

impl View for crate::settings::HistoryColumns {
    type V = crate::settings::HistoryColumns;

    open spec fn view(&self) -> crate::settings::HistoryColumns {
        *self
    }
}

impl DeepView for crate::settings::HistoryColumns {
    type V = crate::settings::HistoryColumns;

    open spec fn deep_view(&self) -> crate::settings::HistoryColumns {
        *self
    }
}

impl View for crate::settings::HistoryColumn {
    type V = crate::settings::HistoryColumn;

    open spec fn view(&self) -> crate::settings::HistoryColumn {
        *self
    }
}

impl DeepView for crate::settings::HistoryColumn {
    type V = crate::settings::HistoryColumn;

    open spec fn deep_view(&self) -> crate::settings::HistoryColumn {
        *self
    }
}

impl View for crate::settings::TranslationWindowSettings {
    type V = crate::settings::TranslationWindowSettings;

    open spec fn view(&self) -> crate::settings::TranslationWindowSettings {
        *self
    }
}

impl DeepView for crate::settings::TranslationWindowSettings {
    type V = crate::settings::TranslationWindowSettings;

    open spec fn deep_view(&self) -> crate::settings::TranslationWindowSettings {
        *self
    }
}

impl View for crate::settings::WindowSettings {
    type V = crate::settings::WindowSettings;

    open spec fn view(&self) -> crate::settings::WindowSettings {
        *self
    }
}

impl DeepView for crate::settings::WindowSettings {
    type V = crate::settings::WindowSettings;

    open spec fn deep_view(&self) -> crate::settings::WindowSettings {
        *self
    }
}

impl View for crate::settings::ScalingSettings {
    type V = crate::settings::ScalingSettings;

    open spec fn view(&self) -> crate::settings::ScalingSettings {
        *self
    }
}

impl DeepView for crate::settings::ScalingSettings {
    type V = crate::settings::ScalingSettings;

    open spec fn deep_view(&self) -> crate::settings::ScalingSettings {
        *self
    }
}

impl View for PartialDisplaySettings {
    type V = PartialDisplaySettings;

    open spec fn view(&self) -> PartialDisplaySettings {
        *self
    }
}

impl DeepView for PartialDisplaySettings {
    type V = PartialDisplaySettings;

    open spec fn deep_view(&self) -> PartialDisplaySettings {
        *self
    }
}

impl View for PartialTranslationWindowSettings {
    type V = PartialTranslationWindowSettings;

    open spec fn view(&self) -> PartialTranslationWindowSettings {
        *self
    }
}

impl DeepView for PartialTranslationWindowSettings {
    type V = PartialTranslationWindowSettings;

    open spec fn deep_view(&self) -> PartialTranslationWindowSettings {
        *self
    }
}

impl View for PartialWindowSettings {
    type V = PartialWindowSettings;

    open spec fn view(&self) -> PartialWindowSettings {
        *self
    }
}

impl DeepView for PartialWindowSettings {
    type V = PartialWindowSettings;

    open spec fn deep_view(&self) -> PartialWindowSettings {
        *self
    }
}

impl View for PartialScalingSettings {
    type V = PartialScalingSettings;

    open spec fn view(&self) -> PartialScalingSettings {
        *self
    }
}

impl DeepView for PartialScalingSettings {
    type V = PartialScalingSettings;

    open spec fn deep_view(&self) -> PartialScalingSettings {
        *self
    }
}

impl View for PartialHotkeySettings {
    type V = PartialHotkeySettingsView;

    open spec fn view(&self) -> PartialHotkeySettingsView {
        PartialHotkeySettingsView {
            translate: self.translate.deep_view(),
            play_text: self.play_text.deep_view(),
            show_definition: self.show_definition.deep_view(),
            input_text: self.input_text.deep_view(),
            toggle_suspend: self.toggle_suspend.deep_view(),
            zoom_in: self.zoom_in.deep_view(),
            zoom_out: self.zoom_out.deep_view(),
            reset_zoom: self.reset_zoom.deep_view(),
            toggle_definition: self.toggle_definition.deep_view(),
            archive_result: self.archive_result.deep_view(),
            add_tag: self.add_tag.deep_view(),
            toggle_tags: self.toggle_tags.deep_view(),
        }
    }
}

impl DeepView for PartialHotkeySettings {
    type V = PartialHotkeySettingsView;

    open spec fn deep_view(&self) -> PartialHotkeySettingsView {
        self.view()
    }
}

impl View for PartialSupabaseSettings {
    type V = PartialSupabaseSettingsView;

    open spec fn view(&self) -> PartialSupabaseSettingsView {
        PartialSupabaseSettingsView {
            project_url: self.project_url.deep_view(),
            anon_key: self.anon_key.deep_view(),
        }
    }
}

impl DeepView for PartialSupabaseSettings {
    type V = PartialSupabaseSettingsView;

    open spec fn deep_view(&self) -> PartialSupabaseSettingsView {
        self.view()
    }
}

impl View for PartialSettings {
    type V = PartialSettingsView;

    open spec fn view(&self) -> PartialSettingsView {
        PartialSettingsView {
            core: self.core.deep_view(),
            translation: self.translation.deep_view(),
            display: self.display,
            translation_window: self.translation_window,
            history_window: self.history_window,
            settings_window: self.settings_window,
            scaling: self.scaling,
            hotkeys: self.hotkeys.deep_view(),
            supabase: self.supabase.deep_view(),
        }
    }
}

impl DeepView for PartialSettings {
    type V = PartialSettingsView;

    open spec fn deep_view(&self) -> PartialSettingsView {
        self.view()
    }
}

/// The partial core section with every leaf absent.
pub open spec fn empty_partial_core() -> PartialCoreSettingsView {
    PartialCoreSettingsView {
        copy_delay_milliseconds: None,
        request_timeout_milliseconds: None,
        log_requests: None,
        play_volume: None,
        search_pattern: None,
        last_records_to_scan_for_merge: None,
        levenshtein_distance_for_merge: None,
        proxy: None,
    }
}

/// The partial translation section with every leaf absent.
pub open spec fn empty_partial_translation() -> PartialTranslationSettingsView {
    PartialTranslationSettingsView { source_language: None, target_language: None, tags: None }
}

/// The partial display section with every leaf absent.
pub open spec fn empty_partial_display() -> PartialDisplaySettings {
    PartialDisplaySettings {
        visible_by_default_translations_in_category: None,
        history_page_size: None,
        history_columns: None,
    }
}

/// The partial translation-window section with every leaf absent.
pub open spec fn empty_partial_translation_window() -> PartialTranslationWindowSettings {
    PartialTranslationWindowSettings {
        width: None,
        height: None,
        min_width: None,
        min_height: None,
        x: None,
        y: None,
        margin: None,
    }
}

/// The partial window section with every leaf absent.
pub open spec fn empty_partial_window() -> PartialWindowSettings {
    PartialWindowSettings {
        width_percentage: None,
        height_percentage: None,
        min_width: None,
        min_height: None,
    }
}

/// The partial scaling section with every leaf absent.
pub open spec fn empty_partial_scaling() -> PartialScalingSettings {
    PartialScalingSettings {
        scale_factor_bits: None,
        scale_translation_view_only: None,
        scaling_step_bits: None,
        min_scaling_bits: None,
        max_scaling_bits: None,
        vertical_resolution_baseline: None,
    }
}

/// The partial hotkey section with every leaf absent.
pub open spec fn empty_partial_hotkeys() -> PartialHotkeySettingsView {
    PartialHotkeySettingsView {
        translate: None,
        play_text: None,
        show_definition: None,
        input_text: None,
        toggle_suspend: None,
        zoom_in: None,
        zoom_out: None,
        reset_zoom: None,
        toggle_definition: None,
        archive_result: None,
        add_tag: None,
        toggle_tags: None,
    }
}

/// The partial supabase section with every leaf absent.
pub open spec fn empty_partial_supabase() -> PartialSupabaseSettingsView {
    PartialSupabaseSettingsView { project_url: None, anon_key: None }
}

/// The override tree that customizes nothing: every section is absent.
pub open spec fn empty_partial() -> PartialSettingsView {
    PartialSettingsView {
        core: None,
        translation: None,
        display: None,
        translation_window: None,
        history_window: None,
        settings_window: None,
        scaling: None,
        hotkeys: None,
        supabase: None,
    }
}

} // verus!
