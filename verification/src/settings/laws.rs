//! General laws of the merge engine, stated and proved over the views.
//!
//! These are the algebraic facts the store relies on: composing no overrides
//! changes nothing, a complete override shadows every default, reconciling is
//! idempotent and associative, and every leaf of an accepted update is
//! visible in the composition that a reader sees afterwards.

use vstd::prelude::*;

use crate::settings::views::empty_partial;
use crate::settings::views::CoreSettingsView;
use crate::settings::views::HotkeySettingsView;
use crate::settings::views::PartialCoreSettingsView;
use crate::settings::views::PartialHotkeySettingsView;
use crate::settings::views::PartialSettingsView;
use crate::settings::views::PartialSupabaseSettingsView;
use crate::settings::views::PartialTranslationSettingsView;
use crate::settings::views::SettingsView;
use crate::settings::views::SupabaseSettingsView;
use crate::settings::views::TranslationSettingsView;
use crate::settings::spec_compose;
use crate::settings::spec_reconcile;
use crate::settings::DisplaySettings;
use crate::settings::PartialDisplaySettings;
use crate::settings::PartialScalingSettings;
use crate::settings::PartialTranslationWindowSettings;
use crate::settings::PartialWindowSettings;
use crate::settings::ScalingSettings;
use crate::settings::TranslationWindowSettings;
use crate::settings::WindowSettings;

verus! {

/// Every leaf of the core section is present.
pub open spec fn full_partial_core(u: PartialCoreSettingsView) -> bool {
    &&& u.copy_delay_milliseconds is Some
    &&& u.request_timeout_milliseconds is Some
    &&& u.log_requests is Some
    &&& u.play_volume is Some
    &&& u.search_pattern is Some
    &&& u.last_records_to_scan_for_merge is Some
    &&& u.levenshtein_distance_for_merge is Some
    &&& u.proxy is Some
}

pub open spec fn value_of_core(u: PartialCoreSettingsView) -> CoreSettingsView
    recommends
        full_partial_core(u),
{
    CoreSettingsView {
        copy_delay_milliseconds: u.copy_delay_milliseconds.unwrap(),
        request_timeout_milliseconds: u.request_timeout_milliseconds.unwrap(),
        log_requests: u.log_requests.unwrap(),
        play_volume: u.play_volume.unwrap(),
        search_pattern: u.search_pattern.unwrap(),
        last_records_to_scan_for_merge: u.last_records_to_scan_for_merge.unwrap(),
        levenshtein_distance_for_merge: u.levenshtein_distance_for_merge.unwrap(),
        proxy: u.proxy.unwrap(),
    }
}

/// Every leaf of the translation section is present.
pub open spec fn full_partial_translation(u: PartialTranslationSettingsView) -> bool {
    &&& u.source_language is Some
    &&& u.target_language is Some
    &&& u.tags is Some
}

pub open spec fn value_of_translation(u: PartialTranslationSettingsView) -> TranslationSettingsView
    recommends
        full_partial_translation(u),
{
    TranslationSettingsView {
        source_language: u.source_language.unwrap(),
        target_language: u.target_language.unwrap(),
        tags: u.tags.unwrap(),
    }
}

/// Every leaf of the display section is present.
pub open spec fn full_partial_display(u: PartialDisplaySettings) -> bool {
    &&& u.visible_by_default_translations_in_category is Some
    &&& u.history_page_size is Some
    &&& u.history_columns is Some
}

pub open spec fn value_of_display(u: PartialDisplaySettings) -> DisplaySettings
    recommends
        full_partial_display(u),
{
    DisplaySettings {
        visible_by_default_translations_in_category: u.visible_by_default_translations_in_category.unwrap(),
        history_page_size: u.history_page_size.unwrap(),
        history_columns: u.history_columns.unwrap(),
    }
}

/// Every leaf of the translation-window section is present.
pub open spec fn full_partial_translation_window(u: PartialTranslationWindowSettings) -> bool {
    &&& u.width is Some
    &&& u.height is Some
    &&& u.min_width is Some
    &&& u.min_height is Some
    &&& u.x is Some
    &&& u.y is Some
    &&& u.margin is Some
}

pub open spec fn value_of_translation_window(
    u: PartialTranslationWindowSettings,
) -> TranslationWindowSettings
    recommends
        full_partial_translation_window(u),
{
    TranslationWindowSettings {
        width: u.width.unwrap(),
        height: u.height.unwrap(),
        min_width: u.min_width.unwrap(),
        min_height: u.min_height.unwrap(),
        x: u.x.unwrap(),
        y: u.y.unwrap(),
        margin: u.margin.unwrap(),
    }
}

/// Every leaf of a window section is present.
pub open spec fn full_partial_window(u: PartialWindowSettings) -> bool {
    &&& u.width_percentage is Some
    &&& u.height_percentage is Some
    &&& u.min_width is Some
    &&& u.min_height is Some
}

pub open spec fn value_of_window(u: PartialWindowSettings) -> WindowSettings
    recommends
        full_partial_window(u),
{
    WindowSettings {
        width_percentage: u.width_percentage.unwrap(),
        height_percentage: u.height_percentage.unwrap(),
        min_width: u.min_width.unwrap(),
        min_height: u.min_height.unwrap(),
    }
}

/// Every leaf of the scaling section is present.
pub open spec fn full_partial_scaling(u: PartialScalingSettings) -> bool {
    &&& u.scale_factor_bits is Some
    &&& u.scale_translation_view_only is Some
    &&& u.scaling_step_bits is Some
    &&& u.min_scaling_bits is Some
    &&& u.max_scaling_bits is Some
    &&& u.vertical_resolution_baseline is Some
}

pub open spec fn value_of_scaling(u: PartialScalingSettings) -> ScalingSettings
    recommends
        full_partial_scaling(u),
{
    ScalingSettings {
        scale_factor_bits: u.scale_factor_bits.unwrap(),
        scale_translation_view_only: u.scale_translation_view_only.unwrap(),
        scaling_step_bits: u.scaling_step_bits.unwrap(),
        min_scaling_bits: u.min_scaling_bits.unwrap(),
        max_scaling_bits: u.max_scaling_bits.unwrap(),
        vertical_resolution_baseline: u.vertical_resolution_baseline.unwrap(),
    }
}

/// Every leaf of the hotkey section is present.
pub open spec fn full_partial_hotkeys(u: PartialHotkeySettingsView) -> bool {
    &&& u.translate is Some
    &&& u.play_text is Some
    &&& u.show_definition is Some
    &&& u.input_text is Some
    &&& u.toggle_suspend is Some
    &&& u.zoom_in is Some
    &&& u.zoom_out is Some
    &&& u.reset_zoom is Some
    &&& u.toggle_definition is Some
    &&& u.archive_result is Some
    &&& u.add_tag is Some
    &&& u.toggle_tags is Some
}

pub open spec fn value_of_hotkeys(u: PartialHotkeySettingsView) -> HotkeySettingsView
    recommends
        full_partial_hotkeys(u),
{
    HotkeySettingsView {
        translate: u.translate.unwrap(),
        play_text: u.play_text.unwrap(),
        show_definition: u.show_definition.unwrap(),
        input_text: u.input_text.unwrap(),
        toggle_suspend: u.toggle_suspend.unwrap(),
        zoom_in: u.zoom_in.unwrap(),
        zoom_out: u.zoom_out.unwrap(),
        reset_zoom: u.reset_zoom.unwrap(),
        toggle_definition: u.toggle_definition.unwrap(),
        archive_result: u.archive_result.unwrap(),
        add_tag: u.add_tag.unwrap(),
        toggle_tags: u.toggle_tags.unwrap(),
    }
}

/// Every leaf of the supabase section is present.
pub open spec fn full_partial_supabase(u: PartialSupabaseSettingsView) -> bool {
    &&& u.project_url is Some
    &&& u.anon_key is Some
}

pub open spec fn value_of_supabase(u: PartialSupabaseSettingsView) -> SupabaseSettingsView
    recommends
        full_partial_supabase(u),
{
    SupabaseSettingsView { project_url: u.project_url.unwrap(), anon_key: u.anon_key.unwrap() }
}

/// Every section of the override tree is present and every leaf inside every
/// section is present.
pub open spec fn full_partial(p: PartialSettingsView) -> bool {
    &&& p.core matches Some(c) && full_partial_core(c)
    &&& p.translation matches Some(t) && full_partial_translation(t)
    &&& p.display matches Some(d) && full_partial_display(d)
    &&& p.translation_window matches Some(w) && full_partial_translation_window(w)
    &&& p.history_window matches Some(w) && full_partial_window(w)
    &&& p.settings_window matches Some(w) && full_partial_window(w)
    &&& p.scaling matches Some(s) && full_partial_scaling(s)
    &&& p.hotkeys matches Some(h) && full_partial_hotkeys(h)
    &&& p.supabase matches Some(s) && full_partial_supabase(s)
}

/// The fully resolved tree named by a complete override tree.
pub open spec fn value_of(p: PartialSettingsView) -> SettingsView
    recommends
        full_partial(p),
{
    SettingsView {
        core: value_of_core(p.core.unwrap()),
        translation: value_of_translation(p.translation.unwrap()),
        display: value_of_display(p.display.unwrap()),
        translation_window: value_of_translation_window(p.translation_window.unwrap()),
        history_window: value_of_window(p.history_window.unwrap()),
        settings_window: value_of_window(p.settings_window.unwrap()),
        scaling: value_of_scaling(p.scaling.unwrap()),
        hotkeys: value_of_hotkeys(p.hotkeys.unwrap()),
        supabase: value_of_supabase(p.supabase.unwrap()),
    }
}

/// Every present leaf of the core update equals the corresponding leaf of the
/// resolved section.
pub open spec fn core_overrides(u: PartialCoreSettingsView, r: CoreSettingsView) -> bool {
    &&& u.copy_delay_milliseconds matches Some(v) ==> r.copy_delay_milliseconds == v
    &&& u.request_timeout_milliseconds matches Some(v) ==> r.request_timeout_milliseconds == v
    &&& u.log_requests matches Some(v) ==> r.log_requests == v
    &&& u.play_volume matches Some(v) ==> r.play_volume == v
    &&& u.search_pattern matches Some(v) ==> r.search_pattern == v
    &&& u.last_records_to_scan_for_merge matches Some(v) ==> r.last_records_to_scan_for_merge
        == v
    &&& u.levenshtein_distance_for_merge matches Some(v) ==> r.levenshtein_distance_for_merge
        == v
    &&& u.proxy matches Some(v) ==> r.proxy == v
}

/// Every present leaf of the translation update equals the corresponding leaf
/// of the resolved section.
pub open spec fn translation_overrides(
    u: PartialTranslationSettingsView,
    r: TranslationSettingsView,
) -> bool {
    &&& u.source_language matches Some(v) ==> r.source_language == v
    &&& u.target_language matches Some(v) ==> r.target_language == v
    &&& u.tags matches Some(v) ==> r.tags == v
}

/// Every present leaf of the display update equals the corresponding leaf of
/// the resolved section.
pub open spec fn display_overrides(u: PartialDisplaySettings, r: DisplaySettings) -> bool {
    &&& u.visible_by_default_translations_in_category matches Some(v)
        ==> r.visible_by_default_translations_in_category == v
    &&& u.history_page_size matches Some(v) ==> r.history_page_size == v
    &&& u.history_columns matches Some(v) ==> r.history_columns == v
}

/// Every present leaf of the translation-window update equals the
/// corresponding leaf of the resolved section.
pub open spec fn translation_window_overrides(
    u: PartialTranslationWindowSettings,
    r: TranslationWindowSettings,
) -> bool {
    &&& u.width matches Some(v) ==> r.width == v
    &&& u.height matches Some(v) ==> r.height == v
    &&& u.min_width matches Some(v) ==> r.min_width == v
    &&& u.min_height matches Some(v) ==> r.min_height == v
    &&& u.x matches Some(v) ==> r.x == v
    &&& u.y matches Some(v) ==> r.y == v
    &&& u.margin matches Some(v) ==> r.margin == v
}

/// Every present leaf of a window update equals the corresponding leaf of the
/// resolved section.
pub open spec fn window_overrides(u: PartialWindowSettings, r: WindowSettings) -> bool {
    &&& u.width_percentage matches Some(v) ==> r.width_percentage == v
    &&& u.height_percentage matches Some(v) ==> r.height_percentage == v
    &&& u.min_width matches Some(v) ==> r.min_width == v
    &&& u.min_height matches Some(v) ==> r.min_height == v
}

/// Every present leaf of the scaling update equals the corresponding leaf of
/// the resolved section.
pub open spec fn scaling_overrides(u: PartialScalingSettings, r: ScalingSettings) -> bool {
    &&& u.scale_factor_bits matches Some(v) ==> r.scale_factor_bits == v
    &&& u.scale_translation_view_only matches Some(v) ==> r.scale_translation_view_only == v
    &&& u.scaling_step_bits matches Some(v) ==> r.scaling_step_bits == v
    &&& u.min_scaling_bits matches Some(v) ==> r.min_scaling_bits == v
    &&& u.max_scaling_bits matches Some(v) ==> r.max_scaling_bits == v
    &&& u.vertical_resolution_baseline matches Some(v) ==> r.vertical_resolution_baseline == v
}

/// Every present leaf of the hotkey update equals the corresponding leaf of
/// the resolved section.
pub open spec fn hotkeys_overrides(u: PartialHotkeySettingsView, r: HotkeySettingsView) -> bool {
    &&& u.translate matches Some(v) ==> r.translate == v
    &&& u.play_text matches Some(v) ==> r.play_text == v
    &&& u.show_definition matches Some(v) ==> r.show_definition == v
    &&& u.input_text matches Some(v) ==> r.input_text == v
    &&& u.toggle_suspend matches Some(v) ==> r.toggle_suspend == v
    &&& u.zoom_in matches Some(v) ==> r.zoom_in == v
    &&& u.zoom_out matches Some(v) ==> r.zoom_out == v
    &&& u.reset_zoom matches Some(v) ==> r.reset_zoom == v
    &&& u.toggle_definition matches Some(v) ==> r.toggle_definition == v
    &&& u.archive_result matches Some(v) ==> r.archive_result == v
    &&& u.add_tag matches Some(v) ==> r.add_tag == v
    &&& u.toggle_tags matches Some(v) ==> r.toggle_tags == v
}

/// Every present leaf of the supabase update equals the corresponding leaf of
/// the resolved section.
pub open spec fn supabase_overrides(
    u: PartialSupabaseSettingsView,
    r: SupabaseSettingsView,
) -> bool {
    &&& u.project_url matches Some(v) ==> r.project_url == v
    &&& u.anon_key matches Some(v) ==> r.anon_key == v
}

/// Every leaf present anywhere in the update `u` holds the stated value in
/// the resolved tree `s`.
pub open spec fn partial_overrides(u: PartialSettingsView, s: SettingsView) -> bool {
    &&& u.core matches Some(c) ==> core_overrides(c, s.core)
    &&& u.translation matches Some(t) ==> translation_overrides(t, s.translation)
    &&& u.display matches Some(d) ==> display_overrides(d, s.display)
    &&& u.translation_window matches Some(w) ==> translation_window_overrides(
        w,
        s.translation_window,
    )
    &&& u.history_window matches Some(w) ==> window_overrides(w, s.history_window)
    &&& u.settings_window matches Some(w) ==> window_overrides(w, s.settings_window)
    &&& u.scaling matches Some(c) ==> scaling_overrides(c, s.scaling)
    &&& u.hotkeys matches Some(h) ==> hotkeys_overrides(h, s.hotkeys)
    &&& u.supabase matches Some(c) ==> supabase_overrides(c, s.supabase)
}

/// Composing the empty override tree over any fully resolved tree is the
/// identity: with no customizations, a reader sees exactly the defaults.
pub proof fn lemma_compose_empty(default: SettingsView)
    ensures
        spec_compose(empty_partial(), default) == default,
{
    assert(spec_compose(empty_partial(), default) =~~= default);
}

/// A complete override tree fully shadows the defaults: composing it over any
/// fully resolved tree yields exactly the values the override names.
pub proof fn lemma_compose_full(p: PartialSettingsView, default: SettingsView)
    requires
        full_partial(p),
    ensures
        spec_compose(p, default) == value_of(p),
{
    assert(spec_compose(p, default) =~~= value_of(p));
}

/// Composing any override tree over any defaults yields a tree in which every
/// present leaf of the override holds the override's value.
pub proof fn lemma_compose_overrides(p: PartialSettingsView, default: SettingsView)
    ensures
        partial_overrides(p, spec_compose(p, default)),
{
}

/// Reconciling the same update twice changes nothing beyond reconciling it
/// once.
pub proof fn lemma_reconcile_idempotent(current: PartialSettingsView, updated: PartialSettingsView)
    ensures
        spec_reconcile(spec_reconcile(current, updated), updated) == spec_reconcile(
            current,
            updated,
        ),
{
    assert(spec_reconcile(spec_reconcile(current, updated), updated) =~~= spec_reconcile(
        current,
        updated,
    ));
}

/// Reconciling updates one after the other equals reconciling their own
/// reconciliation: a sequence of updates collapses leaf-wise, and on every
/// leaf the last present value wins.
#[verifier::rlimit(60)]
pub proof fn lemma_reconcile_assoc(
    first: PartialSettingsView,
    second: PartialSettingsView,
    third: PartialSettingsView,
)
    ensures
        spec_reconcile(spec_reconcile(first, second), third) == spec_reconcile(
            first,
            spec_reconcile(second, third),
        ),
{
    assert(spec_reconcile(spec_reconcile(first, second), third) =~~= spec_reconcile(
        first,
        spec_reconcile(second, third),
    ));
}

/// Every leaf of an accepted update is reflected immediately: after the
/// update is reconciled into the cached override tree, the composition a
/// reader sees holds the update's value on every leaf the update names.
pub proof fn lemma_update_then_read(
    current: PartialSettingsView,
    updated: PartialSettingsView,
    default: SettingsView,
)
    ensures
        partial_overrides(updated, spec_compose(spec_reconcile(current, updated), default)),
{
}

/// Whether two updates touch no section in common.
pub open spec fn sections_disjoint(a: PartialSettingsView, b: PartialSettingsView) -> bool {
    &&& !(a.core is Some && b.core is Some)
    &&& !(a.translation is Some && b.translation is Some)
    &&& !(a.display is Some && b.display is Some)
    &&& !(a.translation_window is Some && b.translation_window is Some)
    &&& !(a.history_window is Some && b.history_window is Some)
    &&& !(a.settings_window is Some && b.settings_window is Some)
    &&& !(a.scaling is Some && b.scaling is Some)
    &&& !(a.hotkeys is Some && b.hotkeys is Some)
    &&& !(a.supabase is Some && b.supabase is Some)
}

/// Updates that touch disjoint sections commute: whichever order they are
/// reconciled in, the final override tree carries both sets of changes.
#[verifier::rlimit(60)]
pub proof fn lemma_reconcile_disjoint_commutes(
    current: PartialSettingsView,
    first: PartialSettingsView,
    second: PartialSettingsView,
)
    requires
        sections_disjoint(first, second),
    ensures
        spec_reconcile(spec_reconcile(current, first), second) == spec_reconcile(
            spec_reconcile(current, second),
            first,
        ),
{
    assert(spec_reconcile(spec_reconcile(current, first), second) =~~= spec_reconcile(
        spec_reconcile(current, second),
        first,
    ));
}

} // verus!
