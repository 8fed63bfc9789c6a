use selected_text_translate::settings::flush_queue::FlushQueue;
use selected_text_translate::settings::CoreSettings;
use selected_text_translate::settings::DisplaySettings;
use selected_text_translate::settings::HistoryColumn;
use selected_text_translate::settings::HistoryColumns;
use selected_text_translate::settings::HotkeySettings;
use selected_text_translate::settings::PartialCoreSettings;
use selected_text_translate::settings::PartialSettings;
use selected_text_translate::settings::ScalingSettings;
use selected_text_translate::settings::Settings;
use selected_text_translate::settings::SettingsManager;
use selected_text_translate::settings::SupabaseSettings;
use selected_text_translate::settings::Tag;
use selected_text_translate::settings::TranslationSettings;
use selected_text_translate::settings::TranslationWindowSettings;
use selected_text_translate::settings::WindowSettings;

fn store_column(index: u8) -> HistoryColumn {
    HistoryColumn { visible: index < 4, weight_bits: 0x3f800000, index }
}

fn store_defaults() -> Settings {
    Settings {
        core: CoreSettings {
            copy_delay_milliseconds: 300,
            request_timeout_milliseconds: 10000,
            log_requests: false,
            play_volume: 100,
            search_pattern: String::from("{}"),
            last_records_to_scan_for_merge: 10000,
            levenshtein_distance_for_merge: 2,
            proxy: None,
        },
        translation: TranslationSettings {
            source_language: String::from("en"),
            target_language: String::from("de"),
            tags: vec![Tag { tag: String::from("work"), enabled: false }],
        },
        display: DisplaySettings {
            visible_by_default_translations_in_category: 3,
            history_page_size: 25,
            history_columns: HistoryColumns {
                input: store_column(0),
                translation: store_column(1),
                tags: store_column(2),
                times_translated: store_column(3),
                last_translated_date: store_column(4),
                source_language: store_column(5),
                target_language: store_column(6),
                archived: store_column(7),
            },
        },
        translation_window: TranslationWindowSettings {
            width: 600,
            height: 400,
            min_width: 400,
            min_height: 250,
            x: None,
            y: None,
            margin: 5,
        },
        history_window: WindowSettings {
            width_percentage: 80,
            height_percentage: 70,
            min_width: 800,
            min_height: 400,
        },
        settings_window: WindowSettings {
            width_percentage: 70,
            height_percentage: 60,
            min_width: 750,
            min_height: 550,
        },
        scaling: ScalingSettings {
            scale_factor_bits: 0x3f800000,
            scale_translation_view_only: false,
            scaling_step_bits: 0x3dcccccd,
            min_scaling_bits: 0x3f000000,
            max_scaling_bits: 0x40000000,
            vertical_resolution_baseline: 1080,
        },
        hotkeys: HotkeySettings {
            translate: vec![vec![String::from("Control"), String::from("T")]],
            play_text: vec![vec![String::from("Control"), String::from("R")]],
            show_definition: vec![vec![String::from("Control"), String::from("D")]],
            input_text: vec![vec![String::from("Control"), String::from("I")]],
            toggle_suspend: vec![vec![String::from("Control"), String::from("P")]],
            zoom_in: vec![vec![String::from("Control"), String::from("=")]],
            zoom_out: vec![vec![String::from("Control"), String::from("-")]],
            reset_zoom: vec![vec![String::from("Control"), String::from("0")]],
            toggle_definition: vec![vec![String::from("Control"), String::from("F")]],
            archive_result: vec![vec![String::from("Control"), String::from("A")]],
            add_tag: vec![vec![String::from("Control"), String::from("G")]],
            toggle_tags: vec![vec![String::from("Control"), String::from("H")]],
        },
        supabase: SupabaseSettings {
            project_url: String::from("https://example.supabase.co"),
            anon_key: String::from("default-anon-key"),
        },
    }
}

fn volume_update(play_volume: u32) -> PartialSettings {
    let mut update = PartialSettings::default();
    update.core = Some(PartialCoreSettings {
        copy_delay_milliseconds: None,
        request_timeout_milliseconds: None,
        log_requests: None,
        play_volume: Some(play_volume),
        search_pattern: None,
        last_records_to_scan_for_merge: None,
        levenshtein_distance_for_merge: None,
        proxy: None,
    });
    update
}

fn search_pattern_update(pattern: &str) -> PartialSettings {
    let mut update = PartialSettings::default();
    update.core = Some(PartialCoreSettings {
        copy_delay_milliseconds: None,
        request_timeout_milliseconds: None,
        log_requests: None,
        play_volume: None,
        search_pattern: Some(String::from(pattern)),
        last_records_to_scan_for_merge: None,
        levenshtein_distance_for_merge: None,
        proxy: None,
    });
    update
}

fn loaded_store() -> SettingsManager {
    let mut manager = SettingsManager::new(store_defaults(), 16);
    // No persisted override document: the empty override tree is installed.
    manager.install_user_settings(PartialSettings::default());
    manager
}

#[test]
fn cold_store_reports_unloaded_cache() {
    let manager = SettingsManager::new(store_defaults(), 4);
    assert!(!manager.cache_is_loaded());
}

#[test]
fn installing_overrides_loads_the_cache() {
    let mut manager = SettingsManager::new(store_defaults(), 4);
    manager.install_user_settings(PartialSettings::default());
    assert!(manager.cache_is_loaded());
}

#[test]
fn read_with_empty_overrides_returns_defaults_unmodified() {
    let manager = loaded_store();
    assert_eq!(manager.read_settings(), store_defaults());
}

#[test]
fn read_composes_installed_overrides_over_defaults() {
    let mut manager = SettingsManager::new(store_defaults(), 4);
    let mut overrides = PartialSettings::default();
    overrides.core = Some(PartialCoreSettings {
        copy_delay_milliseconds: Some(42),
        request_timeout_milliseconds: None,
        log_requests: None,
        play_volume: None,
        search_pattern: None,
        last_records_to_scan_for_merge: None,
        levenshtein_distance_for_merge: None,
        proxy: None,
    });
    manager.install_user_settings(overrides);
    let settings = manager.read_settings();
    assert_eq!(settings.core.copy_delay_milliseconds, 42);
    assert_eq!(settings.core.play_volume, 100);
}

#[test]
fn update_is_visible_to_read_before_any_write_is_drained() {
    let mut manager = loaded_store();
    manager.update_settings(volume_update(50));
    // The durable write is still pending, yet the reader already sees 50.
    assert_eq!(manager.pending_write_count(), 1);
    assert_eq!(manager.read_settings().core.play_volume, 50);
}

#[test]
fn update_returns_old_and_new_settings() {
    let mut manager = loaded_store();
    let (old_settings, new_settings) = manager.update_settings(volume_update(50));
    assert_eq!(old_settings.core.play_volume, 100);
    assert_eq!(new_settings.core.play_volume, 50);
    assert_eq!(new_settings.core.copy_delay_milliseconds, 300);
}

#[test]
fn independent_fields_reconcile_across_updates() {
    let mut manager = loaded_store();
    manager.update_settings(volume_update(50));
    manager.update_settings(search_pattern_update("x"));
    let settings = manager.read_settings();
    assert_eq!(settings.core.play_volume, 50);
    assert_eq!(settings.core.search_pattern, String::from("x"));
}

#[test]
fn conflicting_leaves_take_the_last_update() {
    let mut manager = loaded_store();
    manager.update_settings(volume_update(50));
    manager.update_settings(volume_update(70));
    assert_eq!(manager.read_settings().core.play_volume, 70);
}

#[test]
fn reset_reverts_every_customized_field_to_default() {
    let mut manager = loaded_store();
    manager.update_settings(volume_update(50));
    manager.update_settings(search_pattern_update("x"));
    let (_, after_reset) = manager.reset_to_default();
    assert_eq!(after_reset, store_defaults());
    assert_eq!(manager.read_settings(), store_defaults());
}

#[test]
fn pending_writes_drain_in_submission_order() {
    let mut manager = loaded_store();
    manager.update_settings(volume_update(50));
    manager.update_settings(volume_update(70));
    manager.reset_to_default();
    assert_eq!(manager.pending_write_count(), 3);

    let first = manager.take_pending_write().expect("first snapshot");
    let second = manager.take_pending_write().expect("second snapshot");
    let third = manager.take_pending_write().expect("third snapshot");
    assert!(manager.take_pending_write().is_none());

    // Each snapshot is a complete override document; the last one wins on
    // disk, but every intermediate state is written.
    assert_eq!(first.core.as_ref().expect("core").play_volume, Some(50));
    assert_eq!(second.core.as_ref().expect("core").play_volume, Some(70));
    assert_eq!(third, PartialSettings::default());
}

#[test]
fn queue_reports_saturation_before_overflow() {
    let mut manager = SettingsManager::new(store_defaults(), 2);
    manager.install_user_settings(PartialSettings::default());
    assert!(!manager.flush_queue_is_full());
    manager.update_settings(volume_update(10));
    manager.update_settings(volume_update(20));
    assert!(manager.flush_queue_is_full());
    manager.take_pending_write();
    assert!(!manager.flush_queue_is_full());
}

#[test]
fn effective_defaults_without_dev_override_are_the_bundled_ones() {
    let effective = SettingsManager::effective_default_settings(store_defaults(), None);
    assert_eq!(effective, store_defaults());
}

#[test]
fn effective_defaults_apply_the_dev_override() {
    let effective = SettingsManager::effective_default_settings(
        store_defaults(),
        Some(volume_update(7)),
    );
    assert_eq!(effective.core.play_volume, 7);
    assert_eq!(effective.core.copy_delay_milliseconds, 300);
}

#[test]
fn flush_queue_is_first_in_first_out() {
    let mut queue = FlushQueue::new(8);
    assert!(queue.is_empty());
    assert_eq!(queue.capacity(), 8);

    queue.submit(volume_update(1));
    queue.submit(volume_update(2));
    assert_eq!(queue.len(), 2);
    assert!(!queue.is_full());

    let first = queue.take_next().expect("first");
    let second = queue.take_next().expect("second");
    assert!(queue.take_next().is_none());
    assert_eq!(first.core.expect("core").play_volume, Some(1));
    assert_eq!(second.core.expect("core").play_volume, Some(2));
}

#[test]
fn flush_queue_reports_full_at_capacity() {
    let mut queue = FlushQueue::new(1);
    queue.submit(PartialSettings::default());
    assert!(queue.is_full());
    assert_eq!(queue.len(), 1);
}

#[test]
fn change_handler_can_read_settings_from_its_own_invocation() {
    // The store mutates under a lock but hands the (old, new) pair back to
    // the caller instead of invoking handlers itself.  The caller's lock
    // guard is gone by the time a handler runs, so a handler that reads the
    // store through the same lock completes instead of deadlocking.
    let manager = std::sync::Mutex::new(loaded_store());

    let handler = |_old_settings: &Settings, new_settings: &Settings| {
        let locked = manager.lock().unwrap();
        assert_eq!(
            locked.read_settings().core.play_volume,
            new_settings.core.play_volume
        );
    };

    let (old_settings, new_settings) = manager.lock().unwrap().update_settings(volume_update(60));
    handler(&old_settings, &new_settings);
    assert_eq!(new_settings.core.play_volume, 60);
    assert_eq!(old_settings.core.play_volume, 100);
}
