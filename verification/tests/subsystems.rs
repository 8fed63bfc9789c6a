use selected_text_translate::accent_color_provider::accent_color_hex;
use selected_text_translate::accent_color_provider::AccentColorProvider;
use selected_text_translate::events_manager::EventsManager;
use selected_text_translate::events_manager::TranslationCommands;
use selected_text_translate::notifications::notification_permission_decision;
use selected_text_translate::notifications::requested_permission_decision;
use selected_text_translate::notifications::PermissionDecision;
use selected_text_translate::notifications::PermissionState;
use selected_text_translate::requests_executor::plan_google_translate_request;
use selected_text_translate::settings::CoreSettings;
use selected_text_translate::settings::DisplaySettings;
use selected_text_translate::settings::HistoryColumn;
use selected_text_translate::settings::HistoryColumns;
use selected_text_translate::settings::HotkeySettings;
use selected_text_translate::settings::ScalingSettings;
use selected_text_translate::settings::Settings;
use selected_text_translate::settings::SupabaseSettings;
use selected_text_translate::settings::Tag;
use selected_text_translate::settings::TranslationSettings;
use selected_text_translate::settings::TranslationWindowSettings;
use selected_text_translate::settings::WindowSettings;
use selected_text_translate::shortcuts_manager::are_global_hotkeys_changed;
use selected_text_translate::text_extractor::TextExtractor;
use selected_text_translate::shortcuts_manager::build_shortcut;
use selected_text_translate::shortcuts_manager::register_shortcuts_plan;
use selected_text_translate::shortcuts_manager::ShortcutCommand;
use selected_text_translate::shortcuts_manager::ShortcutError;
use selected_text_translate::shortcuts_manager::ShortcutsManager;
use selected_text_translate::tray_icon::build_menu_model;
use selected_text_translate::tray_icon::menu_action;
use selected_text_translate::tray_icon::tags_update;
use selected_text_translate::tray_icon::toggle_tag;
use selected_text_translate::tray_icon::tray_icon_path;
use selected_text_translate::tray_icon::TrayMenuAction;
use selected_text_translate::window_manager::get_translation_window_position;
use selected_text_translate::window_manager::get_window_url;
use selected_text_translate::window_manager::is_saved_window_position_valid;
use selected_text_translate::window_manager::translate_window_event_action;
use selected_text_translate::window_manager::MonitorArea;
use selected_text_translate::window_manager::TranslationWindowAction;
use selected_text_translate::window_manager::TranslationWindowEvent;
use selected_text_translate::window_manager::WorkArea;

fn hotkeys() -> HotkeySettings {
    HotkeySettings {
        translate: vec![vec![String::from("Control"), String::from("T")]],
        play_text: vec![vec![String::from("Control"), String::from("R")]],
        show_definition: vec![vec![String::from("Control"), String::from("D")]],
        input_text: vec![vec![String::from("Control"), String::from("I")]],
        toggle_suspend: vec![vec![String::from("Control"), String::from("P")]],
        zoom_in: vec![vec![String::from("Control"), String::from("=")]],
        zoom_out: vec![vec![String::from("Control"), String::from("-")]],
        reset_zoom: vec![vec![String::from("Control"), String::from("0")]],
        toggle_definition: vec![vec![String::from("Control"), String::from("F")]],
        archive_result: vec![vec![String::from("Control"), String::from("A")]],
        add_tag: vec![vec![String::from("Control"), String::from("G")]],
        toggle_tags: vec![vec![String::from("Control"), String::from("H")]],
    }
}

fn subsystem_defaults() -> Settings {
    let col = HistoryColumn { visible: true, weight_bits: 0x3f800000, index: 0 };
    Settings {
        core: CoreSettings {
            copy_delay_milliseconds: 300,
            request_timeout_milliseconds: 10000,
            log_requests: false,
            play_volume: 100,
            search_pattern: String::from("{}"),
            last_records_to_scan_for_merge: 10000,
            levenshtein_distance_for_merge: 2,
            proxy: None,
        },
        translation: TranslationSettings {
            source_language: String::from("en"),
            target_language: String::from("de"),
            tags: vec![],
        },
        display: DisplaySettings {
            visible_by_default_translations_in_category: 3,
            history_page_size: 25,
            history_columns: HistoryColumns {
                input: col,
                translation: col,
                tags: col,
                times_translated: col,
                last_translated_date: col,
                source_language: col,
                target_language: col,
                archived: col,
            },
        },
        translation_window: TranslationWindowSettings {
            width: 600,
            height: 400,
            min_width: 400,
            min_height: 250,
            x: None,
            y: None,
            margin: 5,
        },
        history_window: WindowSettings {
            width_percentage: 80,
            height_percentage: 70,
            min_width: 800,
            min_height: 400,
        },
        settings_window: WindowSettings {
            width_percentage: 70,
            height_percentage: 60,
            min_width: 750,
            min_height: 550,
        },
        scaling: ScalingSettings {
            scale_factor_bits: 0x3f800000,
            scale_translation_view_only: false,
            scaling_step_bits: 0x3dcccccd,
            min_scaling_bits: 0x3f000000,
            max_scaling_bits: 0x40000000,
            vertical_resolution_baseline: 1080,
        },
        hotkeys: hotkeys(),
        supabase: SupabaseSettings {
            project_url: String::from("https://example.supabase.co"),
            anon_key: String::from("default-anon-key"),
        },
    }
}

#[test]
fn events_manager_starts_without_a_command() {
    let manager = EventsManager::new();
    assert!(manager.last_translation_command.is_none());
}

#[test]
fn events_manager_remembers_the_last_command() {
    let mut manager = EventsManager::new();
    manager.set_last_translation_command(TranslationCommands::Translate(true));
    manager.set_last_translation_command(TranslationCommands::Play);
    assert_eq!(manager.last_translation_command, Some(TranslationCommands::Play));
}

#[test]
fn granted_permission_shows_immediately() {
    assert_eq!(
        notification_permission_decision(PermissionState::Granted),
        PermissionDecision::Show
    );
}

#[test]
fn denied_permission_skips_without_a_request() {
    assert_eq!(notification_permission_decision(PermissionState::Denied), PermissionDecision::Skip);
}

#[test]
fn undecided_permission_requests_once_and_needs_a_grant() {
    assert_eq!(
        notification_permission_decision(PermissionState::Prompt),
        PermissionDecision::Request
    );
    assert!(requested_permission_decision(PermissionState::Granted));
    assert!(!requested_permission_decision(PermissionState::Denied));
    assert!(!requested_permission_decision(PermissionState::Prompt));
}

#[test]
fn suspend_state_changes_once_and_reports_noops() {
    let mut manager = ShortcutsManager::new();
    assert!(!manager.is_suspended());
    assert!(manager.suspend());
    assert!(manager.is_suspended());
    assert!(!manager.suspend());
    assert!(manager.enable());
    assert!(!manager.enable());
    assert!(manager.toggle_suspend());
    assert!(manager.is_suspended());
    assert!(!manager.toggle_suspend());
    assert!(!manager.is_suspended());
}

#[test]
fn registration_plan_while_suspended_keeps_only_toggle_suspend() {
    let plan = register_shortcuts_plan(&hotkeys(), true);
    assert_eq!(plan.len(), 1);
    assert_eq!(plan[0].command, ShortcutCommand::ToggleSuspend);
    assert_eq!(plan[0].title, String::from("Toggle Suspend"));
    assert_eq!(plan[0].hotkeys, hotkeys().toggle_suspend);
}

#[test]
fn registration_plan_binds_all_five_commands_in_order() {
    let plan = register_shortcuts_plan(&hotkeys(), false);
    assert_eq!(plan.len(), 5);
    assert_eq!(plan[0].command, ShortcutCommand::ToggleSuspend);
    assert_eq!(plan[1].command, ShortcutCommand::Translate);
    assert_eq!(plan[1].title, String::from("Translate Text"));
    assert_eq!(plan[1].hotkeys, hotkeys().translate);
    assert_eq!(plan[2].command, ShortcutCommand::ShowDefinition);
    assert_eq!(plan[3].command, ShortcutCommand::PlayText);
    assert_eq!(plan[4].command, ShortcutCommand::InputText);
    assert_eq!(plan[4].title, String::from("Show Input"));
}

#[test]
fn build_shortcut_splits_modifiers_from_key_codes() {
    let keys = vec![String::from("Control"), String::from("Shift"), String::from("KeyT")];
    let parsed = build_shortcut(&keys).expect("a key code is present");
    assert!(parsed.control);
    assert!(parsed.shift);
    assert!(!parsed.alt);
    assert_eq!(parsed.keys, vec![String::from("KeyT")]);
}

#[test]
fn build_shortcut_keeps_every_key_code_in_order() {
    let keys = vec![String::from("KeyA"), String::from("Alt"), String::from("KeyB")];
    let parsed = build_shortcut(&keys).expect("key codes are present");
    assert!(parsed.alt);
    assert!(!parsed.control);
    assert_eq!(parsed.keys, vec![String::from("KeyA"), String::from("KeyB")]);
}

#[test]
fn build_shortcut_without_a_key_code_fails() {
    let keys = vec![String::from("Control"), String::from("Alt")];
    assert!(matches!(build_shortcut(&keys), Err(ShortcutError::NoKeyCode)));
    let empty: Vec<String> = vec![];
    assert!(matches!(build_shortcut(&empty), Err(ShortcutError::NoKeyCode)));
}

#[test]
fn hotkey_change_detection_sees_global_bindings_only() {
    let unchanged = hotkeys();
    assert!(!are_global_hotkeys_changed(&hotkeys(), &unchanged));

    let mut translate_changed = hotkeys();
    translate_changed.translate = vec![vec![String::from("Alt"), String::from("T")]];
    assert!(are_global_hotkeys_changed(&hotkeys(), &translate_changed));

    // The zoom bindings are handled inside the views, not registered
    // globally: changing them must not trigger a re-registration.
    let mut zoom_changed = hotkeys();
    zoom_changed.zoom_in = vec![vec![String::from("Alt"), String::from("=")]];
    assert!(!are_global_hotkeys_changed(&hotkeys(), &zoom_changed));
}

#[test]
fn toggle_tag_flips_only_the_named_tag() {
    let tags = vec![
        Tag { tag: String::from("work"), enabled: false },
        Tag { tag: String::from("travel"), enabled: true },
        Tag { tag: String::from("work"), enabled: true },
    ];
    let toggled = toggle_tag(&tags, &String::from("work"));
    assert_eq!(toggled.len(), 3);
    assert_eq!(toggled[0], Tag { tag: String::from("work"), enabled: true });
    assert_eq!(toggled[1], Tag { tag: String::from("travel"), enabled: true });
    assert_eq!(toggled[2], Tag { tag: String::from("work"), enabled: false });
}

#[test]
fn tags_update_touches_only_the_tag_list() {
    let update = tags_update(vec![Tag { tag: String::from("work"), enabled: true }]);
    let translation = update.translation.expect("translation section present");
    assert_eq!(translation.source_language, None);
    assert_eq!(translation.target_language, None);
    assert_eq!(translation.tags.expect("tag list present").len(), 1);
    assert!(update.core.is_none());
    assert!(update.hotkeys.is_none());
}

#[test]
fn menu_model_offers_the_opposite_suspend_state() {
    let model = build_menu_model(false, &vec![]);
    assert!(!model.suspended);
    assert_eq!(model.toggle_suspend_title, String::from("Suspend"));
    assert!(!model.tags_enabled);
    assert_eq!(model.tags.len(), 0);

    let suspended_model = build_menu_model(true, &vec![]);
    assert_eq!(suspended_model.toggle_suspend_title, String::from("Enable"));
}

#[test]
fn menu_model_lists_every_tag_with_its_prefix_id() {
    let tags = vec![
        Tag { tag: String::from("work"), enabled: true },
        Tag { tag: String::from("travel"), enabled: false },
    ];
    let model = build_menu_model(false, &tags);
    assert!(model.tags_enabled);
    assert_eq!(model.tags.len(), 2);
    assert_eq!(model.tags[0].id, String::from("tags:work"));
    assert_eq!(model.tags[0].title, String::from("work"));
    assert!(model.tags[0].checked);
    assert_eq!(model.tags[1].id, String::from("tags:travel"));
    assert!(!model.tags[1].checked);
}

#[test]
fn menu_actions_map_fixed_identifiers() {
    assert_eq!(
        menu_action(&String::from("translate")),
        TrayMenuAction::TranslateFromClipboard
    );
    assert_eq!(menu_action(&String::from("history")), TrayMenuAction::ShowHistory);
    assert_eq!(menu_action(&String::from("settings")), TrayMenuAction::ShowSettings);
    assert_eq!(menu_action(&String::from("toggle_suspend")), TrayMenuAction::ToggleSuspend);
    assert_eq!(menu_action(&String::from("about")), TrayMenuAction::ShowAbout);
    assert_eq!(menu_action(&String::from("logs")), TrayMenuAction::OpenLogsFolder);
    assert_eq!(menu_action(&String::from("exit")), TrayMenuAction::Exit);
}

#[test]
fn menu_actions_strip_the_tag_prefix() {
    assert_eq!(
        menu_action(&String::from("tags:travel")),
        TrayMenuAction::ToggleTag(String::from("travel"))
    );
    assert_eq!(menu_action(&String::from("tags:")), TrayMenuAction::ToggleTag(String::new()));
    assert_eq!(menu_action(&String::from("tags")), TrayMenuAction::Ignore);
    assert_eq!(menu_action(&String::from("unknown")), TrayMenuAction::Ignore);
}

#[test]
fn saved_position_counts_only_when_it_fits_a_monitor() {
    let monitors = vec![
        MonitorArea { x: 0, y: 0, width: 1920, height: 1080 },
        MonitorArea { x: 1920, y: 0, width: 1280, height: 1024 },
    ];
    let mut settings = subsystem_defaults().translation_window;
    assert!(!is_saved_window_position_valid(&monitors, &settings));

    settings.x = Some(100);
    settings.y = Some(100);
    assert!(is_saved_window_position_valid(&monitors, &settings));

    // On the second monitor.
    settings.x = Some(2000);
    settings.y = Some(50);
    assert!(is_saved_window_position_valid(&monitors, &settings));

    // Off every monitor.
    settings.x = Some(5000);
    settings.y = Some(50);
    assert!(!is_saved_window_position_valid(&monitors, &settings));

    // Too large to fit from that position.
    settings.x = Some(1800);
    settings.y = Some(100);
    assert!(!is_saved_window_position_valid(&monitors, &settings));
}

#[test]
fn window_position_uses_saved_coordinates_when_valid() {
    let monitors = vec![MonitorArea { x: 0, y: 0, width: 1920, height: 1080 }];
    let work_area = WorkArea { left: 0, top: 0, right: 1920, bottom: 1040 };
    let mut settings = subsystem_defaults().translation_window;
    settings.x = Some(150);
    settings.y = Some(250);
    assert_eq!(get_translation_window_position(work_area, &monitors, &settings), (150, 250));
}

#[test]
fn window_position_falls_back_to_the_work_area_corner() {
    let monitors = vec![MonitorArea { x: 0, y: 0, width: 1920, height: 1080 }];
    let work_area = WorkArea { left: 0, top: 0, right: 1920, bottom: 1040 };
    let settings = subsystem_defaults().translation_window;
    // 1920 - 600 - 5 and 1040 - 400 - 5.
    assert_eq!(get_translation_window_position(work_area, &monitors, &settings), (1315, 635));
}

#[test]
fn losing_focus_hides_only_when_really_unfocused() {
    let lost = TranslationWindowEvent::Focused { focused: false };
    assert_eq!(
        translate_window_event_action(&lost, false),
        TranslationWindowAction::HideAndReset
    );
    assert_eq!(translate_window_event_action(&lost, true), TranslationWindowAction::Ignore);
    let gained = TranslationWindowEvent::Focused { focused: true };
    assert_eq!(translate_window_event_action(&gained, true), TranslationWindowAction::Ignore);
    assert_eq!(
        translate_window_event_action(&TranslationWindowEvent::Other, false),
        TranslationWindowAction::Ignore
    );
}

#[test]
fn resize_and_move_events_store_their_geometry() {
    let resized = TranslationWindowEvent::Resized { width: 640, height: 480 };
    match translate_window_event_action(&resized, true) {
        TranslationWindowAction::UpdateSettings(update) => {
            let window = update.translation_window.expect("window section present");
            assert_eq!(window.width, Some(640));
            assert_eq!(window.height, Some(480));
            assert_eq!(window.x, None);
            assert!(update.core.is_none());
        }
        other => panic!("expected a settings update, got {:?}", other),
    }

    let moved = TranslationWindowEvent::Moved { x: -12, y: 30 };
    match translate_window_event_action(&moved, true) {
        TranslationWindowAction::UpdateSettings(update) => {
            let window = update.translation_window.expect("window section present");
            assert_eq!(window.x, Some(Some(-12)));
            assert_eq!(window.y, Some(Some(30)));
            assert_eq!(window.width, None);
        }
        other => panic!("expected a settings update, got {:?}", other),
    }
}

#[test]
fn accent_color_renders_rgb_channels_as_lowercase_hex() {
    assert_eq!(accent_color_hex(0xFFAABBCC), String::from("#aabbcc"));
    assert_eq!(accent_color_hex(0x00000000), String::from("#000000"));
    assert_eq!(accent_color_hex(0x01020304), String::from("#020304"));
    assert_eq!(accent_color_hex(0xFF123ABC), String::from("#123abc"));
}

#[test]
fn accent_color_provider_reports_changes_between_polls() {
    let mut provider = AccentColorProvider::new(String::from("#000000"));
    assert_eq!(provider.accent_color(), String::from("#000000"));
    assert!(provider.observe_accent_color(String::from("#aabbcc")));
    assert_eq!(provider.accent_color(), String::from("#aabbcc"));
    assert!(!provider.observe_accent_color(String::from("#aabbcc")));
}

#[test]
fn translate_request_plan_carries_the_configured_proxy() {
    let mut settings = subsystem_defaults();
    let plan = plan_google_translate_request(
        &settings,
        String::from("https://translate.example/api"),
        String::from("q=hello"),
        String::from("agent"),
    );
    assert_eq!(plan.url, String::from("https://translate.example/api"));
    assert_eq!(plan.body, String::from("q=hello"));
    assert_eq!(plan.user_agent, String::from("agent"));
    assert_eq!(plan.origin, String::from("https://translate.google.com"));
    assert_eq!(
        plan.content_type,
        String::from("application/x-www-form-urlencoded;charset=UTF-8")
    );
    assert_eq!(plan.proxy, None);

    settings.core.proxy = Some(String::from("http://proxy.local:8080"));
    let with_proxy = plan_google_translate_request(
        &settings,
        String::from("https://translate.example/api"),
        String::from("q=hello"),
        String::from("agent"),
    );
    assert_eq!(with_proxy.proxy, Some(String::from("http://proxy.local:8080")));
}

#[test]
fn text_extractor_caches_clipboard_content() {
    let mut extractor = TextExtractor::new();
    assert_eq!(extractor.text_from_clipboard(), String::new());
    extractor.extract_text_from_clipboard(Some(String::from("bonjour")));
    assert_eq!(extractor.text_from_clipboard(), String::from("bonjour"));
}

#[test]
fn unreadable_clipboard_counts_as_empty_text() {
    let mut extractor = TextExtractor::new();
    extractor.extract_text_from_clipboard(Some(String::from("old")));
    extractor.extract_text_from_clipboard(None);
    assert_eq!(extractor.text_from_clipboard(), String::new());
}

#[test]
fn tray_icon_follows_the_suspend_state() {
    assert_eq!(tray_icon_path(false), String::from("./icons/tray.ico"));
    assert_eq!(tray_icon_path(true), String::from("./icons/tray-suspended.ico"));
}

#[test]
fn window_urls_name_the_view_and_the_hidden_flag() {
    assert_eq!(
        get_window_url("translation", true),
        String::from("index.html?initially_hidden=true#translation")
    );
    assert_eq!(
        get_window_url("about", false),
        String::from("index.html?initially_hidden=false#about")
    );
}
