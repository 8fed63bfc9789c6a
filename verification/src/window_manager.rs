//! Placement decisions for the translation window.
//!
//! The runtime queries the monitors and creates and moves the windows; the
//! decisions — whether a saved window position is still visible on some
//! monitor, where the window goes otherwise, and how a window event changes
//! the stored geometry — are kept here.

use vstd::prelude::*;

use crate::settings::views::PartialSettingsView;
use crate::settings::PartialSettings;
use crate::settings::PartialTranslationWindowSettings;
use crate::settings::TranslationWindowSettings;

verus! {

/// One monitor's position and size on the virtual desktop.
#[derive(Clone, Copy, Debug, PartialEq)]
pub struct MonitorArea {
    pub x: i32,
    pub y: i32,
    pub width: u32,
    pub height: u32,
}

/// The primary monitor's work area: the desktop rectangle left over once the
/// taskbar is excluded.
#[derive(Clone, Copy, Debug, PartialEq)]
pub struct WorkArea {
    pub left: i32,
    pub top: i32,
    pub right: i32,
    pub bottom: i32,
}

/// Whether the window geometry saved in `settings` lies strictly inside the
/// monitor `m`.
pub open spec fn window_fits_on_display(m: MonitorArea, settings: TranslationWindowSettings) -> bool {
    &&& settings.x is Some
    &&& settings.y is Some
    &&& settings.x.unwrap() > m.x
    &&& settings.x.unwrap() + settings.width < m.x + m.width
    &&& settings.y.unwrap() > m.y
    &&& settings.y.unwrap() + settings.height < m.y + m.height
}

/// Whether the saved window position is usable: both coordinates are stored
/// and the window fits on at least one of the given monitors.
pub fn is_saved_window_position_valid(
    monitors: &Vec<MonitorArea>,
    settings: &TranslationWindowSettings,
) -> (r: bool)
    ensures
        r == exists|i: int|
            0 <= i < monitors@.len() && window_fits_on_display(monitors@[i], *settings),
{
    if settings.x.is_none() || settings.y.is_none() {
        return false;
    }
    let x = *settings.x.as_ref().unwrap();
    let y = *settings.y.as_ref().unwrap();

    let mut i: usize = 0;
    while i < monitors.len()
        invariant
            i <= monitors@.len(),
            settings.x == Some(x),
            settings.y == Some(y),
            forall|j: int| 0 <= j < i as int ==> !window_fits_on_display(monitors@[j], *settings),
        decreases monitors@.len() - i,
    {
        let monitor = monitors[i];

        let is_window_fits_on_display = (x as i64) > (monitor.x as i64) && (x as i64) + (
        settings.width as i64) < (monitor.x as i64) + (monitor.width as i64) && (y as i64) > (
        monitor.y as i64) && (y as i64) + (settings.height as i64) < (monitor.y as i64) + (
        monitor.height as i64);

        if is_window_fits_on_display {
            return true;
        }
        i = i + 1;
    }

    false
}

/// Where the translation window goes: its saved position when that is still
/// visible somewhere, otherwise the work area's bottom-right corner with the
/// configured margin on both sides.
pub fn get_translation_window_position(
    work_area: WorkArea,
    monitors: &Vec<MonitorArea>,
    settings: &TranslationWindowSettings,
) -> (r: (i32, i32))
    requires
        work_area.right - settings.width - settings.margin >= i32::MIN,
        work_area.bottom - settings.height - settings.margin >= i32::MIN,
    ensures
        (exists|i: int| 0 <= i < monitors@.len() && window_fits_on_display(monitors@[i], *settings))
            ==> r == (settings.x.unwrap(), settings.y.unwrap()),
        !(exists|i: int|
            0 <= i < monitors@.len() && window_fits_on_display(monitors@[i], *settings)) ==> r == (
            (work_area.right - settings.width - settings.margin) as i32,
            (work_area.bottom - settings.height - settings.margin) as i32,
        ),
{
    if is_saved_window_position_valid(monitors, settings) {
        return (*settings.x.as_ref().unwrap(), *settings.y.as_ref().unwrap());
    }

    let x = (work_area.right as i64) - (settings.width as i64) - (settings.margin as i64);
    let y = (work_area.bottom as i64) - (settings.height as i64) - (settings.margin as i64);

    (x as i32, y as i32)
}

/// The in-app URL a view is loaded from: the shared page, a flag telling the
/// view whether it starts hidden, and the view name as the fragment.
pub fn get_window_url(view_name: &str, initially_hidden: bool) -> (r: String)
    ensures
        r@ == "index.html?initially_hidden="@ + (if initially_hidden {
            "true"@
        } else {
            "false"@
        }) + "#"@ + view_name@,
{
    let mut url = String::from_str("index.html?initially_hidden=");
    if initially_hidden {
        url.append("true");
    } else {
        url.append("false");
    }
    url.append("#");
    url.append(view_name);
    url
}

/// An observed event on the translation window, reduced to what the stored
/// geometry depends on.
#[derive(Clone, Copy, Debug, PartialEq)]
pub enum TranslationWindowEvent {
    /// The window gained or lost focus according to the event payload.
    Focused { focused: bool },
    /// The window was resized to the given size.
    Resized { width: u32, height: u32 },
    /// The window was moved to the given position.
    Moved { x: i32, y: i32 },
    /// Any other window event.
    Other,
}

/// The reaction to a translation-window event.
#[derive(Debug, PartialEq)]
pub enum TranslationWindowAction {
    /// Hide the window and show the loader again for the next appearance.
    HideAndReset,
    /// Store the given geometry change.
    UpdateSettings(PartialSettings),
    /// Do nothing.
    Ignore,
}

/// The override tree that changes only the translation-window section.
pub open spec fn spec_translation_window_update(
    updated: PartialTranslationWindowSettings,
) -> PartialSettingsView {
    PartialSettingsView {
        core: None,
        translation: None,
        display: None,
        translation_window: Some(updated),
        history_window: None,
        settings_window: None,
        scaling: None,
        hotkeys: None,
        supabase: None,
    }
}

/// Wrap a translation-window change into a whole-tree update that touches
/// nothing else.
pub fn translation_window_update(updated_settings: PartialTranslationWindowSettings) -> (r:
    PartialSettings)
    ensures
        r@ == spec_translation_window_update(updated_settings),
{
    PartialSettings {
        core: None,
        translation: None,
        display: None,
        translation_window: Some(updated_settings),
        history_window: None,
        settings_window: None,
        scaling: None,
        hotkeys: None,
        supabase: None,
    }
}

/// Decide how a translation-window event changes the stored settings.
///
/// A focus loss hides the window — but only when the window is not actually
/// focused at decision time (`actually_focused`), which keeps the quick
/// focus-lost/focus-gained succession during a resize from hiding it.  A
/// resize stores the new size; a move stores the new position, explicitly
/// present so it overrides any absent saved coordinate.
pub fn translate_window_event_action(
    event: &TranslationWindowEvent,
    actually_focused: bool,
) -> (r: TranslationWindowAction)
    ensures
        event matches TranslationWindowEvent::Focused { focused } ==> if !*focused
            && !actually_focused {
            r is HideAndReset
        } else {
            r is Ignore
        },
        event matches TranslationWindowEvent::Resized { width, height } ==> {
            &&& r matches TranslationWindowAction::UpdateSettings(p)
            &&& p@ == spec_translation_window_update(
                PartialTranslationWindowSettings {
                    width: Some(*width),
                    height: Some(*height),
                    min_width: None,
                    min_height: None,
                    x: None,
                    y: None,
                    margin: None,
                },
            )
        },
        event matches TranslationWindowEvent::Moved { x, y } ==> {
            &&& r matches TranslationWindowAction::UpdateSettings(p)
            &&& p@ == spec_translation_window_update(
                PartialTranslationWindowSettings {
                    width: None,
                    height: None,
                    min_width: None,
                    min_height: None,
                    x: Some(Some(*x)),
                    y: Some(Some(*y)),
                    margin: None,
                },
            )
        },
        event is Other ==> r is Ignore,
{
    match event {
        TranslationWindowEvent::Focused { focused } => {
            if !*focused && !actually_focused {
                TranslationWindowAction::HideAndReset
            } else {
                TranslationWindowAction::Ignore
            }
        },
        TranslationWindowEvent::Resized { width, height } => {
            TranslationWindowAction::UpdateSettings(
                translation_window_update(
                    PartialTranslationWindowSettings {
                        width: Some(*width),
                        height: Some(*height),
                        min_width: None,
                        min_height: None,
                        x: None,
                        y: None,
                        margin: None,
                    },
                ),
            )
        },
        TranslationWindowEvent::Moved { x, y } => {
            TranslationWindowAction::UpdateSettings(
                translation_window_update(
                    PartialTranslationWindowSettings {
                        width: None,
                        height: None,
                        min_width: None,
                        min_height: None,
                        x: Some(Some(*x)),
                        y: Some(Some(*y)),
                        margin: None,
                    },
                ),
            )
        },
        TranslationWindowEvent::Other => TranslationWindowAction::Ignore,
    }
}

} // verus!
