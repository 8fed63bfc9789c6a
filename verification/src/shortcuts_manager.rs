//! Global-hotkey decisions: the suspend state machine, the registration
//! plan, key-combination parsing, and change detection.
//!
//! Registering key combinations with the operating system is the runtime's
//! job.  Kept here is everything decided beforehand: which commands are
//! bound to which combinations (and which of them while hotkeys are
//! suspended), how a combination splits into modifiers and key codes, when
//! the suspend state actually changes, and whether a settings change touched
//! any globally registered hotkey.

use vstd::prelude::*;

use crate::settings::clone_keys_list;
use crate::settings::HotkeySettings;
use crate::settings::Keys;

verus! {

/// The suspend state of the global hotkeys.
///
/// Whenever a transition reports a change, the runtime re-registers the
/// shortcuts (only the toggle-suspend shortcut while suspended) and calls
/// the suspend-change handlers with the new state.
pub struct ShortcutsManager {
    pub suspended: bool,
}

impl ShortcutsManager {
    /// Hotkeys start enabled.
    pub fn new() -> (r: ShortcutsManager)
        ensures
            !r.suspended,
    {
        ShortcutsManager { suspended: false }
    }

    pub fn is_suspended(&self) -> (r: bool)
        ensures
            r == self.suspended,
    {
        self.suspended
    }

    /// Suspend the hotkeys.  Reports whether anything changed: suspending
    /// twice is a no-op and must trigger no re-registration and no handler.
    pub fn suspend(&mut self) -> (changed: bool)
        ensures
            final(self).suspended,
            changed == !old(self).suspended,
    {
        let changed = !self.suspended;
        self.suspended = true;
        changed
    }

    /// Re-enable the hotkeys.  Reports whether anything changed: enabling
    /// twice is a no-op and must trigger no re-registration and no handler.
    pub fn enable(&mut self) -> (changed: bool)
        ensures
            !final(self).suspended,
            changed == old(self).suspended,
    {
        let changed = self.suspended;
        self.suspended = false;
        changed
    }

    /// Flip the suspend state and report the new state.
    pub fn toggle_suspend(&mut self) -> (now_suspended: bool)
        ensures
            final(self).suspended == !old(self).suspended,
            now_suspended == final(self).suspended,
    {
        if self.is_suspended() {
            self.enable();
            false
        } else {
            self.suspend();
            true
        }
    }
}

/// The commands that can be bound to global hotkeys.
#[derive(Clone, Copy, Debug, PartialEq, Eq, Structural)]
pub enum ShortcutCommand {
    ToggleSuspend,
    Translate,
    ShowDefinition,
    PlayText,
    InputText,
}

/// One command together with its display title and every key combination it
/// is bound to.
#[derive(Debug)]
pub struct ShortcutBinding {
    pub command: ShortcutCommand,
    pub title: String,
    pub hotkeys: Vec<Keys>,
}

/// The ordered registration plan: which commands to bind, with which key
/// combinations.  The toggle-suspend binding always comes first; while the
/// hotkeys are suspended it is the only one registered, so suspended hotkeys
/// can still be re-enabled from the keyboard.
pub fn register_shortcuts_plan(settings: &HotkeySettings, toggle_suspend_shortcut_only: bool) -> (r:
    Vec<ShortcutBinding>)
    ensures
        r@.len() == (if toggle_suspend_shortcut_only {
            1int
        } else {
            5int
        }),
        r@[0].command is ToggleSuspend,
        r@[0].title@ == "Toggle Suspend"@,
        r@[0].hotkeys.deep_view() == settings@.toggle_suspend,
        !toggle_suspend_shortcut_only ==> {
            &&& r@[1].command is Translate
            &&& r@[1].title@ == "Translate Text"@
            &&& r@[1].hotkeys.deep_view() == settings@.translate
            &&& r@[2].command is ShowDefinition
            &&& r@[2].title@ == "Show Definition"@
            &&& r@[2].hotkeys.deep_view() == settings@.show_definition
            &&& r@[3].command is PlayText
            &&& r@[3].title@ == "Play Text"@
            &&& r@[3].hotkeys.deep_view() == settings@.play_text
            &&& r@[4].command is InputText
            &&& r@[4].title@ == "Show Input"@
            &&& r@[4].hotkeys.deep_view() == settings@.input_text
        },
{
    let mut plan: Vec<ShortcutBinding> = Vec::new();
    plan.push(
        ShortcutBinding {
            command: ShortcutCommand::ToggleSuspend,
            title: String::from_str("Toggle Suspend"),
            hotkeys: clone_keys_list(&settings.toggle_suspend),
        },
    );

    // While suspended, only the toggle-suspend shortcut is re-registered.
    if toggle_suspend_shortcut_only {
        return plan;
    }

    plan.push(
        ShortcutBinding {
            command: ShortcutCommand::Translate,
            title: String::from_str("Translate Text"),
            hotkeys: clone_keys_list(&settings.translate),
        },
    );
    plan.push(
        ShortcutBinding {
            command: ShortcutCommand::ShowDefinition,
            title: String::from_str("Show Definition"),
            hotkeys: clone_keys_list(&settings.show_definition),
        },
    );
    plan.push(
        ShortcutBinding {
            command: ShortcutCommand::PlayText,
            title: String::from_str("Play Text"),
            hotkeys: clone_keys_list(&settings.play_text),
        },
    );
    plan.push(
        ShortcutBinding {
            command: ShortcutCommand::InputText,
            title: String::from_str("Show Input"),
            hotkeys: clone_keys_list(&settings.input_text),
        },
    );
    plan
}

/// The key names that act as modifiers in a combination.
pub open spec fn is_modifier_key(key: Seq<char>) -> bool {
    ||| key == "Control"@
    ||| key == "Shift"@
    ||| key == "Alt"@
}

/// The non-modifier key names of a combination, in order.
pub open spec fn non_modifier_keys(keys: Seq<Seq<char>>) -> Seq<Seq<char>>
    decreases keys.len(),
{
    if keys.len() == 0 {
        Seq::empty()
    } else {
        let rest = non_modifier_keys(keys.drop_last());
        if is_modifier_key(keys.last()) {
            rest
        } else {
            rest.push(keys.last())
        }
    }
}

/// Why a key combination cannot be turned into a shortcut.
#[derive(Clone, Copy, Debug, PartialEq, Eq, Structural)]
pub enum ShortcutError {
    /// The combination names only modifiers: there is no key code to bind.
    NoKeyCode,
}

/// A key combination split into its modifier flags and its non-modifier key
/// names.  The runtime maps each key name to an OS key code, in order, and
/// binds the last one together with the modifiers.
#[derive(Debug)]
pub struct ParsedShortcut {
    pub control: bool,
    pub shift: bool,
    pub alt: bool,
    pub keys: Vec<String>,
}

/// Split a key combination into modifiers and key names.  Fails exactly when
/// the combination holds no non-modifier key.
pub fn build_shortcut(keys: &Keys) -> (r: Result<ParsedShortcut, ShortcutError>)
    ensures
        r is Ok <==> non_modifier_keys(keys.deep_view()).len() > 0,
        r matches Ok(p) ==> {
            &&& p.control == keys.deep_view().contains("Control"@)
            &&& p.shift == keys.deep_view().contains("Shift"@)
            &&& p.alt == keys.deep_view().contains("Alt"@)
            &&& p.keys.deep_view() == non_modifier_keys(keys.deep_view())
        },
{
    proof {
        // The three modifier names must be distinguishable from one another.
        reveal_strlit("Control");
        reveal_strlit("Shift");
        reveal_strlit("Alt");
    }
    let control_name = String::from_str("Control");
    let shift_name = String::from_str("Shift");
    let alt_name = String::from_str("Alt");

    let mut control: bool = false;
    let mut shift: bool = false;
    let mut alt: bool = false;
    let mut code_keys: Vec<String> = Vec::new();

    let ghost kd = keys.deep_view();

    let mut i: usize = 0;
    while i < keys.len()
        invariant
            i <= keys@.len(),
            kd == keys.deep_view(),
            control_name@ == "Control"@,
            shift_name@ == "Shift"@,
            alt_name@ == "Alt"@,
            control == (exists|j: int| 0 <= j < i as int && kd[j] == "Control"@),
            shift == (exists|j: int| 0 <= j < i as int && kd[j] == "Shift"@),
            alt == (exists|j: int| 0 <= j < i as int && kd[j] == "Alt"@),
            code_keys@.len() == non_modifier_keys(kd.take(i as int)).len(),
            forall|j: int|
                0 <= j < code_keys@.len() ==> code_keys@[j]@ == non_modifier_keys(
                    kd.take(i as int),
                )[j],
        decreases keys@.len() - i,
    {
        let key = &keys[i];
        proof {
            reveal_strlit("Control");
            reveal_strlit("Shift");
            reveal_strlit("Alt");
            assert(kd[i as int] == keys@[i as int]@);
            assert(kd.take(i as int + 1).drop_last() =~= kd.take(i as int));
            assert(kd.take(i as int + 1).last() == kd[i as int]);
        }
        if *key == control_name {
            control = true;
        } else if *key == shift_name {
            shift = true;
        } else if *key == alt_name {
            alt = true;
        } else {
            code_keys.push(key.clone());
        }
        i = i + 1;
    }

    proof {
        assert(kd.take(keys@.len() as int) =~= kd);
    }

    if code_keys.len() == 0 {
        return Err(ShortcutError::NoKeyCode);
    }

    proof {
        assert forall|j: int| 0 <= j < code_keys.deep_view().len() implies code_keys.deep_view()[j]
            == non_modifier_keys(kd)[j] by {
            assert(code_keys@[j]@ == non_modifier_keys(kd)[j]);
        }
        assert(code_keys.deep_view() =~= non_modifier_keys(kd));
    }

    Ok(ParsedShortcut { control, shift, alt, keys: code_keys })
}

/// Whether a settings change touched any of the globally registered hotkey
/// bindings.  Only these five sections trigger a re-registration; the other
/// hotkeys are handled inside the views and need none.
pub fn are_global_hotkeys_changed(
    old_settings: &HotkeySettings,
    new_settings: &HotkeySettings,
) -> (r: bool)
    ensures
        r == (old_settings@.translate != new_settings@.translate
            || old_settings@.input_text != new_settings@.input_text
            || old_settings@.show_definition != new_settings@.show_definition
            || old_settings@.toggle_suspend != new_settings@.toggle_suspend
            || old_settings@.play_text != new_settings@.play_text),
{
    !keys_list_eq(&old_settings.translate, &new_settings.translate) || !keys_list_eq(
        &old_settings.input_text,
        &new_settings.input_text,
    ) || !keys_list_eq(&old_settings.show_definition, &new_settings.show_definition)
        || !keys_list_eq(&old_settings.toggle_suspend, &new_settings.toggle_suspend)
        || !keys_list_eq(&old_settings.play_text, &new_settings.play_text)
}

/// Whether two key combinations name the same keys in the same order.
fn keys_eq(a: &Keys, b: &Keys) -> (r: bool)
    ensures
        r == (a.deep_view() == b.deep_view()),
{
    proof {
        assert(a.deep_view().len() == a@.len());
        assert(b.deep_view().len() == b@.len());
    }
    if a.len() != b.len() {
        return false;
    }
    let mut i: usize = 0;
    while i < a.len()
        invariant
            i <= a@.len(),
            a@.len() == b@.len(),
            forall|j: int| 0 <= j < i as int ==> a@[j]@ == b@[j]@,
        decreases a@.len() - i,
    {
        if !(a[i] == b[i]) {
            proof {
                assert(a.deep_view()[i as int] == a@[i as int]@);
                assert(b.deep_view()[i as int] == b@[i as int]@);
            }
            return false;
        }
        i = i + 1;
    }
    proof {
        assert forall|j: int| 0 <= j < a.deep_view().len() implies a.deep_view()[j]
            == b.deep_view()[j] by {
            assert(a@[j]@ == b@[j]@);
        }
        assert(a.deep_view() =~= b.deep_view());
    }
    true
}

/// Whether two lists of key combinations are equal, element by element.
fn keys_list_eq(a: &Vec<Keys>, b: &Vec<Keys>) -> (r: bool)
    ensures
        r == (a.deep_view() == b.deep_view()),
{
    proof {
        assert(a.deep_view().len() == a@.len());
        assert(b.deep_view().len() == b@.len());
    }
    if a.len() != b.len() {
        return false;
    }
    let mut i: usize = 0;
    while i < a.len()
        invariant
            i <= a@.len(),
            a@.len() == b@.len(),
            forall|j: int| 0 <= j < i as int ==> a@[j].deep_view() == b@[j].deep_view(),
        decreases a@.len() - i,
    {
        if !keys_eq(&a[i], &b[i]) {
            proof {
                assert(a.deep_view()[i as int] == a@[i as int].deep_view());
                assert(b.deep_view()[i as int] == b@[i as int].deep_view());
            }
            return false;
        }
        i = i + 1;
    }
    proof {
        assert forall|j: int| 0 <= j < a.deep_view().len() implies a.deep_view()[j]
            == b.deep_view()[j] by {
            assert(a@[j].deep_view() == b@[j].deep_view());
        }
        assert(a.deep_view() =~= b.deep_view());
    }
    true
}

} // verus!
