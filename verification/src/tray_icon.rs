//! Tray-icon decisions: the data-dependent shape of the tray menu, the
//! dispatch of menu events to actions, and the tag toggle.
//!
//! Building the OS menu and reacting to OS events is the runtime's job; what
//! each menu item is called, which item carries which identifier, and what a
//! click on an identifier means are decided here.

use vstd::prelude::*;

use crate::settings::views::PartialSettingsView;
use crate::settings::views::PartialTranslationSettingsView;
use crate::settings::views::TagView;
use crate::settings::PartialSettings;
use crate::settings::PartialTranslationSettings;
use crate::settings::Tag;

verus! {

/// The tag list with the named tag's enabled flag flipped.  Every tag keeps
/// its name and its place; tags with other names keep their flag.
pub open spec fn spec_toggle_tag(tags: Seq<TagView>, toggled_tag: Seq<char>) -> Seq<TagView> {
    Seq::new(
        tags.len(),
        |i: int|
            TagView {
                tag: tags[i].tag,
                enabled: if tags[i].tag == toggled_tag {
                    !tags[i].enabled
                } else {
                    tags[i].enabled
                },
            },
    )
}

/// Flip the enabled flag of every tag named `toggled_tag`.
pub fn toggle_tag(tags: &Vec<Tag>, toggled_tag: &String) -> (r: Vec<Tag>)
    ensures
        r.deep_view() == spec_toggle_tag(tags.deep_view(), toggled_tag@),
{
    let mut r: Vec<Tag> = Vec::new();
    let mut i: usize = 0;
    while i < tags.len()
        invariant
            i <= tags@.len(),
            r@.len() == i,
            forall|j: int|
                0 <= j < i as int ==> r@[j]@ == spec_toggle_tag(tags.deep_view(), toggled_tag@)[j],
        decreases tags@.len() - i,
    {
        let tag = &tags[i];
        if tag.tag == *toggled_tag {
            r.push(Tag { tag: tag.tag.clone(), enabled: !tag.enabled });
        } else {
            r.push(tag.clone());
        }
        i = i + 1;
    }
    proof {
        assert forall|j: int| 0 <= j < r.deep_view().len() implies r.deep_view()[j]
            == spec_toggle_tag(tags.deep_view(), toggled_tag@)[j] by {
            assert(r@[j]@ == spec_toggle_tag(tags.deep_view(), toggled_tag@)[j]);
        }
        assert(r.deep_view() =~= spec_toggle_tag(tags.deep_view(), toggled_tag@));
    }
    r
}

/// The override tree that changes only the tag list.
pub open spec fn spec_tags_update(tags: Seq<TagView>) -> PartialSettingsView {
    PartialSettingsView {
        core: None,
        translation: Some(
            PartialTranslationSettingsView {
                source_language: None,
                target_language: None,
                tags: Some(tags),
            },
        ),
        display: None,
        translation_window: None,
        history_window: None,
        settings_window: None,
        scaling: None,
        hotkeys: None,
        supabase: None,
    }
}

/// Wrap a new tag list into a whole-tree update that touches nothing else.
pub fn tags_update(tags: Vec<Tag>) -> (r: PartialSettings)
    ensures
        r@ == spec_tags_update(tags.deep_view()),
{
    PartialSettings {
        core: None,
        translation: Some(
            PartialTranslationSettings {
                source_language: None,
                target_language: None,
                tags: Some(tags),
            },
        ),
        display: None,
        translation_window: None,
        history_window: None,
        settings_window: None,
        scaling: None,
        hotkeys: None,
        supabase: None,
    }
}

/// One entry of the tags submenu: its menu identifier, its visible title,
/// and whether it is checked.
#[derive(Debug)]
pub struct TagMenuItem {
    pub id: String,
    pub title: String,
    pub checked: bool,
}

/// The data-dependent shape of the tray menu.
#[derive(Debug)]
pub struct TrayMenuModel {
    /// The suspend state the menu was built for.
    pub suspended: bool,
    /// The title of the suspend item: it offers the opposite of the current
    /// state.
    pub toggle_suspend_title: String,
    /// One checkable entry per configured tag, in configuration order.
    pub tags: Vec<TagMenuItem>,
    /// The tags submenu is greyed out when no tags are configured.
    pub tags_enabled: bool,
}

/// Build the data-dependent part of the tray menu: the suspend item's title
/// and the tags submenu, one checkable item per tag, each identified by the
/// tag name behind the tag prefix.
pub fn build_menu_model(suspended: bool, tags: &Vec<Tag>) -> (r: TrayMenuModel)
    ensures
        r.suspended == suspended,
        r.toggle_suspend_title@ == (if suspended {
            "Enable"@
        } else {
            "Suspend"@
        }),
        r.tags_enabled == (tags@.len() > 0),
        r.tags@.len() == tags@.len(),
        forall|i: int|
            #![trigger r.tags@[i]]
            0 <= i < tags@.len() ==> {
                &&& r.tags@[i].id@ == "tags:"@ + tags@[i].tag@
                &&& r.tags@[i].title@ == tags@[i].tag@
                &&& r.tags@[i].checked == tags@[i].enabled
            },
{
    let toggle_suspend_title = if suspended {
        String::from_str("Enable")
    } else {
        String::from_str("Suspend")
    };

    let mut tag_items: Vec<TagMenuItem> = Vec::new();
    let mut i: usize = 0;
    while i < tags.len()
        invariant
            i <= tags@.len(),
            tag_items@.len() == i,
            forall|j: int|
                #![trigger tag_items@[j]]
                0 <= j < i as int ==> {
                    &&& tag_items@[j].id@ == "tags:"@ + tags@[j].tag@
                    &&& tag_items@[j].title@ == tags@[j].tag@
                    &&& tag_items@[j].checked == tags@[j].enabled
                },
        decreases tags@.len() - i,
    {
        let tag = &tags[i];
        tag_items.push(
            TagMenuItem {
                id: String::from_str("tags:").concat(tag.tag.as_str()),
                title: tag.tag.clone(),
                checked: tag.enabled,
            },
        );
        i = i + 1;
    }

    TrayMenuModel {
        suspended,
        toggle_suspend_title,
        tags: tag_items,
        tags_enabled: tags.len() > 0,
    }
}

/// The tray icon image shown for each suspend state.
pub fn tray_icon_path(suspended: bool) -> (r: String)
    ensures
        r@ == (if suspended {
            "./icons/tray-suspended.ico"@
        } else {
            "./icons/tray.ico"@
        }),
{
    if suspended {
        String::from_str("./icons/tray-suspended.ico")
    } else {
        String::from_str("./icons/tray.ico")
    }
}

/// What a click on a tray menu item means.
#[derive(Debug, PartialEq)]
pub enum TrayMenuAction {
    /// Translate whatever is currently on the clipboard.
    TranslateFromClipboard,
    ShowHistory,
    ShowSettings,
    ToggleSuspend,
    ShowAbout,
    OpenLogsFolder,
    /// Quit the application.
    Exit,
    /// Flip the named tag.
    ToggleTag(String),
    /// An identifier this menu never produced.
    Ignore,
}

/// Whether an identifier belongs to one of the fixed menu items.
pub open spec fn is_static_menu_item_id(id: Seq<char>) -> bool {
    ||| id == "translate"@
    ||| id == "history"@
    ||| id == "settings"@
    ||| id == "toggle_suspend"@
    ||| id == "about"@
    ||| id == "logs"@
    ||| id == "exit"@
}

/// Whether an identifier carries the tag prefix of the tags submenu.
pub open spec fn is_tag_menu_item_id(id: Seq<char>) -> bool {
    id.len() >= 5 && id.subrange(0, 5) == "tags:"@
}

/// Decide what a clicked menu identifier means.  Fixed identifiers map to
/// their fixed actions; an identifier carrying the tag prefix toggles the
/// tag named after the prefix; anything else is ignored.
pub fn menu_action(menu_item_id: &String) -> (r: TrayMenuAction)
    ensures
        (r is TranslateFromClipboard) == (menu_item_id@ == "translate"@),
        (r is ShowHistory) == (menu_item_id@ == "history"@),
        (r is ShowSettings) == (menu_item_id@ == "settings"@),
        (r is ToggleSuspend) == (menu_item_id@ == "toggle_suspend"@),
        (r is ShowAbout) == (menu_item_id@ == "about"@),
        (r is OpenLogsFolder) == (menu_item_id@ == "logs"@),
        (r is Exit) == (menu_item_id@ == "exit"@),
        (r is ToggleTag) == (!is_static_menu_item_id(menu_item_id@) && is_tag_menu_item_id(
            menu_item_id@,
        )),
        r matches TrayMenuAction::ToggleTag(tag) ==> tag@ == menu_item_id@.skip(5),
        (r is Ignore) == (!is_static_menu_item_id(menu_item_id@) && !is_tag_menu_item_id(
            menu_item_id@,
        )),
{
    proof {
        // The fixed identifiers must be pairwise distinguishable, so that
        // matching one rules the others out.
        reveal_strlit("translate");
        reveal_strlit("history");
        reveal_strlit("settings");
        reveal_strlit("toggle_suspend");
        reveal_strlit("about");
        reveal_strlit("logs");
        reveal_strlit("exit");
        assert("translate"@.len() == 9);
        assert("history"@.len() == 7);
        assert("settings"@.len() == 8);
        assert("toggle_suspend"@.len() == 14);
        assert("about"@.len() == 5);
        assert("logs"@.len() == 4);
        assert("exit"@.len() == 4);
        assert("logs"@[0] != "exit"@[0]);
        assert("translate"@ != "history"@);
        assert("translate"@ != "settings"@);
        assert("translate"@ != "toggle_suspend"@);
        assert("translate"@ != "about"@);
        assert("translate"@ != "logs"@);
        assert("translate"@ != "exit"@);
        assert("history"@ != "settings"@);
        assert("history"@ != "toggle_suspend"@);
        assert("history"@ != "about"@);
        assert("history"@ != "logs"@);
        assert("history"@ != "exit"@);
        assert("settings"@ != "toggle_suspend"@);
        assert("settings"@ != "about"@);
        assert("settings"@ != "logs"@);
        assert("settings"@ != "exit"@);
        assert("toggle_suspend"@ != "about"@);
        assert("toggle_suspend"@ != "logs"@);
        assert("toggle_suspend"@ != "exit"@);
        assert("about"@ != "logs"@);
        assert("about"@ != "exit"@);
        assert("logs"@ != "exit"@);
    }
    if *menu_item_id == String::from_str("translate") {
        return TrayMenuAction::TranslateFromClipboard;
    }
    if *menu_item_id == String::from_str("history") {
        return TrayMenuAction::ShowHistory;
    }
    if *menu_item_id == String::from_str("settings") {
        return TrayMenuAction::ShowSettings;
    }
    if *menu_item_id == String::from_str("toggle_suspend") {
        return TrayMenuAction::ToggleSuspend;
    }
    if *menu_item_id == String::from_str("about") {
        return TrayMenuAction::ShowAbout;
    }
    if *menu_item_id == String::from_str("logs") {
        return TrayMenuAction::OpenLogsFolder;
    }
    if *menu_item_id == String::from_str("exit") {
        return TrayMenuAction::Exit;
    }

    let id_len = menu_item_id.as_str().unicode_len();
    if id_len >= 5 {
        let prefix = menu_item_id.as_str().substring_char(0, 5);
        if String::from_str(prefix) == String::from_str("tags:") {
            let tag = menu_item_id.as_str().substring_char(5, id_len).to_owned();
            proof {
                assert(tag@ =~= menu_item_id@.skip(5));
            }
            return TrayMenuAction::ToggleTag(tag);
        }
    }

    TrayMenuAction::Ignore
}

} // verus!
