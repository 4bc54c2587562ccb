use file_menus::action::Action;
use file_menus::context::{context_menu, DesktopEntry};
use file_menus::menu::{KeyBinding, KeyedItem, Label, MenuItem, SortMark};
use file_menus::tab::{
    DialogKind, HeadingOptions, Item, ItemLocation, Location, Mode, Tab, TabConfig, ViewMode,
};

fn item(selected: bool, is_dir: bool, location: ItemLocation, mime: &str) -> Item {
    Item {
        selected,
        is_dir,
        can_gallery: false,
        location,
        mime: mime.to_string(),
    }
}

fn file(name: &str, mime: &str) -> Item {
    item(true, false, ItemLocation::Path(format!("/home/user/{}", name)), mime)
}

fn tab(mode: Mode, location: Location, items: Vec<Item>) -> Tab {
    Tab {
        mode,
        location,
        items: Some(items),
        sort_name: HeadingOptions::Name,
        sort_direction: true,
        config: TabConfig {
            view: ViewMode::List,
            show_hidden: false,
            folders_first: true,
        },
    }
}

/// The label of each item, a divider as "-".
fn labels(items: &[KeyedItem]) -> Vec<String> {
    items
        .iter()
        .map(|k| match &k.item {
            MenuItem::Button(l, _, _)
            | MenuItem::ButtonDisabled(l, _, _)
            | MenuItem::CheckBox(l, _, _, _) => match l {
                Label::Message(id) => id.to_string(),
                Label::Sort(id, _) => id.to_string(),
                Label::Text(t) => t.clone(),
            },
            MenuItem::Divider => "-".to_string(),
        })
        .collect()
}

fn no_binds() -> Vec<KeyBinding> {
    Vec::new()
}

#[test]
fn background_of_app_tab() {
    let t = tab(Mode::App, Location::Path, vec![item(false, false, ItemLocation::Other, "text/plain")]);
    let menu = context_menu(&t, &no_binds(), 0, &None);
    assert_eq!(
        labels(&menu),
        vec![
            "new-folder", "new-file", "open-in-terminal", "-", "select-all", "paste", "-",
            "sort-by-name", "sort-by-modified", "sort-by-size",
        ]
    );
    assert_eq!(
        menu[7].item,
        MenuItem::Button(
            Label::Sort("sort-by-name", SortMark::Down),
            None,
            Action::ToggleSort(HeadingOptions::Name)
        )
    );
    assert_eq!(
        menu[8].item,
        MenuItem::Button(
            Label::Sort("sort-by-modified", SortMark::NoMark),
            None,
            Action::ToggleSort(HeadingOptions::Modified)
        )
    );
}

#[test]
fn background_of_desktop() {
    let mut t = tab(Mode::Desktop, Location::Desktop, vec![]);
    t.sort_direction = false;
    let menu = context_menu(&t, &no_binds(), 0, &None);
    assert_eq!(
        labels(&menu),
        vec![
            "new-folder", "new-file", "open-in-terminal", "-", "select-all", "paste", "-",
            "change-wallpaper", "desktop-appearance", "display-settings", "-", "sort-by-name",
            "sort-by-modified", "sort-by-size", "-", "desktop-view-options",
        ]
    );
    assert_eq!(
        menu[11].item,
        MenuItem::Button(
            Label::Sort("sort-by-name", SortMark::Up),
            None,
            Action::ToggleSort(HeadingOptions::Name)
        )
    );
}

#[test]
fn one_directory_selected_in_app() {
    let t = tab(
        Mode::App,
        Location::Path,
        vec![item(true, true, ItemLocation::Path("/home/user/docs".to_string()), "inode/directory")],
    );
    let menu = context_menu(&t, &no_binds(), 0, &None);
    assert_eq!(
        labels(&menu),
        vec![
            "open", "open-with", "open-in-terminal", "open-in-new-tab", "open-in-new-window", "-",
            "rename", "cut", "copy", "-", "compress", "-", "show-details", "-", "add-to-sidebar",
            "-", "move-to-trash",
        ]
    );
    assert_eq!(
        menu[0].item,
        MenuItem::Button(Label::Message("open"), Some("document-open-symbolic"), Action::Open)
    );
}

#[test]
fn archives_offer_extraction() {
    let t = tab(
        Mode::App,
        Location::Search,
        vec![file("a.zip", "application/zip"), file("b.tar", "application/x-tar")],
    );
    let menu = context_menu(&t, &no_binds(), 0, &None);
    assert_eq!(
        labels(&menu),
        vec![
            "open", "open-item-location", "-", "rename", "cut", "copy", "-", "extract-here",
            "compress", "-", "show-details", "-", "add-to-sidebar", "-", "move-to-trash",
        ]
    );
}

#[test]
fn mixed_types_offer_no_extraction() {
    let t = tab(
        Mode::App,
        Location::Path,
        vec![file("a.zip", "application/zip"), file("b.txt", "text/plain")],
    );
    let menu = context_menu(&t, &no_binds(), 0, &None);
    assert!(!labels(&menu).contains(&"extract-here".to_string()));
    assert!(labels(&menu).contains(&"compress".to_string()));
}

#[test]
fn files_and_directories_on_desktop() {
    let t = tab(
        Mode::Desktop,
        Location::Desktop,
        vec![
            item(true, true, ItemLocation::Path("/d/one".to_string()), "inode/directory"),
            item(true, true, ItemLocation::Path("/d/two".to_string()), "inode/directory"),
        ],
    );
    let menu = context_menu(&t, &no_binds(), 0, &None);
    assert_eq!(
        labels(&menu),
        vec!["-", "rename", "cut", "copy", "-", "compress", "-", "show-details", "-", "move-to-trash"]
    );
}

#[test]
fn trash_item_selected_elsewhere() {
    let t = tab(Mode::App, Location::Recents, vec![item(true, false, ItemLocation::Trash, "text/plain")]);
    assert_eq!(labels(&context_menu(&t, &no_binds(), 3, &None)), vec!["open", "empty-trash"]);
    assert_eq!(labels(&context_menu(&t, &no_binds(), 0, &None)), vec!["open"]);
}

#[test]
fn desktop_entry_actions() {
    let t = tab(Mode::Desktop, Location::Desktop, vec![file("editor.desktop", "application/x-desktop")]);
    let entry = Some(DesktopEntry {
        action_names: vec!["New Window".to_string(), "New Document".to_string()],
    });
    let menu = context_menu(&t, &no_binds(), 0, &entry);
    assert_eq!(
        labels(&menu),
        vec!["open", "New Window", "New Document", "-", "rename", "cut", "copy", "move-to-trash"]
    );
    assert_eq!(
        menu[2].item,
        MenuItem::Button(Label::Text("New Document".to_string()), None, Action::ExecEntryAction(1))
    );
}

#[test]
fn desktop_entry_ignored_for_other_files() {
    let t = tab(Mode::App, Location::Path, vec![file("notes.txt", "text/plain")]);
    let entry = Some(DesktopEntry { action_names: vec!["Run".to_string()] });
    let menu = context_menu(&t, &no_binds(), 0, &entry);
    assert_eq!(labels(&menu)[0], "open");
    assert_eq!(labels(&menu)[1], "open-with");
    assert!(!labels(&menu).contains(&"Run".to_string()));
}

#[test]
fn save_dialog_background() {
    let t = tab(Mode::Dialog(DialogKind::SaveFile), Location::Path, vec![]);
    let menu = context_menu(&t, &no_binds(), 0, &None);
    assert_eq!(
        labels(&menu),
        vec!["new-folder", "-", "sort-by-name", "sort-by-modified", "sort-by-size"]
    );
}

#[test]
fn open_dialog_background_has_no_divider() {
    let t = tab(Mode::Dialog(DialogKind::OpenFile), Location::Path, vec![]);
    let menu = context_menu(&t, &no_binds(), 0, &None);
    assert_eq!(labels(&menu), vec!["sort-by-name", "sort-by-modified", "sort-by-size"]);
}

#[test]
fn dialog_selection() {
    let t = tab(
        Mode::Dialog(DialogKind::OpenMultipleFiles),
        Location::Search,
        vec![file("a.txt", "text/plain")],
    );
    let menu = context_menu(&t, &no_binds(), 0, &None);
    assert_eq!(labels(&menu), vec!["open", "open-item-location", "-", "show-details"]);
}

#[test]
fn network_locations() {
    let t = tab(Mode::App, Location::Network, vec![]);
    assert_eq!(
        labels(&context_menu(&t, &no_binds(), 0, &None)),
        vec!["select-all", "-", "sort-by-name", "sort-by-modified", "sort-by-size"]
    );
    let t = tab(
        Mode::App,
        Location::Network,
        vec![item(true, true, ItemLocation::Other, "inode/directory"), item(true, true, ItemLocation::Other, "inode/directory")],
    );
    assert!(context_menu(&t, &no_binds(), 0, &None).is_empty());
}

#[test]
fn trash_location() {
    let t = tab(Mode::App, Location::Trash, vec![]);
    assert_eq!(
        labels(&context_menu(&t, &no_binds(), 0, &None)),
        vec!["select-all", "-", "sort-by-name", "sort-by-trashed", "sort-by-size"]
    );
    let t = tab(Mode::App, Location::Trash, vec![item(true, false, ItemLocation::Trash, "text/plain")]);
    assert_eq!(
        labels(&context_menu(&t, &no_binds(), 0, &None)),
        vec!["select-all", "-", "show-details", "-", "restore-from-trash"]
    );
}

#[test]
fn keys_are_shown() {
    let t = tab(Mode::App, Location::Path, vec![file("a.txt", "text/plain")]);
    let binds = vec![
        KeyBinding { key: "Ctrl+X".to_string(), action: Action::Cut },
        KeyBinding { key: "Shift+Delete".to_string(), action: Action::Cut },
        KeyBinding { key: "Delete".to_string(), action: Action::MoveToTrash },
    ];
    let menu = context_menu(&t, &binds, 0, &None);
    for k in &menu {
        match k.item {
            MenuItem::Button(_, _, Action::Cut) => assert_eq!(k.key, "Ctrl+X"),
            MenuItem::Button(_, _, Action::MoveToTrash) => assert_eq!(k.key, "Delete"),
            _ => assert_eq!(k.key, ""),
        }
    }
}

#[test]
fn unread_tab_shows_background_menu() {
    let mut t = tab(Mode::App, Location::Path, vec![]);
    t.items = None;
    let menu = context_menu(&t, &no_binds(), 0, &None);
    assert_eq!(labels(&menu)[0], "new-folder");
}
