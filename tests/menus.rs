use file_menus::action::{Action, LocationMenuAction};
use file_menus::bar::{dialog_menu, menu_bar};
use file_menus::menu::{
    find_key, location_context_menu, menu_button_optional, KeyBinding, Label, MenuItem, MenuRoot,
    SortMark,
};
use file_menus::tab::{Config, HeadingOptions, Item, ItemLocation, Location, Mode, Tab, TabConfig, ViewMode};

fn tab(items: Vec<Item>) -> Tab {
    Tab {
        mode: Mode::App,
        location: Location::Path,
        items: Some(items),
        sort_name: HeadingOptions::Modified,
        sort_direction: false,
        config: TabConfig {
            view: ViewMode::Grid,
            show_hidden: true,
            folders_first: false,
        },
    }
}

fn picture(selected: bool) -> Item {
    Item {
        selected,
        is_dir: false,
        can_gallery: true,
        location: ItemLocation::Path("/p/cat.png".to_string()),
        mime: "image/png".to_string(),
    }
}

#[test]
fn first_binding_wins() {
    let binds = vec![
        KeyBinding { key: "Ctrl+C".to_string(), action: Action::Copy },
        KeyBinding { key: "Ctrl+Insert".to_string(), action: Action::Copy },
    ];
    assert_eq!(find_key(&binds, &Action::Copy), "Ctrl+C");
    assert_eq!(find_key(&binds, &Action::Paste), "");
    assert_eq!(find_key(&Vec::new(), &Action::Copy), "");
}

#[test]
fn optional_buttons() {
    assert_eq!(
        menu_button_optional(Label::Message("open"), None, Action::Open, true),
        MenuItem::Button(Label::Message("open"), None, Action::Open)
    );
    assert_eq!(
        menu_button_optional(Label::Message("open"), None, Action::Open, false),
        MenuItem::ButtonDisabled(Label::Message("open"), None, Action::Open)
    );
}

#[test]
fn sort_marks() {
    assert_eq!(SortMark::Down.text(), "\u{2B07}");
    assert_eq!(SortMark::Up.text(), "\u{2B06}");
    assert_eq!(SortMark::NoMark.text(), "");
}

#[test]
fn location_menu() {
    let menu = location_context_menu(2);
    assert_eq!(
        menu,
        vec![
            MenuItem::Button(Label::Message("open-in-new-tab"), None, LocationMenuAction::OpenInNewTab(2)),
            MenuItem::Button(
                Label::Message("open-in-new-window"),
                None,
                LocationMenuAction::OpenInNewWindow(2)
            ),
            MenuItem::Divider,
            MenuItem::Button(Label::Message("show-details"), None, LocationMenuAction::Preview(2)),
            MenuItem::Divider,
            MenuItem::Button(Label::Message("add-to-sidebar"), None, LocationMenuAction::AddToSidebar(2)),
        ]
    );
}

#[test]
fn dialog_menus() {
    let t = tab(vec![picture(true)]);
    let binds = vec![KeyBinding { key: "Ctrl+=".to_string(), action: Action::ZoomIn }];
    let trees = dialog_menu(&t, &binds, false);
    assert_eq!(trees.len(), 3);
    assert_eq!(trees[0].root, MenuRoot::Icon("view-grid-symbolic"));
    assert_eq!(
        trees[0].items[0].item,
        MenuItem::CheckBox(Label::Message("grid-view"), Some("grid-symbolic"), true, Action::TabViewGrid)
    );
    assert_eq!(trees[1].root, MenuRoot::Icon("view-sort-descending-symbolic"));
    assert_eq!(
        trees[1].items[2].item,
        MenuItem::CheckBox(
            Label::Message("sort-newest-first"),
            None,
            true,
            Action::SetSort(HeadingOptions::Modified, false)
        )
    );
    assert_eq!(
        trees[1].items[3].item,
        MenuItem::CheckBox(
            Label::Message("sort-oldest-first"),
            None,
            false,
            Action::SetSort(HeadingOptions::Modified, true)
        )
    );
    assert_eq!(trees[2].root, MenuRoot::Icon("view-more-symbolic"));
    assert_eq!(trees[2].items.len(), 9);
    assert_eq!(trees[2].items[0].key, "Ctrl+=");
    assert_eq!(
        trees[2].items[4].item,
        MenuItem::CheckBox(
            Label::Message("show-hidden-files"),
            Some("view-conceal-symbolic"),
            true,
            Action::ToggleShowHidden
        )
    );
    assert_eq!(
        trees[2].items[8].item,
        MenuItem::Button(Label::Message("gallery-preview"), Some("image-round-symbolic"), Action::Gallery)
    );
}

#[test]
fn dialog_menu_in_trash_without_gallery() {
    let mut t = tab(vec![picture(false)]);
    t.location = Location::Trash;
    t.sort_name = HeadingOptions::TrashedOn;
    let trees = dialog_menu(&t, &Vec::new(), true);
    assert_eq!(
        trees[1].items[2].item,
        MenuItem::CheckBox(
            Label::Message("sort-newest-first"),
            None,
            true,
            Action::SetSort(HeadingOptions::TrashedOn, false)
        )
    );
    assert_eq!(
        trees[2].items[8].item,
        MenuItem::ButtonDisabled(Label::Message("gallery-preview"), Some("image-round-symbolic"), Action::Gallery)
    );
    assert_eq!(
        trees[2].items[6].item,
        MenuItem::CheckBox(Label::Message("show-details"), Some("info-outline-symbolic"), true, Action::Preview)
    );
}

#[test]
fn menu_bar_without_tab() {
    let trees = menu_bar(None, &Config { show_details: true }, &Vec::new());
    assert_eq!(trees.len(), 4);
    let roots: Vec<MenuRoot> = trees.iter().map(|t| t.root).collect();
    assert_eq!(
        roots,
        vec![MenuRoot::Title("file"), MenuRoot::Title("edit"), MenuRoot::Title("view"), MenuRoot::Title("sort")]
    );
    assert_eq!(trees[0].items.len(), 15);
    assert_eq!(
        trees[0].items[4].item,
        MenuItem::ButtonDisabled(Label::Message("open"), Some("document-open-symbolic"), Action::Open)
    );
    assert_eq!(
        trees[1].items[3].item,
        MenuItem::Button(Label::Message("select-all"), Some("edit-select-all-symbolic"), Action::SelectAll)
    );
    assert_eq!(trees[2].items.len(), 16);
    assert!(trees[2].items.iter().all(|k| !matches!(k.item, MenuItem::CheckBox(_, _, true, a) if a != Action::Preview)));
    assert!(trees[3].items.iter().all(|k| matches!(k.item, MenuItem::CheckBox(_, None, false, _))));
}

#[test]
fn menu_bar_with_selection() {
    let t = tab(vec![picture(true), picture(false)]);
    let trees = menu_bar(Some(&t), &Config { show_details: false }, &Vec::new());
    assert_eq!(
        trees[0].items[4].item,
        MenuItem::Button(Label::Message("open"), Some("document-open-symbolic"), Action::Open)
    );
    assert_eq!(
        trees[0].items[5].item,
        MenuItem::Button(Label::Message("open-with"), Some("external-link-symbolic"), Action::OpenWith)
    );
    assert_eq!(
        trees[1].items[0].item,
        MenuItem::Button(Label::Message("cut"), Some("cut-symbolic"), Action::Cut)
    );
    assert_eq!(
        trees[2].items[4].item,
        MenuItem::CheckBox(Label::Message("grid-view"), Some("grid-symbolic"), true, Action::TabViewGrid)
    );
    assert_eq!(
        trees[2].items[11].item,
        MenuItem::Button(Label::Message("gallery-preview"), Some("image-round-symbolic"), Action::Gallery)
    );
    assert_eq!(
        trees[3].items[2].item,
        MenuItem::CheckBox(
            Label::Message("sort-newest-first"),
            None,
            true,
            Action::SetSort(HeadingOptions::Modified, false)
        )
    );
}

#[test]
fn menu_bar_two_directories() {
    let dir = |name: &str| Item {
        selected: true,
        is_dir: true,
        can_gallery: false,
        location: ItemLocation::Path(name.to_string()),
        mime: "inode/directory".to_string(),
    };
    let t = tab(vec![dir("/a"), dir("/b")]);
    let trees = menu_bar(Some(&t), &Config { show_details: false }, &Vec::new());
    assert_eq!(
        trees[0].items[4].item,
        MenuItem::ButtonDisabled(Label::Message("open"), Some("document-open-symbolic"), Action::Open)
    );
    assert_eq!(
        trees[0].items[7].item,
        MenuItem::Button(Label::Message("rename"), Some("edit-symbolic"), Action::Rename)
    );
}
