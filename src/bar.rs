//! The menu bar of the application window, and the smaller one of file
//! chooser dialogs.
use vstd::prelude::*;

use crate::action::Action;
use crate::menu::{
    items_of, keys_resolved, menu_button_optional, optional_button, with_keys, KeyBinding, Label,
    MenuItem, MenuRoot, MenuTree,
};
use crate::selection::{selection_spec, tab_items, tab_selection, Selection};
use crate::tab::{Config, HeadingOptions, Location, Tab, ViewMode};

verus! {

pub open spec fn plain_button(id: &'static str, icon: &'static str, a: Action) -> MenuItem<Action> {
    MenuItem::Button(Label::Message(id), Some(icon), a)
}

pub open spec fn check_item(
    id: &'static str,
    icon: Option<&'static str>,
    checked: bool,
    a: Action,
) -> MenuItem<Action> {
    MenuItem::CheckBox(Label::Message(id), icon, checked, a)
}

pub open spec fn optional(id: &'static str, icon: &'static str, a: Action, enabled: bool) -> MenuItem<
    Action,
> {
    optional_button(Label::Message(id), Some(icon), a, enabled)
}

fn plain(id: &'static str, icon: &'static str, a: Action) -> (r: MenuItem<Action>)
    ensures
        r == plain_button(id, icon, a),
{
    MenuItem::Button(Label::Message(id), Some(icon), a)
}

fn check(id: &'static str, icon: Option<&'static str>, checked: bool, a: Action) -> (r: MenuItem<
    Action,
>)
    ensures
        r == check_item(id, icon, checked, a),
{
    MenuItem::CheckBox(Label::Message(id), icon, checked, a)
}

fn maybe(id: &'static str, icon: &'static str, a: Action, enabled: bool) -> (r: MenuItem<Action>)
    ensures
        r == optional(id, icon, a, enabled),
{
    menu_button_optional(Label::Message(id), Some(icon), a, enabled)
}

/// A menu with the given root and items, each with the key bound to its action.
pub open spec fn is_tree(
    t: MenuTree,
    root: MenuRoot,
    items: Seq<MenuItem<Action>>,
    binds: Seq<KeyBinding>,
) -> bool {
    &&& t.root == root
    &&& items_of(t.items@) == items
    &&& keys_resolved(t.items@, binds)
}

/// Grid view and list view, checked as given.
pub open spec fn view_items(grid: bool, list: bool) -> Seq<MenuItem<Action>> {
    seq![
        check_item("grid-view", Some("grid-symbolic"), grid, Action::TabViewGrid),
        check_item("list-view", Some("list-large-symbolic"), list, Action::TabViewList),
    ]
}

fn view_menu(grid: bool, list: bool) -> (r: Vec<MenuItem<Action>>)
    ensures
        r@ == view_items(grid, list),
{
    let mut v: Vec<MenuItem<Action>> = Vec::new();
    v.push(check("grid-view", Some("grid-symbolic"), grid, Action::TabViewGrid));
    v.push(check("list-view", Some("list-large-symbolic"), list, Action::TabViewList));
    assert(v@ =~= view_items(grid, list));
    v
}

/// A choice of sort column and direction, checked where it is the current
/// sort.
pub open spec fn sort_choice(
    current: Option<(HeadingOptions, bool)>,
    id: &'static str,
    column: HeadingOptions,
    ascending: bool,
) -> MenuItem<Action> {
    MenuItem::CheckBox(
        Label::Message(id),
        None,
        current == Some((column, ascending)),
        Action::SetSort(column, ascending),
    )
}

/// The column that "newest first" sorts by: the time of deletion in the
/// trash, else the time of modification.
pub open spec fn time_column(in_trash: bool) -> HeadingOptions {
    if in_trash {
        HeadingOptions::TrashedOn
    } else {
        HeadingOptions::Modified
    }
}

/// The sort choices, given the current sort.
pub open spec fn sort_items(current: Option<(HeadingOptions, bool)>, in_trash: bool) -> Seq<
    MenuItem<Action>,
> {
    seq![
        sort_choice(current, "sort-a-z", HeadingOptions::Name, true),
        sort_choice(current, "sort-z-a", HeadingOptions::Name, false),
        sort_choice(current, "sort-newest-first", time_column(in_trash), false),
        sort_choice(current, "sort-oldest-first", time_column(in_trash), true),
        sort_choice(current, "sort-smallest-to-largest", HeadingOptions::Size, true),
        sort_choice(current, "sort-largest-to-smallest", HeadingOptions::Size, false),
    ]
}

fn sort_choice_item(
    current: Option<(HeadingOptions, bool)>,
    id: &'static str,
    column: HeadingOptions,
    ascending: bool,
) -> (r: MenuItem<Action>)
    ensures
        r == sort_choice(current, id, column, ascending),
{
    let checked = match current {
        Some((c, d)) => c == column && d == ascending,
        None => false,
    };
    MenuItem::CheckBox(Label::Message(id), None, checked, Action::SetSort(column, ascending))
}

fn sort_menu(current: Option<(HeadingOptions, bool)>, in_trash: bool) -> (r: Vec<MenuItem<Action>>)
    ensures
        r@ == sort_items(current, in_trash),
{
    let time = if in_trash {
        HeadingOptions::TrashedOn
    } else {
        HeadingOptions::Modified
    };
    let mut v: Vec<MenuItem<Action>> = Vec::new();
    v.push(sort_choice_item(current, "sort-a-z", HeadingOptions::Name, true));
    v.push(sort_choice_item(current, "sort-z-a", HeadingOptions::Name, false));
    v.push(sort_choice_item(current, "sort-newest-first", time, false));
    v.push(sort_choice_item(current, "sort-oldest-first", time, true));
    v.push(sort_choice_item(current, "sort-smallest-to-largest", HeadingOptions::Size, true));
    v.push(sort_choice_item(current, "sort-largest-to-smallest", HeadingOptions::Size, false));
    assert(v@ =~= sort_items(current, in_trash));
    v
}

/// Zooming in, back to the default size, and out.
pub open spec fn zoom_items() -> Seq<MenuItem<Action>> {
    seq![
        plain_button("zoom-in", "value-increase-symbolic", Action::ZoomIn),
        plain_button("default-size", "loupe-symbolic", Action::ZoomDefault),
        plain_button("zoom-out", "value-decrease-symbolic", Action::ZoomOut),
        MenuItem::Divider,
    ]
}

fn zoom_menu() -> (r: Vec<MenuItem<Action>>)
    ensures
        r@ == zoom_items(),
{
    let mut v: Vec<MenuItem<Action>> = Vec::new();
    v.push(plain("zoom-in", "value-increase-symbolic", Action::ZoomIn));
    v.push(plain("default-size", "loupe-symbolic", Action::ZoomDefault));
    v.push(plain("zoom-out", "value-decrease-symbolic", Action::ZoomOut));
    v.push(MenuItem::Divider);
    assert(v@ =~= zoom_items());
    v
}

/// Hidden files, directories first and the details pane, checked as given,
/// then the gallery, offered where `gallery` holds.
pub open spec fn display_items(
    show_hidden: bool,
    folders_first: bool,
    show_details: bool,
    gallery: bool,
) -> Seq<MenuItem<Action>> {
    seq![
        check_item(
            "show-hidden-files",
            Some("view-conceal-symbolic"),
            show_hidden,
            Action::ToggleShowHidden,
        ),
        check_item(
            "list-directories-first",
            Some("folder-symbolic"),
            folders_first,
            Action::ToggleFoldersFirst,
        ),
        check_item("show-details", Some("info-outline-symbolic"), show_details, Action::Preview),
        MenuItem::Divider,
        optional("gallery-preview", "image-round-symbolic", Action::Gallery, gallery),
    ]
}

fn display_menu(show_hidden: bool, folders_first: bool, show_details: bool, gallery: bool) -> (r:
    Vec<MenuItem<Action>>)
    ensures
        r@ == display_items(show_hidden, folders_first, show_details, gallery),
{
    let mut v: Vec<MenuItem<Action>> = Vec::new();
    v.push(
        check(
            "show-hidden-files",
            Some("view-conceal-symbolic"),
            show_hidden,
            Action::ToggleShowHidden,
        ),
    );
    v.push(
        check(
            "list-directories-first",
            Some("folder-symbolic"),
            folders_first,
            Action::ToggleFoldersFirst,
        ),
    );
    v.push(check("show-details", Some("info-outline-symbolic"), show_details, Action::Preview));
    v.push(MenuItem::Divider);
    v.push(maybe("gallery-preview", "image-round-symbolic", Action::Gallery, gallery));
    assert(v@ =~= display_items(show_hidden, folders_first, show_details, gallery));
    v
}

/// The icon of the view menu of a dialog.
pub open spec fn view_icon(view: ViewMode) -> &'static str {
    match view {
        ViewMode::Grid => "view-grid-symbolic",
        ViewMode::List => "view-list-symbolic",
    }
}

/// The icon of the sort menu of a dialog.
pub open spec fn sort_icon(ascending: bool) -> &'static str {
    if ascending {
        "view-sort-ascending-symbolic"
    } else {
        "view-sort-descending-symbolic"
    }
}

/// The current sort of a tab.
pub open spec fn current_sort(tab: Tab) -> (HeadingOptions, bool) {
    (tab.sort_name, tab.sort_direction)
}

/// The menu bar of a file chooser dialog: the view, the sort, and the rest.
pub fn dialog_menu(tab: &Tab, key_binds: &Vec<KeyBinding>, show_details: bool) -> (r: Vec<
    MenuTree,
>)
    ensures
        r@.len() == 3,
        is_tree(
            r@[0],
            MenuRoot::Icon(view_icon(tab.config.view)),
            view_items(tab.config.view == ViewMode::Grid, tab.config.view == ViewMode::List),
            key_binds@,
        ),
        is_tree(
            r@[1],
            MenuRoot::Icon(sort_icon(tab.sort_direction)),
            sort_items(Some(current_sort(*tab)), tab.location == Location::Trash),
            key_binds@,
        ),
        is_tree(
            r@[2],
            MenuRoot::Icon("view-more-symbolic"),
            zoom_items() + display_items(
                tab.config.show_hidden,
                tab.config.folders_first,
                show_details,
                selection_spec(tab_items(*tab)).selected_gallery > 0,
            ),
            key_binds@,
        ),
{
    let s = tab_selection(tab);
    let in_trash = matches!(tab.location, Location::Trash);
    let view_root = match tab.config.view {
        ViewMode::Grid => "view-grid-symbolic",
        ViewMode::List => "view-list-symbolic",
    };
    let sort_root = if tab.sort_direction {
        "view-sort-ascending-symbolic"
    } else {
        "view-sort-descending-symbolic"
    };
    let views = view_menu(
        matches!(tab.config.view, ViewMode::Grid),
        matches!(tab.config.view, ViewMode::List),
    );
    let sorts = sort_menu(Some((tab.sort_name, tab.sort_direction)), in_trash);
    let mut more = zoom_menu();
    more.append(
        &mut display_menu(
            tab.config.show_hidden,
            tab.config.folders_first,
            show_details,
            s.selected_gallery > 0,
        ),
    );
    let mut r: Vec<MenuTree> = Vec::new();
    r.push(MenuTree { root: MenuRoot::Icon(view_root), items: with_keys(&views, key_binds) });
    r.push(MenuTree { root: MenuRoot::Icon(sort_root), items: with_keys(&sorts, key_binds) });
    r.push(
        MenuTree { root: MenuRoot::Icon("view-more-symbolic"), items: with_keys(&more, key_binds) },
    );
    r
}

/// The tab, if any.
pub open spec fn opt_tab(tab_opt: Option<&Tab>) -> Option<Tab> {
    match tab_opt {
        Some(t) => Some(*t),
        None => None,
    }
}

/// The selection of the tab; nothing where there is no tab.
pub open spec fn bar_selection(tab: Option<Tab>) -> Selection {
    match tab {
        Some(t) => selection_spec(tab_items(t)),
        None => Selection {
            selected: 0,
            selected_dir: 0,
            selected_gallery: 0,
            trash_only: false,
            desktop_entry: None,
        },
    }
}

/// The items of the file menu.
pub open spec fn file_items(s: Selection) -> Seq<MenuItem<Action>> {
    seq![
        plain_button("new-tab", "tab-new-filled-symbolic", Action::TabNew),
        plain_button("new-window", "edit-copy-symbolic", Action::WindowNew),
        plain_button("new-folder", "folder-new-symbolic", Action::NewFolder),
        plain_button("new-file", "paper-symbolic", Action::NewFile),
        optional(
            "open",
            "document-open-symbolic",
            Action::Open,
            (s.selected > 0 && s.selected_dir == 0) || (s.selected_dir == 1 && s.selected == 1),
        ),
        optional("open-with", "external-link-symbolic", Action::OpenWith, s.selected == 1),
        MenuItem::Divider,
        optional("rename", "edit-symbolic", Action::Rename, s.selected > 0),
        MenuItem::Divider,
        optional("add-to-sidebar", "dock-left-symbolic", Action::AddToSidebar, s.selected > 0),
        MenuItem::Divider,
        optional("move-to-trash", "user-trash-symbolic", Action::MoveToTrash, s.selected > 0),
        MenuItem::Divider,
        plain_button("close-tab", "cross-small-square-filled-symbolic", Action::TabClose),
        plain_button("quit", "arrow-into-box-symbolic", Action::WindowClose),
    ]
}

fn file_menu(s: &Selection) -> (r: Vec<MenuItem<Action>>)
    ensures
        r@ == file_items(*s),
{
    let any = s.selected > 0;
    let mut v: Vec<MenuItem<Action>> = Vec::new();
    v.push(plain("new-tab", "tab-new-filled-symbolic", Action::TabNew));
    v.push(plain("new-window", "edit-copy-symbolic", Action::WindowNew));
    v.push(plain("new-folder", "folder-new-symbolic", Action::NewFolder));
    v.push(plain("new-file", "paper-symbolic", Action::NewFile));
    v.push(
        maybe(
            "open",
            "document-open-symbolic",
            Action::Open,
            (s.selected > 0 && s.selected_dir == 0) || (s.selected_dir == 1 && s.selected == 1),
        ),
    );
    v.push(maybe("open-with", "external-link-symbolic", Action::OpenWith, s.selected == 1));
    v.push(MenuItem::Divider);
    v.push(maybe("rename", "edit-symbolic", Action::Rename, any));
    v.push(MenuItem::Divider);
    v.push(maybe("add-to-sidebar", "dock-left-symbolic", Action::AddToSidebar, any));
    v.push(MenuItem::Divider);
    v.push(maybe("move-to-trash", "user-trash-symbolic", Action::MoveToTrash, any));
    v.push(MenuItem::Divider);
    v.push(plain("close-tab", "cross-small-square-filled-symbolic", Action::TabClose));
    v.push(plain("quit", "arrow-into-box-symbolic", Action::WindowClose));
    assert(v@ =~= file_items(*s));
    v
}

/// The items of the edit menu.
pub open spec fn edit_items(s: Selection) -> Seq<MenuItem<Action>> {
    seq![
        optional("cut", "cut-symbolic", Action::Cut, s.selected > 0),
        optional("copy", "copy-symbolic", Action::Copy, s.selected > 0),
        optional("paste", "clipboard-symbolic", Action::Paste, s.selected > 0),
        plain_button("select-all", "edit-select-all-symbolic", Action::SelectAll),
        MenuItem::Divider,
        plain_button("history", "history-undo-symbolic", Action::EditHistory),
    ]
}

fn edit_menu(s: &Selection) -> (r: Vec<MenuItem<Action>>)
    ensures
        r@ == edit_items(*s),
{
    let any = s.selected > 0;
    let mut v: Vec<MenuItem<Action>> = Vec::new();
    v.push(maybe("cut", "cut-symbolic", Action::Cut, any));
    v.push(maybe("copy", "copy-symbolic", Action::Copy, any));
    v.push(maybe("paste", "clipboard-symbolic", Action::Paste, any));
    v.push(plain("select-all", "edit-select-all-symbolic", Action::SelectAll));
    v.push(MenuItem::Divider);
    v.push(plain("history", "history-undo-symbolic", Action::EditHistory));
    assert(v@ =~= edit_items(*s));
    v
}

/// The settings and about items that close the view menu.
pub open spec fn app_items() -> Seq<MenuItem<Action>> {
    seq![
        MenuItem::Divider,
        plain_button("menu-settings", "settings-symbolic", Action::Settings),
        MenuItem::Divider,
        plain_button("menu-about", "info-outline-symbolic", Action::About),
    ]
}

fn app_menu() -> (r: Vec<MenuItem<Action>>)
    ensures
        r@ == app_items(),
{
    let mut v: Vec<MenuItem<Action>> = Vec::new();
    v.push(MenuItem::Divider);
    v.push(plain("menu-settings", "settings-symbolic", Action::Settings));
    v.push(MenuItem::Divider);
    v.push(plain("menu-about", "info-outline-symbolic", Action::About));
    assert(v@ =~= app_items());
    v
}

/// The items of the view menu of the menu bar.
pub open spec fn view_bar_items(tab: Option<Tab>, show_details: bool) -> Seq<MenuItem<Action>> {
    zoom_items() + view_items(
        tab matches Some(t) && t.config.view == ViewMode::Grid,
        tab matches Some(t) && t.config.view == ViewMode::List,
    ) + seq![MenuItem::Divider] + display_items(
        tab matches Some(t) && t.config.show_hidden,
        tab matches Some(t) && t.config.folders_first,
        show_details,
        bar_selection(tab).selected_gallery > 0,
    ) + app_items()
}

/// The menu bar of the application window, for the current tab if there is
/// one: the file, edit, view and sort menus.
pub fn menu_bar(tab_opt: Option<&Tab>, config: &Config, key_binds: &Vec<KeyBinding>) -> (r: Vec<
    MenuTree,
>)
    ensures
        r@.len() == 4,
        is_tree(
            r@[0],
            MenuRoot::Title("file"),
            file_items(bar_selection(opt_tab(tab_opt))),
            key_binds@,
        ),
        is_tree(
            r@[1],
            MenuRoot::Title("edit"),
            edit_items(bar_selection(opt_tab(tab_opt))),
            key_binds@,
        ),
        is_tree(
            r@[2],
            MenuRoot::Title("view"),
            view_bar_items(opt_tab(tab_opt), config.show_details),
            key_binds@,
        ),
        is_tree(
            r@[3],
            MenuRoot::Title("sort"),
            sort_items(
                match tab_opt {
                    Some(t) => Some(current_sort(*t)),
                    None => None,
                },
                tab_opt matches Some(t) && t.location == Location::Trash,
            ),
            key_binds@,
        ),
{
    let s = match tab_opt {
        Some(tab) => tab_selection(tab),
        None => Selection {
            selected: 0,
            selected_dir: 0,
            selected_gallery: 0,
            trash_only: false,
            desktop_entry: None,
        },
    };
    let (grid, list, show_hidden, folders_first, current, in_trash) = match tab_opt {
        Some(tab) => (
            matches!(tab.config.view, ViewMode::Grid),
            matches!(tab.config.view, ViewMode::List),
            tab.config.show_hidden,
            tab.config.folders_first,
            Some((tab.sort_name, tab.sort_direction)),
            matches!(tab.location, Location::Trash),
        ),
        None => (false, false, false, false, None, false),
    };
    let mut view = zoom_menu();
    view.append(&mut view_menu(grid, list));
    view.push(MenuItem::Divider);
    assert(view@ =~= zoom_items() + view_items(grid, list) + seq![MenuItem::Divider]);
    view.append(
        &mut display_menu(show_hidden, folders_first, config.show_details, s.selected_gallery > 0),
    );
    view.append(&mut app_menu());
    let sorts = sort_menu(current, in_trash);
    let mut r: Vec<MenuTree> = Vec::new();
    r.push(MenuTree { root: MenuRoot::Title("file"), items: with_keys(&file_menu(&s), key_binds) });
    r.push(MenuTree { root: MenuRoot::Title("edit"), items: with_keys(&edit_menu(&s), key_binds) });
    r.push(MenuTree { root: MenuRoot::Title("view"), items: with_keys(&view, key_binds) });
    r.push(MenuTree { root: MenuRoot::Title("sort"), items: with_keys(&sorts, key_binds) });
    r
}

} // verus!
