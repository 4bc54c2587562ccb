//! The context menu of a tab: what right-clicking on its items or on its
//! background offers.
use vstd::prelude::*;

use crate::action::Action;
use crate::archive::{archive_mime_names, parsed_texts, supported_archive_types};
use crate::menu::{items_of, keys_resolved, with_keys, KeyBinding, KeyedItem, Label, MenuItem, SortMark};
use crate::selection::{
    is_archive_item, selected_all_listed, selection_spec, tab_items, tab_selection, Selection,
};
use crate::tab::{dialog_saves, mode_multiple, DialogKind, HeadingOptions, Item, Location, Mode, Tab};

verus! {

/// A desktop entry file, as far as its menu needs it.
#[derive(Clone, Debug)]
pub struct DesktopEntry {
    /// The names of the entry's actions, in order.
    pub action_names: Vec<String>,
}

pub open spec fn when(c: bool, s: Seq<MenuItem<Action>>) -> Seq<MenuItem<Action>> {
    if c {
        s
    } else {
        seq![]
    }
}

pub open spec fn button_item(id: &'static str, icon: &'static str, a: Action) -> MenuItem<Action> {
    MenuItem::Button(Label::Message(id), Some(icon), a)
}

fn button(id: &'static str, icon: &'static str, a: Action) -> (r: MenuItem<Action>)
    ensures
        r == button_item(id, icon, a),
{
    MenuItem::Button(Label::Message(id), Some(icon), a)
}

pub open spec fn open_item() -> MenuItem<Action> {
    button_item("open", "document-open-symbolic", Action::Open)
}

pub open spec fn show_details_item() -> MenuItem<Action> {
    button_item("show-details", "info-outline-symbolic", Action::Preview)
}

pub open spec fn select_all_item() -> MenuItem<Action> {
    button_item("select-all", "edit-select-all-symbolic", Action::SelectAll)
}

pub open spec fn new_folder_item() -> MenuItem<Action> {
    button_item("new-folder", "folder-new-symbolic", Action::NewFolder)
}

pub open spec fn item_location_item() -> MenuItem<Action> {
    button_item("open-item-location", "symbolic-link-symbolic", Action::OpenItemLocation)
}

/// Whether "open" is offered: one directory alone, or files only.
pub open spec fn opens(s: Selection) -> bool {
    (s.selected_dir == 1 && s.selected == 1) || s.selected_dir == 0
}

pub open spec fn sort_mark(tab: Tab, column: HeadingOptions) -> SortMark {
    if tab.sort_name == column {
        if tab.sort_direction {
            SortMark::Down
        } else {
            SortMark::Up
        }
    } else {
        SortMark::NoMark
    }
}

pub open spec fn sort_toggle(tab: Tab, id: &'static str, column: HeadingOptions) -> MenuItem<
    Action,
> {
    MenuItem::Button(Label::Sort(id, sort_mark(tab, column)), None, Action::ToggleSort(column))
}

/// Sorting by name, by the given column, and by size.
pub open spec fn sort_toggles(tab: Tab, id: &'static str, column: HeadingOptions) -> Seq<
    MenuItem<Action>,
> {
    seq![
        sort_toggle(tab, "sort-by-name", HeadingOptions::Name),
        sort_toggle(tab, id, column),
        sort_toggle(tab, "sort-by-size", HeadingOptions::Size),
    ]
}

fn sort_toggle_item(tab: &Tab, id: &'static str, column: HeadingOptions) -> (r: MenuItem<Action>)
    ensures
        r == sort_toggle(*tab, id, column),
{
    let mark = if tab.sort_name == column {
        if tab.sort_direction {
            SortMark::Down
        } else {
            SortMark::Up
        }
    } else {
        SortMark::NoMark
    };
    MenuItem::Button(Label::Sort(id, mark), None, Action::ToggleSort(column))
}

fn push_sort_toggles(
    v: &mut Vec<MenuItem<Action>>,
    tab: &Tab,
    id: &'static str,
    column: HeadingOptions,
)
    ensures
        final(v)@ == old(v)@ + sort_toggles(*tab, id, column),
{
    v.push(sort_toggle_item(tab, "sort-by-name", HeadingOptions::Name));
    v.push(sort_toggle_item(tab, id, column));
    v.push(sort_toggle_item(tab, "sort-by-size", HeadingOptions::Size));
    assert(final(v)@ =~= old(v)@ + sort_toggles(*tab, id, column));
}

/// One item for each action of a desktop entry.
pub open spec fn entry_action_items(names: Seq<String>) -> Seq<MenuItem<Action>> {
    Seq::new(
        names.len(),
        |i: int| MenuItem::Button(Label::Text(names[i]), None, Action::ExecEntryAction(i as usize)),
    )
}

fn push_entry_actions(v: &mut Vec<MenuItem<Action>>, names: &Vec<String>)
    ensures
        final(v)@ == old(v)@ + entry_action_items(names@),
{
    let ghost start = v@;
    let mut i: usize = 0;
    while i < names.len()
        invariant
            i <= names.len(),
            v@ == start + entry_action_items(names@.subrange(0, i as int)),
        decreases names.len() - i,
    {
        v.push(MenuItem::Button(Label::Text(names[i].clone()), None, Action::ExecEntryAction(i)));
        assert(v@ =~= start + entry_action_items(names@.subrange(0, i + 1)));
        i = i + 1;
    }
    assert(names@.subrange(0, names.len() as int) =~= names@);
}

/// The sole selection is in the trash.
pub open spec fn trash_selection_items(trash_entries: usize) -> Seq<MenuItem<Action>> {
    seq![open_item()] + when(
        trash_entries > 0,
        seq![button_item("empty-trash", "user-trash-symbolic", Action::EmptyTrash)],
    )
}

/// The sole selection is a desktop entry with these actions.
pub open spec fn entry_selection_items(names: Seq<String>) -> Seq<MenuItem<Action>> {
    seq![open_item()] + entry_action_items(names) + seq![
        MenuItem::Divider,
        button_item("rename", "edit-symbolic", Action::Rename),
        button_item("cut", "cut-symbolic", Action::Cut),
        button_item("copy", "copy-symbolic", Action::Copy),
        button_item("move-to-trash", "user-trash-symbolic", Action::MoveToTrash),
    ]
}

pub open spec fn open_with_items(s: Selection) -> Seq<MenuItem<Action>> {
    when(
        s.selected == 1,
        seq![button_item("open-with", "external-link-symbolic", Action::OpenWith)] + when(
            s.selected_dir == 1,
            seq![button_item("open-in-terminal", "terminal-symbolic", Action::OpenTerminal)],
        ),
    )
}

pub open spec fn new_view_items(tab: Tab, s: Selection) -> Seq<MenuItem<Action>> {
    when(
        s.selected == s.selected_dir && tab.mode is App,
        seq![
            button_item("open-in-new-tab", "tab-new-filled-symbolic", Action::OpenInNewTab),
            button_item("open-in-new-window", "edit-copy-symbolic", Action::OpenInNewWindow),
        ],
    )
}

pub open spec fn edit_items() -> Seq<MenuItem<Action>> {
    seq![
        MenuItem::Divider,
        button_item("rename", "edit-symbolic", Action::Rename),
        button_item("cut", "cut-symbolic", Action::Cut),
        button_item("copy", "copy-symbolic", Action::Copy),
        MenuItem::Divider,
    ]
}

pub open spec fn archive_items(archives_only: bool) -> Seq<MenuItem<Action>> {
    when(
        archives_only,
        seq![button_item("extract-here", "archive-extract-symbolic", Action::ExtractHere)],
    ) + seq![
        button_item("compress", "package-x-generic-symbolic", Action::Compress),
        MenuItem::Divider,
        show_details_item(),
    ]
}

pub open spec fn closing_items(tab: Tab) -> Seq<MenuItem<Action>> {
    when(
        tab.mode is App,
        seq![
            MenuItem::Divider,
            button_item("add-to-sidebar", "dock-left-symbolic", Action::AddToSidebar),
        ],
    ) + seq![
        MenuItem::Divider,
        button_item("move-to-trash", "user-trash-symbolic", Action::MoveToTrash),
    ]
}

/// Items are selected in the application or on the desktop.
pub open spec fn app_selection_items(tab: Tab, s: Selection, archives_only: bool) -> Seq<
    MenuItem<Action>,
> {
    when(opens(s), seq![open_item()]) + open_with_items(s) + when(
        tab.location is Search,
        seq![item_location_item()],
    ) + new_view_items(tab, s) + edit_items() + archive_items(archives_only) + closing_items(tab)
}

/// Nothing is selected, in the application or on the desktop.
pub open spec fn app_background_items(tab: Tab) -> Seq<MenuItem<Action>> {
    seq![
        new_folder_item(),
        button_item("new-file", "paper-symbolic", Action::NewFile),
        button_item("open-in-terminal", "terminal-symbolic", Action::OpenTerminal),
        MenuItem::Divider,
    ] + when(mode_multiple(tab.mode), seq![select_all_item()]) + seq![
        button_item("paste", "clipboard-symbolic", Action::Paste),
    ] + when(
        tab.mode is Desktop,
        seq![
            MenuItem::Divider,
            button_item(
                "change-wallpaper",
                "image-symbolic",
                Action::CosmicSettingsWallpaper,
            ),
            button_item(
                "desktop-appearance",
                "brush-monitor-symbolic",
                Action::CosmicSettingsAppearance,
            ),
            button_item("display-settings", "display-symbolic", Action::CosmicSettingsDisplays),
        ],
    ) + seq![MenuItem::Divider] + sort_toggles(tab, "sort-by-modified", HeadingOptions::Modified)
        + when(
        tab.location is Desktop,
        seq![
            MenuItem::Divider,
            button_item(
                "desktop-view-options",
                "shell-overview-symbolic",
                Action::DesktopViewOptions,
            ),
        ],
    )
}

/// Leading items, then a divider unless there are none.
pub open spec fn then_divider(s: Seq<MenuItem<Action>>) -> Seq<MenuItem<Action>> {
    s + when(s.len() > 0, seq![MenuItem::Divider])
}

/// In a file chooser dialog.
pub open spec fn dialog_items(tab: Tab, kind: DialogKind, s: Selection) -> Seq<MenuItem<Action>> {
    if s.selected > 0 {
        when(opens(s), seq![open_item()]) + when(
            tab.location is Search,
            seq![item_location_item()],
        ) + seq![MenuItem::Divider, show_details_item()]
    } else {
        then_divider(
            when(dialog_saves(kind), seq![new_folder_item()]) + when(
                mode_multiple(tab.mode),
                seq![select_all_item()],
            ),
        ) + sort_toggles(tab, "sort-by-modified", HeadingOptions::Modified)
    }
}

/// On the network.
pub open spec fn network_items(tab: Tab, s: Selection) -> Seq<MenuItem<Action>> {
    if s.selected > 0 {
        when(opens(s), seq![open_item()])
    } else {
        then_divider(when(mode_multiple(tab.mode), seq![select_all_item()])) + sort_toggles(
            tab,
            "sort-by-modified",
            HeadingOptions::Modified,
        )
    }
}

/// In the trash.
pub open spec fn trash_items(tab: Tab, s: Selection) -> Seq<MenuItem<Action>> {
    then_divider(when(mode_multiple(tab.mode), seq![select_all_item()])) + if s.selected > 0 {
        seq![
            show_details_item(),
            MenuItem::Divider,
            button_item(
                "restore-from-trash",
                "empty-trash-bin-symbolic",
                Action::RestoreFromTrash,
            ),
        ]
    } else {
        sort_toggles(tab, "sort-by-trashed", HeadingOptions::TrashedOn)
    }
}

/// The context menu's items, from the tab, its selection, whether every
/// selected item is an archive that can be extracted, the number of items in
/// the trash, and the actions of the selected desktop entry.
pub open spec fn context_items(
    tab: Tab,
    s: Selection,
    archives_only: bool,
    trash_entries: usize,
    entry_actions: Option<Seq<String>>,
) -> Seq<MenuItem<Action>> {
    match tab.location {
        Location::Network => network_items(tab, s),
        Location::Trash => trash_items(tab, s),
        _ => match tab.mode {
            Mode::Dialog(kind) => dialog_items(tab, kind, s),
            _ => if s.trash_only {
                trash_selection_items(trash_entries)
            } else if entry_actions is Some {
                entry_selection_items(entry_actions->0)
            } else if s.selected > 0 {
                app_selection_items(tab, s, archives_only)
            } else {
                app_background_items(tab)
            },
        },
    }
}

/// Whether every selected item is an archive that can be extracted.
pub open spec fn selects_archives_only(items: Seq<Item>) -> bool {
    forall|k: int|
        0 <= k < items.len() && items[k].selected ==> is_archive_item(
            #[trigger] items[k],
            parsed_texts(archive_mime_names()),
        )
}

/// The actions of the selected desktop entry: those of `entry`, where the
/// selection is a desktop entry.
pub open spec fn entry_actions(s: Selection, entry: Option<DesktopEntry>) -> Option<Seq<String>> {
    match (s.desktop_entry, entry) {
        (Some(_), Some(e)) => Some(e.action_names@),
        _ => None,
    }
}

fn trash_selection_menu(trash_entries: usize) -> (r: Vec<MenuItem<Action>>)
    ensures
        r@ == trash_selection_items(trash_entries),
{
    let mut v: Vec<MenuItem<Action>> = Vec::new();
    v.push(button("open", "document-open-symbolic", Action::Open));
    if trash_entries > 0 {
        v.push(button("empty-trash", "user-trash-symbolic", Action::EmptyTrash));
    }
    assert(v@ =~= trash_selection_items(trash_entries));
    v
}

fn entry_selection_menu(names: &Vec<String>) -> (r: Vec<MenuItem<Action>>)
    ensures
        r@ == entry_selection_items(names@),
{
    let mut v: Vec<MenuItem<Action>> = Vec::new();
    v.push(button("open", "document-open-symbolic", Action::Open));
    push_entry_actions(&mut v, names);
    v.push(MenuItem::Divider);
    v.push(button("rename", "edit-symbolic", Action::Rename));
    v.push(button("cut", "cut-symbolic", Action::Cut));
    v.push(button("copy", "copy-symbolic", Action::Copy));
    v.push(button("move-to-trash", "user-trash-symbolic", Action::MoveToTrash));
    assert(v@ =~= entry_selection_items(names@));
    v
}

fn open_with_menu(s: &Selection) -> (r: Vec<MenuItem<Action>>)
    ensures
        r@ == open_with_items(*s),
{
    let mut v: Vec<MenuItem<Action>> = Vec::new();
    if s.selected == 1 {
        v.push(button("open-with", "external-link-symbolic", Action::OpenWith));
        if s.selected_dir == 1 {
            v.push(button("open-in-terminal", "terminal-symbolic", Action::OpenTerminal));
        }
    }
    assert(v@ =~= open_with_items(*s));
    v
}

fn new_view_menu(tab: &Tab, s: &Selection) -> (r: Vec<MenuItem<Action>>)
    ensures
        r@ == new_view_items(*tab, *s),
{
    let mut v: Vec<MenuItem<Action>> = Vec::new();
    if s.selected == s.selected_dir && matches!(tab.mode, Mode::App) {
        v.push(button("open-in-new-tab", "tab-new-filled-symbolic", Action::OpenInNewTab));
        v.push(button("open-in-new-window", "edit-copy-symbolic", Action::OpenInNewWindow));
    }
    assert(v@ =~= new_view_items(*tab, *s));
    v
}

fn edit_menu() -> (r: Vec<MenuItem<Action>>)
    ensures
        r@ == edit_items(),
{
    let mut v: Vec<MenuItem<Action>> = Vec::new();
    v.push(MenuItem::Divider);
    v.push(button("rename", "edit-symbolic", Action::Rename));
    v.push(button("cut", "cut-symbolic", Action::Cut));
    v.push(button("copy", "copy-symbolic", Action::Copy));
    v.push(MenuItem::Divider);
    assert(v@ =~= edit_items());
    v
}

fn archive_menu(archives_only: bool) -> (r: Vec<MenuItem<Action>>)
    ensures
        r@ == archive_items(archives_only),
{
    let mut v: Vec<MenuItem<Action>> = Vec::new();
    if archives_only {
        v.push(button("extract-here", "archive-extract-symbolic", Action::ExtractHere));
    }
    v.push(button("compress", "package-x-generic-symbolic", Action::Compress));
    v.push(MenuItem::Divider);
    v.push(button("show-details", "info-outline-symbolic", Action::Preview));
    assert(v@ =~= archive_items(archives_only));
    v
}

fn closing_menu(tab: &Tab) -> (r: Vec<MenuItem<Action>>)
    ensures
        r@ == closing_items(*tab),
{
    let mut v: Vec<MenuItem<Action>> = Vec::new();
    if matches!(tab.mode, Mode::App) {
        v.push(MenuItem::Divider);
        v.push(button("add-to-sidebar", "dock-left-symbolic", Action::AddToSidebar));
    }
    v.push(MenuItem::Divider);
    v.push(button("move-to-trash", "user-trash-symbolic", Action::MoveToTrash));
    assert(v@ =~= closing_items(*tab));
    v
}

fn app_selection_menu(tab: &Tab, s: &Selection, archives_only: bool) -> (r: Vec<
    MenuItem<Action>,
>)
    ensures
        r@ == app_selection_items(*tab, *s, archives_only),
{
    let mut v: Vec<MenuItem<Action>> = Vec::new();
    if (s.selected_dir == 1 && s.selected == 1) || s.selected_dir == 0 {
        v.push(button("open", "document-open-symbolic", Action::Open));
    }
    assert(v@ =~= when(opens(*s), seq![open_item()]));
    v.append(&mut open_with_menu(s));
    let mut located: Vec<MenuItem<Action>> = Vec::new();
    if matches!(tab.location, Location::Search) {
        located.push(
            button("open-item-location", "symbolic-link-symbolic", Action::OpenItemLocation),
        );
    }
    assert(located@ =~= when(tab.location is Search, seq![item_location_item()]));
    v.append(&mut located);
    v.append(&mut new_view_menu(tab, s));
    v.append(&mut edit_menu());
    v.append(&mut archive_menu(archives_only));
    v.append(&mut closing_menu(tab));
    v
}

fn app_background_menu(tab: &Tab) -> (r: Vec<MenuItem<Action>>)
    ensures
        r@ == app_background_items(*tab),
{
    let mut v: Vec<MenuItem<Action>> = Vec::new();
    v.push(button("new-folder", "folder-new-symbolic", Action::NewFolder));
    v.push(button("new-file", "paper-symbolic", Action::NewFile));
    v.push(button("open-in-terminal", "terminal-symbolic", Action::OpenTerminal));
    v.push(MenuItem::Divider);
    let ghost p1 = seq![
        new_folder_item(),
        button_item("new-file", "paper-symbolic", Action::NewFile),
        button_item("open-in-terminal", "terminal-symbolic", Action::OpenTerminal),
        MenuItem::Divider,
    ];
    assert(v@ =~= p1);
    if tab.mode.multiple() {
        v.push(button("select-all", "edit-select-all-symbolic", Action::SelectAll));
    }
    v.push(button("paste", "clipboard-symbolic", Action::Paste));
    let ghost p2 = p1 + when(mode_multiple(tab.mode), seq![select_all_item()]) + seq![
        button_item("paste", "clipboard-symbolic", Action::Paste),
    ];
    assert(v@ =~= p2);
    if matches!(tab.mode, Mode::Desktop) {
        v.push(MenuItem::Divider);
        v.push(button("change-wallpaper", "image-symbolic", Action::CosmicSettingsWallpaper));
        v.push(
            button("desktop-appearance", "brush-monitor-symbolic", Action::CosmicSettingsAppearance),
        );
        v.push(button("display-settings", "display-symbolic", Action::CosmicSettingsDisplays));
    }
    let ghost p3 = p2 + when(
        tab.mode is Desktop,
        seq![
            MenuItem::Divider,
            button_item(
                "change-wallpaper",
                "image-symbolic",
                Action::CosmicSettingsWallpaper,
            ),
            button_item(
                "desktop-appearance",
                "brush-monitor-symbolic",
                Action::CosmicSettingsAppearance,
            ),
            button_item("display-settings", "display-symbolic", Action::CosmicSettingsDisplays),
        ],
    );
    assert(v@ =~= p3);
    v.push(MenuItem::Divider);
    push_sort_toggles(&mut v, tab, "sort-by-modified", HeadingOptions::Modified);
    let ghost p4 = p3 + seq![MenuItem::Divider] + sort_toggles(
        *tab,
        "sort-by-modified",
        HeadingOptions::Modified,
    );
    assert(v@ =~= p4);
    if matches!(tab.location, Location::Desktop) {
        v.push(MenuItem::Divider);
        v.push(
            button("desktop-view-options", "shell-overview-symbolic", Action::DesktopViewOptions),
        );
    }
    assert(v@ =~= app_background_items(*tab));
    v
}

/// Appends a divider unless `v` is empty.
fn push_divider_after(v: &mut Vec<MenuItem<Action>>)
    ensures
        final(v)@ == then_divider(old(v)@),
{
    if v.len() > 0 {
        v.push(MenuItem::Divider);
    }
    assert(final(v)@ =~= then_divider(old(v)@));
}

fn dialog_menu_items(tab: &Tab, kind: DialogKind, s: &Selection) -> (r: Vec<MenuItem<Action>>)
    ensures
        r@ == dialog_items(*tab, kind, *s),
{
    let mut v: Vec<MenuItem<Action>> = Vec::new();
    if s.selected > 0 {
        if (s.selected_dir == 1 && s.selected == 1) || s.selected_dir == 0 {
            v.push(button("open", "document-open-symbolic", Action::Open));
        }
        if matches!(tab.location, Location::Search) {
            v.push(
                button("open-item-location", "symbolic-link-symbolic", Action::OpenItemLocation),
            );
        }
        v.push(MenuItem::Divider);
        v.push(button("show-details", "info-outline-symbolic", Action::Preview));
    } else {
        if kind.save() {
            v.push(button("new-folder", "folder-new-symbolic", Action::NewFolder));
        }
        if tab.mode.multiple() {
            v.push(button("select-all", "edit-select-all-symbolic", Action::SelectAll));
        }
        assert(v@ =~= when(dialog_saves(kind), seq![new_folder_item()]) + when(
            mode_multiple(tab.mode),
            seq![select_all_item()],
        ));
        push_divider_after(&mut v);
        push_sort_toggles(&mut v, tab, "sort-by-modified", HeadingOptions::Modified);
    }
    assert(v@ =~= dialog_items(*tab, kind, *s));
    v
}

fn network_menu_items(tab: &Tab, s: &Selection) -> (r: Vec<MenuItem<Action>>)
    ensures
        r@ == network_items(*tab, *s),
{
    let mut v: Vec<MenuItem<Action>> = Vec::new();
    if s.selected > 0 {
        if (s.selected_dir == 1 && s.selected == 1) || s.selected_dir == 0 {
            v.push(button("open", "document-open-symbolic", Action::Open));
        }
    } else {
        if tab.mode.multiple() {
            v.push(button("select-all", "edit-select-all-symbolic", Action::SelectAll));
        }
        assert(v@ =~= when(mode_multiple(tab.mode), seq![select_all_item()]));
        push_divider_after(&mut v);
        push_sort_toggles(&mut v, tab, "sort-by-modified", HeadingOptions::Modified);
    }
    assert(v@ =~= network_items(*tab, *s));
    v
}

fn trash_menu_items(tab: &Tab, s: &Selection) -> (r: Vec<MenuItem<Action>>)
    ensures
        r@ == trash_items(*tab, *s),
{
    let mut v: Vec<MenuItem<Action>> = Vec::new();
    if tab.mode.multiple() {
        v.push(button("select-all", "edit-select-all-symbolic", Action::SelectAll));
    }
    assert(v@ =~= when(mode_multiple(tab.mode), seq![select_all_item()]));
    push_divider_after(&mut v);
    if s.selected > 0 {
        v.push(button("show-details", "info-outline-symbolic", Action::Preview));
        v.push(MenuItem::Divider);
        v.push(
            button("restore-from-trash", "empty-trash-bin-symbolic", Action::RestoreFromTrash),
        );
    } else {
        push_sort_toggles(&mut v, tab, "sort-by-trashed", HeadingOptions::TrashedOn);
    }
    assert(v@ =~= trash_items(*tab, *s));
    v
}

/// The context menu's items, without keys, from the tab, its selection,
/// whether every selected item is an archive that can be extracted, the number
/// of items in the trash, and the desktop entry that was read for the
/// selection.
pub fn context_menu_items(
    tab: &Tab,
    s: &Selection,
    archives_only: bool,
    trash_entries: usize,
    desktop_entry: &Option<DesktopEntry>,
) -> (r: Vec<MenuItem<Action>>)
    ensures
        r@ == context_items(
            *tab,
            *s,
            archives_only,
            trash_entries,
            entry_actions(*s, *desktop_entry),
        ),
{
    match tab.location {
        Location::Network => network_menu_items(tab, s),
        Location::Trash => trash_menu_items(tab, s),
        _ => match tab.mode {
            Mode::Dialog(kind) => dialog_menu_items(tab, kind, s),
            _ => {
                if s.trash_only {
                    trash_selection_menu(trash_entries)
                } else {
                    match (&s.desktop_entry, desktop_entry) {
                        (Some(_), Some(entry)) => entry_selection_menu(&entry.action_names),
                        _ => {
                            if s.selected > 0 {
                                app_selection_menu(tab, s, archives_only)
                            } else {
                                app_background_menu(tab)
                            }
                        },
                    }
                }
            },
        },
    }
}

/// The context menu of a tab, with the key bound to each item's action.
///
/// `trash_entries` is the number of items in the trash. `desktop_entry` is
/// the desktop entry file at the path that the tab's selection gives
/// (`Selection::desktop_entry`), where it could be read; it is not used
/// otherwise.
pub fn context_menu(
    tab: &Tab,
    key_binds: &Vec<KeyBinding>,
    trash_entries: usize,
    desktop_entry: &Option<DesktopEntry>,
) -> (r: Vec<KeyedItem>)
    ensures
        items_of(r@) == context_items(
            *tab,
            selection_spec(tab_items(*tab)),
            selects_archives_only(tab_items(*tab)),
            trash_entries,
            entry_actions(selection_spec(tab_items(*tab)), *desktop_entry),
        ),
        keys_resolved(r@, key_binds@),
{
    let s = tab_selection(tab);
    let archives_only = match &tab.items {
        Some(items) => {
            let archives = supported_archive_types();
            selected_all_listed(items, &archives)
        },
        None => true,
    };
    let items = context_menu_items(tab, &s, archives_only, trash_entries, desktop_entry);
    with_keys(&items, key_binds)
}

} // verus!
