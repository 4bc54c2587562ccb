//! Menus as data: which items each menu holds, in order.
use vstd::prelude::*;

use crate::action::{Action, LocationMenuAction};

verus! {

/// The arrow shown after a sort item of the context menu.
#[derive(Clone, Copy, Debug, PartialEq, Eq, Structural)]
pub enum SortMark {
    /// The items are sorted by this column, ascending.
    Down,
    /// The items are sorted by this column, descending.
    Up,
    /// The items are sorted by another column.
    NoMark,
}

impl SortMark {
    /// The text shown for the mark.
    pub fn text(&self) -> (r: &'static str)
        ensures
            *self == SortMark::Down ==> r == "\u{2B07}",
            *self == SortMark::Up ==> r == "\u{2B06}",
            *self == SortMark::NoMark ==> r == "",
    {
        match self {
            SortMark::Down => "\u{2B07}",
            SortMark::Up => "\u{2B06}",
            SortMark::NoMark => "",
        }
    }
}

/// The text of a menu item.
#[derive(Debug, PartialEq, Eq)]
pub enum Label {
    /// A message of the translation catalogue, by its id.
    Message(&'static str),
    /// A message followed by a space and the mark.
    Sort(&'static str, SortMark),
    /// Text shown as it is.
    Text(String),
}

impl Label {
    /// A copy of the label.
    pub fn duplicate(&self) -> (r: Label)
        ensures
            r == *self,
    {
        match self {
            Label::Message(id) => Label::Message(id),
            Label::Sort(id, mark) => Label::Sort(id, *mark),
            Label::Text(t) => Label::Text(t.clone()),
        }
    }
}

/// One item of a menu, which sends an action of type `A` when picked.
#[derive(Debug, PartialEq, Eq)]
pub enum MenuItem<A> {
    /// A button with a label and an optional icon, by the icon's name.
    Button(Label, Option<&'static str>, A),
    /// A button that is shown but cannot be picked.
    ButtonDisabled(Label, Option<&'static str>, A),
    /// A button with a check mark, shown where the flag is set.
    CheckBox(Label, Option<&'static str>, bool, A),
    /// A line between groups of items.
    Divider,
}

impl MenuItem<Action> {
    /// A copy of the item.
    pub fn duplicate(&self) -> (r: MenuItem<Action>)
        ensures
            r == *self,
    {
        match self {
            MenuItem::Button(l, i, a) => MenuItem::Button(l.duplicate(), *i, *a),
            MenuItem::ButtonDisabled(l, i, a) => MenuItem::ButtonDisabled(l.duplicate(), *i, *a),
            MenuItem::CheckBox(l, i, c, a) => MenuItem::CheckBox(l.duplicate(), *i, *c, *a),
            MenuItem::Divider => MenuItem::Divider,
        }
    }
}

/// The action an item sends, if any.
pub open spec fn item_action(item: MenuItem<Action>) -> Option<Action> {
    match item {
        MenuItem::Button(_, _, a) => Some(a),
        MenuItem::ButtonDisabled(_, _, a) => Some(a),
        MenuItem::CheckBox(_, _, _, a) => Some(a),
        MenuItem::Divider => None,
    }
}

/// A key combination, as text, bound to an action.
#[derive(Clone, Debug)]
pub struct KeyBinding {
    pub key: String,
    pub action: Action,
}

pub open spec fn is_first_binding(binds: Seq<KeyBinding>, a: Action, k: int) -> bool {
    &&& 0 <= k < binds.len()
    &&& binds[k].action == a
    &&& forall|j: int| 0 <= j < k ==> binds[j].action != a
}

/// The key of the first binding of `a`; empty where `a` has none.
pub open spec fn key_text(binds: Seq<KeyBinding>, a: Action) -> Seq<char> {
    if exists|k: int| is_first_binding(binds, a, k) {
        binds[choose|k: int| is_first_binding(binds, a, k)].key@
    } else {
        seq![]
    }
}

/// The key shown beside an item.
pub open spec fn item_key(item: MenuItem<Action>, binds: Seq<KeyBinding>) -> Seq<char> {
    match item_action(item) {
        Some(a) => key_text(binds, a),
        None => seq![],
    }
}

/// The key bound to `action`, as text: that of the first binding of it, or an
/// empty string where there is none.
pub fn find_key(key_binds: &Vec<KeyBinding>, action: &Action) -> (r: String)
    ensures
        r@ == key_text(key_binds@, *action),
{
    let mut i: usize = 0;
    while i < key_binds.len()
        invariant
            i <= key_binds.len(),
            forall|j: int| 0 <= j < i ==> key_binds@[j].action != *action,
        decreases key_binds.len() - i,
    {
        if key_binds[i].action == *action {
            assert(is_first_binding(key_binds@, *action, i as int));
            let r = key_binds[i].key.clone();
            return r;
        }
        i = i + 1;
    }
    String::new()
}

/// A menu item with the key that is bound to its action.
#[derive(Debug)]
pub struct KeyedItem {
    pub item: MenuItem<Action>,
    pub key: String,
}

/// The items, without their keys.
pub open spec fn items_of(r: Seq<KeyedItem>) -> Seq<MenuItem<Action>> {
    r.map_values(|k: KeyedItem| k.item)
}

/// Each key is the one bound to its item's action.
pub open spec fn keys_resolved(r: Seq<KeyedItem>, binds: Seq<KeyBinding>) -> bool {
    forall|i: int| 0 <= i < r.len() ==> (#[trigger] r[i]).key@ == item_key(r[i].item, binds)
}

/// Gives each item the key bound to its action.
pub fn with_keys(items: &Vec<MenuItem<Action>>, key_binds: &Vec<KeyBinding>) -> (r: Vec<KeyedItem>)
    ensures
        items_of(r@) == items@,
        keys_resolved(r@, key_binds@),
{
    let mut r: Vec<KeyedItem> = Vec::new();
    let mut i: usize = 0;
    while i < items.len()
        invariant
            i <= items.len(),
            r@.len() == i,
            items_of(r@) == items@.subrange(0, i as int),
            keys_resolved(r@, key_binds@),
        decreases items.len() - i,
    {
        let item = &items[i];
        let key = match item {
            MenuItem::Button(_, _, a) => find_key(key_binds, a),
            MenuItem::ButtonDisabled(_, _, a) => find_key(key_binds, a),
            MenuItem::CheckBox(_, _, _, a) => find_key(key_binds, a),
            MenuItem::Divider => String::new(),
        };
        let ghost before = r@;
        let copy = item.duplicate();
        assert(copy == items@[i as int]);
        r.push(KeyedItem { item: copy, key });
        assert(items_of(r@) =~= items_of(before).push(items@[i as int]));
        assert(items_of(r@) =~= items@.subrange(0, i + 1));
        i = i + 1;
    }
    assert(items@.subrange(0, items.len() as int) =~= items@);
    r
}

/// What a menu of the menu bar opens from.
#[derive(Clone, Copy, Debug, PartialEq, Eq)]
pub enum MenuRoot {
    /// A title, by its message id.
    Title(&'static str),
    /// A button showing the named icon.
    Icon(&'static str),
}

/// One menu of a menu bar.
#[derive(Debug)]
pub struct MenuTree {
    pub root: MenuRoot,
    pub items: Vec<KeyedItem>,
}

/// A button that can be picked only where `enabled` holds.
pub open spec fn optional_button(
    label: Label,
    icon: Option<&'static str>,
    action: Action,
    enabled: bool,
) -> MenuItem<Action> {
    if enabled {
        MenuItem::Button(label, icon, action)
    } else {
        MenuItem::ButtonDisabled(label, icon, action)
    }
}

/// A button that can be picked only where `enabled` holds.
pub fn menu_button_optional(
    label: Label,
    icon: Option<&'static str>,
    action: Action,
    enabled: bool,
) -> (r: MenuItem<Action>)
    ensures
        r == optional_button(label, icon, action, enabled),
{
    if enabled {
        MenuItem::Button(label, icon, action)
    } else {
        MenuItem::ButtonDisabled(label, icon, action)
    }
}

pub open spec fn location_item(id: &'static str, a: LocationMenuAction) -> MenuItem<
    LocationMenuAction,
> {
    MenuItem::Button(Label::Message(id), None, a)
}

/// The items of the menu of the ancestor with the given index in the location
/// bar.
pub open spec fn location_menu_items(i: usize) -> Seq<MenuItem<LocationMenuAction>> {
    seq![
        location_item("open-in-new-tab", LocationMenuAction::OpenInNewTab(i)),
        location_item("open-in-new-window", LocationMenuAction::OpenInNewWindow(i)),
        MenuItem::Divider,
        location_item("show-details", LocationMenuAction::Preview(i)),
        MenuItem::Divider,
        location_item("add-to-sidebar", LocationMenuAction::AddToSidebar(i)),
    ]
}

/// The menu of one ancestor in the location bar.
pub fn location_context_menu(ancestor_index: usize) -> (r: Vec<MenuItem<LocationMenuAction>>)
    ensures
        r@ == location_menu_items(ancestor_index),
{
    let mut r: Vec<MenuItem<LocationMenuAction>> = Vec::new();
    r.push(
        MenuItem::Button(
            Label::Message("open-in-new-tab"),
            None,
            LocationMenuAction::OpenInNewTab(ancestor_index),
        ),
    );
    r.push(
        MenuItem::Button(
            Label::Message("open-in-new-window"),
            None,
            LocationMenuAction::OpenInNewWindow(ancestor_index),
        ),
    );
    r.push(MenuItem::Divider);
    r.push(
        MenuItem::Button(
            Label::Message("show-details"),
            None,
            LocationMenuAction::Preview(ancestor_index),
        ),
    );
    r.push(MenuItem::Divider);
    r.push(
        MenuItem::Button(
            Label::Message("add-to-sidebar"),
            None,
            LocationMenuAction::AddToSidebar(ancestor_index),
        ),
    );
    assert(r@ =~= location_menu_items(ancestor_index));
    r
}

} // verus!
