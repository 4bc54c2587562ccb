//! What the selection of a tab amounts to, as the menus need it.
use vstd::prelude::*;

use crate::archive::{is_listed_mime, listed, parsed_mime_text, texts};
use crate::tab::{Item, ItemLocation, Tab};
use crate::text::same_text;

verus! {

/// The extension of the path `p` as text, or `None` where it has none.
pub uninterp spec fn path_extension_of(p: Seq<char>) -> Option<Seq<char>>;

/// Relies on `std::path::Path::extension` (with `OsStr::to_str`): a function
/// of the path alone.
#[verifier::external_body]
fn path_extension(p: &str) -> (r: Option<String>)
    ensures
        match r {
            Some(e) => path_extension_of(p@) == Some(e@),
            None => path_extension_of(p@) is None,
        },
{
    std::path::Path::new(p).extension().and_then(|e| e.to_str()).map(|e| e.to_string())
}

pub open spec fn is_desktop_ext(ext: Option<Seq<char>>) -> bool {
    ext == Some("desktop"@)
}

/// Whether an extension is that of a desktop entry file.
pub fn is_desktop_extension(ext: &Option<String>) -> (r: bool)
    ensures
        r == match ext {
            Some(e) => is_desktop_ext(Some(e@)),
            None => is_desktop_ext(None),
        },
{
    match ext {
        Some(e) => same_text(e.as_str(), "desktop"),
        None => false,
    }
}

/// The items of a tab; none before they have been read.
pub open spec fn tab_items(tab: Tab) -> Seq<Item> {
    match tab.items {
        Some(v) => v@,
        None => seq![],
    }
}

pub open spec fn count_selected(items: Seq<Item>) -> nat
    decreases items.len(),
{
    if items.len() == 0 {
        0
    } else {
        count_selected(items.drop_last()) + if items.last().selected { 1nat } else { 0 }
    }
}

pub open spec fn count_selected_dirs(items: Seq<Item>) -> nat
    decreases items.len(),
{
    if items.len() == 0 {
        0
    } else {
        count_selected_dirs(items.drop_last()) + if items.last().selected
            && items.last().is_dir { 1nat } else { 0 }
    }
}

pub open spec fn count_selected_gallery(items: Seq<Item>) -> nat
    decreases items.len(),
{
    if items.len() == 0 {
        0
    } else {
        count_selected_gallery(items.drop_last()) + if items.last().selected
            && items.last().can_gallery { 1nat } else { 0 }
    }
}

pub open spec fn is_first_selected(items: Seq<Item>, k: int) -> bool {
    &&& 0 <= k < items.len()
    &&& items[k].selected
    &&& forall|j: int| 0 <= j < k ==> !items[j].selected
}

/// The index of the first selected item.
pub open spec fn first_selected(items: Seq<Item>) -> Option<int> {
    if exists|k: int| is_first_selected(items, k) {
        Some(choose|k: int| is_first_selected(items, k))
    } else {
        None
    }
}

/// Whether some selected item is in the trash.
pub open spec fn selects_trash(items: Seq<Item>) -> bool {
    exists|k: int| 0 <= k < items.len() && items[k].selected && items[k].location is Trash
}

/// The path of the selected desktop entry: the first selected item, where it
/// is the only one and its path has the desktop extension.
pub open spec fn desktop_entry_path(items: Seq<Item>) -> Option<String> {
    match first_selected(items) {
        Some(k) => match items[k].location {
            ItemLocation::Path(p) => if count_selected(items) == 1 && is_desktop_ext(
                path_extension_of(p@),
            ) {
                Some(p)
            } else {
                None
            },
            _ => None,
        },
        None => None,
    }
}

/// What the selection of a tab amounts to.
#[derive(Clone, Debug)]
pub struct Selection {
    /// How many items are selected.
    pub selected: usize,
    /// How many of them are directories.
    pub selected_dir: usize,
    /// How many of them can be shown in the gallery.
    pub selected_gallery: usize,
    /// Whether exactly one item is selected and it is in the trash.
    pub trash_only: bool,
    /// The path of the selected desktop entry, if that is all that is selected.
    pub desktop_entry: Option<String>,
}

/// The selection among `items`.
pub open spec fn selection_spec(items: Seq<Item>) -> Selection {
    Selection {
        selected: count_selected(items) as usize,
        selected_dir: count_selected_dirs(items) as usize,
        selected_gallery: count_selected_gallery(items) as usize,
        trash_only: selects_trash(items) && count_selected(items) == 1,
        desktop_entry: desktop_entry_path(items),
    }
}

proof fn lemma_counts_bounded(items: Seq<Item>)
    ensures
        count_selected_dirs(items) <= count_selected(items) <= items.len(),
        count_selected_gallery(items) <= count_selected(items),
    decreases items.len(),
{
    if items.len() > 0 {
        lemma_counts_bounded(items.drop_last());
    }
}

/// Sums up the selection among `items`.
pub fn selection_of(items: &Vec<Item>) -> (r: Selection)
    ensures
        r == selection_spec(items@),
        r.selected == count_selected(items@),
        r.selected_dir == count_selected_dirs(items@),
        r.selected_gallery == count_selected_gallery(items@),
{
    let ghost all = items@;
    let mut selected: usize = 0;
    let mut selected_dir: usize = 0;
    let mut selected_gallery: usize = 0;
    let mut in_trash = false;
    let mut first: Option<usize> = None;
    let mut candidate: Option<String> = None;
    let mut i: usize = 0;
    while i < items.len()
        invariant
            i <= items.len(),
            all == items@,
            selected == count_selected(all.subrange(0, i as int)),
            selected_dir == count_selected_dirs(all.subrange(0, i as int)),
            selected_gallery == count_selected_gallery(all.subrange(0, i as int)),
            in_trash == exists|k: int|
                0 <= k < i && all[k].selected && all[k].location is Trash,
            match first {
                Some(k) => is_first_selected(all, k as int) && k < i,
                None => forall|j: int| 0 <= j < i ==> !all[j].selected,
            },
            first is None ==> candidate is None,
            first matches Some(k) ==> candidate == match all[k as int].location {
                ItemLocation::Path(p) => if is_desktop_ext(path_extension_of(p@)) {
                    Some(p)
                } else {
                    None
                },
                _ => None,
            },
        decreases items.len() - i,
    {
        let ghost pre = all.subrange(0, i as int);
        let ghost next = all.subrange(0, i + 1);
        assert(next.drop_last() =~= pre);
        proof {
            lemma_counts_bounded(pre);
        }
        let item = &items[i];
        if item.selected {
            selected = selected + 1;
            if item.is_dir {
                selected_dir = selected_dir + 1;
            }
            if item.can_gallery {
                selected_gallery = selected_gallery + 1;
            }
            match &item.location {
                ItemLocation::Trash => {
                    in_trash = true;
                },
                ItemLocation::Path(p) => {
                    if first.is_none() {
                        let ext = path_extension(p.as_str());
                        if is_desktop_extension(&ext) {
                            candidate = Some(p.clone());
                        }
                    }
                },
                ItemLocation::Other => {},
            }
            if first.is_none() {
                first = Some(i);
            }
        }
        i = i + 1;
    }
    assert(all.subrange(0, items.len() as int) =~= all);
    let trash_only = in_trash && selected == 1;
    let desktop_entry = if selected == 1 {
        candidate
    } else {
        None
    };
    let r = Selection { selected, selected_dir, selected_gallery, trash_only, desktop_entry };
    proof {
        lemma_counts_bounded(all);
        match first {
            Some(k) => {
                assert(first_selected(all) == Some(k as int));
            },
            None => {
                assert(!exists|k: int| is_first_selected(all, k));
            },
        }
    }
    r
}

/// Sums up the selection of a tab; nothing is selected before its items have
/// been read.
pub fn tab_selection(tab: &Tab) -> (r: Selection)
    ensures
        r == selection_spec(tab_items(*tab)),
        r.selected == count_selected(tab_items(*tab)),
        r.selected_dir == count_selected_dirs(tab_items(*tab)),
        r.selected_gallery == count_selected_gallery(tab_items(*tab)),
{
    match &tab.items {
        Some(items) => selection_of(items),
        None => Selection {
            selected: 0,
            selected_dir: 0,
            selected_gallery: 0,
            trash_only: false,
            desktop_entry: None,
        },
    }
}

/// Whether the type of `item` is one of `archives`.
pub open spec fn is_archive_item(item: Item, archives: Seq<Seq<char>>) -> bool {
    match parsed_mime_text(item.mime@) {
        Some(t) => listed(t, archives),
        None => false,
    }
}

/// Whether every selected item is of one of the types of `archives`.
pub fn selected_all_listed(items: &Vec<Item>, archives: &Vec<String>) -> (r: bool)
    ensures
        r == forall|k: int|
            0 <= k < items@.len() && items@[k].selected ==> is_archive_item(
                #[trigger] items@[k],
                texts(archives@),
            ),
{
    let mut i: usize = 0;
    while i < items.len()
        invariant
            i <= items.len(),
            forall|k: int|
                0 <= k < i && items@[k].selected ==> is_archive_item(
                    #[trigger] items@[k],
                    texts(archives@),
                ),
        decreases items.len() - i,
    {
        if items[i].selected && !is_listed_mime(items[i].mime.as_str(), archives) {
            return false;
        }
        i = i + 1;
    }
    true
}

} // verus!
