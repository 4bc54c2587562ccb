use vstd::prelude::*;

verus! {

/// A column that the items of a tab can be sorted by.
#[derive(Clone, Copy, Debug, PartialEq, Eq, Structural)]
pub enum HeadingOptions {
    Name,
    Modified,
    Size,
    TrashedOn,
}

/// How a tab shows its items.
#[derive(Clone, Copy, Debug, PartialEq, Eq, Structural)]
pub enum ViewMode {
    Grid,
    List,
}

/// The purpose of a file chooser dialog.
#[derive(Clone, Copy, Debug, PartialEq, Eq, Structural)]
pub enum DialogKind {
    OpenFile,
    OpenFolder,
    OpenMultipleFiles,
    OpenMultipleFolders,
    SaveFile,
}

pub open spec fn dialog_saves(k: DialogKind) -> bool {
    k is SaveFile
}

pub open spec fn dialog_multiple(k: DialogKind) -> bool {
    k is OpenMultipleFiles || k is OpenMultipleFolders
}

impl DialogKind {
    /// Whether the dialog saves a file.
    pub fn save(&self) -> (r: bool)
        ensures
            r == dialog_saves(*self),
    {
        match self {
            DialogKind::SaveFile => true,
            _ => false,
        }
    }

    /// Whether more than one item may be chosen.
    pub fn multiple(&self) -> (r: bool)
        ensures
            r == dialog_multiple(*self),
    {
        match self {
            DialogKind::OpenMultipleFiles | DialogKind::OpenMultipleFolders => true,
            _ => false,
        }
    }
}

/// Where a tab is shown: the application window, the desktop, or a dialog.
#[derive(Clone, Copy, Debug, PartialEq, Eq, Structural)]
pub enum Mode {
    App,
    Desktop,
    Dialog(DialogKind),
}

pub open spec fn mode_multiple(m: Mode) -> bool {
    match m {
        Mode::App | Mode::Desktop => true,
        Mode::Dialog(k) => dialog_multiple(k),
    }
}

impl Mode {
    /// Whether more than one item may be selected.
    pub fn multiple(&self) -> (r: bool)
        ensures
            r == mode_multiple(*self),
    {
        match self {
            Mode::App | Mode::Desktop => true,
            Mode::Dialog(k) => k.multiple(),
        }
    }
}

/// The kind of place a tab shows.
#[derive(Clone, Copy, Debug, PartialEq, Eq, Structural)]
pub enum Location {
    Desktop,
    Path,
    Search,
    Recents,
    Network,
    Trash,
}

/// Where an item of a tab lives, as far as the menus care.
#[derive(Clone, Debug, PartialEq, Eq)]
pub enum ItemLocation {
    /// The item is in the trash.
    Trash,
    /// The item is a file or directory at this path.
    Path(String),
    /// Anywhere else, or unknown.
    Other,
}

/// One item shown in a tab.
#[derive(Clone, Debug)]
pub struct Item {
    pub selected: bool,
    pub is_dir: bool,
    /// Whether the item can be shown in the gallery preview.
    pub can_gallery: bool,
    pub location: ItemLocation,
    /// The item's MIME type as text, such as `application/zip`.
    pub mime: String,
}

/// Per-tab display settings.
#[derive(Clone, Copy, Debug)]
pub struct TabConfig {
    pub view: ViewMode,
    pub show_hidden: bool,
    pub folders_first: bool,
}

/// The state of a tab that the menus are built from.
#[derive(Clone, Debug)]
pub struct Tab {
    pub mode: Mode,
    pub location: Location,
    /// The items, once they have been read.
    pub items: Option<Vec<Item>>,
    pub sort_name: HeadingOptions,
    /// Whether the sort is ascending.
    pub sort_direction: bool,
    pub config: TabConfig,
}

/// Application-wide settings that the menus show.
#[derive(Clone, Copy, Debug)]
pub struct Config {
    pub show_details: bool,
}

} // verus!
