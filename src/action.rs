use vstd::prelude::*;

use crate::tab::HeadingOptions;

verus! {

/// What the user asks for by picking a menu item.
#[derive(Clone, Copy, Debug, PartialEq, Eq, Structural)]
pub enum Action {
    About,
    AddToSidebar,
    Compress,
    Copy,
    CosmicSettingsAppearance,
    CosmicSettingsDisplays,
    CosmicSettingsWallpaper,
    Cut,
    DesktopViewOptions,
    EditHistory,
    EmptyTrash,
    /// Run the action of the selected desktop entry with this index.
    ExecEntryAction(usize),
    ExtractHere,
    Gallery,
    MoveToTrash,
    NewFile,
    NewFolder,
    Open,
    OpenInNewTab,
    OpenInNewWindow,
    OpenItemLocation,
    OpenTerminal,
    OpenWith,
    Paste,
    Preview,
    Rename,
    RestoreFromTrash,
    SelectAll,
    /// Sort by the column, ascending when the flag is set.
    SetSort(HeadingOptions, bool),
    Settings,
    TabClose,
    TabNew,
    TabViewGrid,
    TabViewList,
    ToggleFoldersFirst,
    ToggleShowHidden,
    /// Sort by the column, or flip the direction if it is already the sort column.
    ToggleSort(HeadingOptions),
    WindowClose,
    WindowNew,
    ZoomDefault,
    ZoomIn,
    ZoomOut,
}

/// What the user asks for from the menu of one ancestor in the location bar.
/// The index says which ancestor.
#[derive(Clone, Copy, Debug, PartialEq, Eq, Structural)]
pub enum LocationMenuAction {
    OpenInNewTab(usize),
    OpenInNewWindow(usize),
    Preview(usize),
    AddToSidebar(usize),
}

} // verus!
