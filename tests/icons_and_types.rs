use file_menus::archive::{is_listed_mime, mime_in_list, supported_archive_types};
use file_menus::icons::{IconCache, IconHandle, BUNDLED_SIZE};
use file_menus::selection::{is_desktop_extension, selection_of};
use file_menus::tab::{DialogKind, Item, ItemLocation, Mode};

#[test]
fn bundled_icons_are_preloaded() {
    let mut cache = IconCache::new();
    assert_eq!(cache.get_handle("folder-symbolic", BUNDLED_SIZE), IconHandle::Bundled("folder-symbolic"));
    assert_eq!(
        cache.get_handle("arrow-into-box-symbolic", 14),
        IconHandle::Bundled("arrow-into-box-symbolic")
    );
}

#[test]
fn other_icons_come_from_the_theme() {
    let mut cache = IconCache::new();
    assert_eq!(cache.get_handle("folder-symbolic", 16), IconHandle::Named("folder-symbolic", 16));
    assert_eq!(cache.get_handle("image-symbolic", 14), IconHandle::Named("image-symbolic", 14));
    let icon = cache.get_icon("image-symbolic", 14);
    assert_eq!(icon.handle, IconHandle::Named("image-symbolic", 14));
    assert_eq!(icon.size, 14);
}

#[test]
fn repeated_lookup_is_stable() {
    let mut cache = IconCache::new();
    let first = cache.get_handle("view-more-symbolic", 32);
    let second = cache.get_handle("view-more-symbolic", 32);
    assert_eq!(first, second);
    assert_eq!(cache.get_icon("copy-symbolic", 14).handle, IconHandle::Bundled("copy-symbolic"));
}

#[test]
fn archive_types_parse() {
    let types = supported_archive_types();
    assert_eq!(
        types,
        vec![
            "application/gzip",
            "application/x-compressed-tar",
            "application/x-tar",
            "application/zip",
            "application/x-bzip",
            "application/x-bzip-compressed-tar",
            "application/x-xz",
            "application/x-xz-compressed-tar",
        ]
    );
}

#[test]
fn archive_membership() {
    let types = supported_archive_types();
    assert!(is_listed_mime("application/zip", &types));
    assert!(is_listed_mime("Application/ZIP", &types));
    assert!(!is_listed_mime("text/plain", &types));
    assert!(!is_listed_mime("not a type", &types));
    assert!(!is_listed_mime("application/zip; foo=bar", &types));
    assert!(mime_in_list(&Some("application/x-tar".to_string()), &types));
    assert!(!mime_in_list(&None, &types));
}

#[test]
fn desktop_extension() {
    assert!(is_desktop_extension(&Some("desktop".to_string())));
    assert!(!is_desktop_extension(&Some("Desktop".to_string())));
    assert!(!is_desktop_extension(&None));
}

fn at(path: &str, selected: bool, is_dir: bool) -> Item {
    Item {
        selected,
        is_dir,
        can_gallery: !is_dir,
        location: ItemLocation::Path(path.to_string()),
        mime: "text/plain".to_string(),
    }
}

#[test]
fn selection_counts() {
    let items = vec![
        at("/a", true, true),
        at("/b", false, false),
        at("/c.txt", true, false),
        Item {
            selected: true,
            is_dir: false,
            can_gallery: false,
            location: ItemLocation::Trash,
            mime: "text/plain".to_string(),
        },
    ];
    let s = selection_of(&items);
    assert_eq!(s.selected, 3);
    assert_eq!(s.selected_dir, 1);
    assert_eq!(s.selected_gallery, 1);
    assert!(!s.trash_only);
    assert_eq!(s.desktop_entry, None);
}

#[test]
fn sole_desktop_entry() {
    let items = vec![at("/x/readme", false, false), at("/apps/editor.desktop", true, false)];
    assert_eq!(selection_of(&items).desktop_entry, Some("/apps/editor.desktop".to_string()));
    let two = vec![at("/apps/editor.desktop", true, false), at("/apps/b.desktop", true, false)];
    assert_eq!(selection_of(&two).desktop_entry, None);
    let hidden = vec![at("/apps/.desktop", true, false)];
    assert_eq!(selection_of(&hidden).desktop_entry, None);
}

#[test]
fn sole_trash_item() {
    let items = vec![Item {
        selected: true,
        is_dir: false,
        can_gallery: false,
        location: ItemLocation::Trash,
        mime: "text/plain".to_string(),
    }];
    assert!(selection_of(&items).trash_only);
}

#[test]
fn modes() {
    assert!(Mode::App.multiple());
    assert!(Mode::Desktop.multiple());
    assert!(!Mode::Dialog(DialogKind::OpenFile).multiple());
    assert!(Mode::Dialog(DialogKind::OpenMultipleFolders).multiple());
    assert!(DialogKind::SaveFile.save());
    assert!(!DialogKind::OpenFolder.save());
}
