//! A cache of icon handles, keyed by icon name and size.
use vstd::prelude::*;

use crate::text::same_text;

verus! {

/// The size, in pixels, at which the bundled icons are preloaded.
pub const BUNDLED_SIZE: u16 = 14;

/// A key of the icon cache: an icon's name and its size in pixels.
#[derive(Clone, Copy, Debug, PartialEq, Eq, Hash)]
pub struct IconCacheKey {
    name: &'static str,
    size: u16,
}

/// How an icon is loaded.
#[derive(Clone, Copy, Debug, PartialEq, Eq)]
pub enum IconHandle {
    /// The symbolic icon bundled with the application under this name.
    Bundled(&'static str),
    /// The icon of the current theme with this name, at this size.
    Named(&'static str, u16),
}

/// An icon to show, at a size.
#[derive(Clone, Copy, Debug, PartialEq, Eq)]
pub struct Icon {
    pub handle: IconHandle,
    pub size: u16,
}

/// The icons that ship with the application, preloaded at [`BUNDLED_SIZE`].
pub open spec fn bundled_icon_names() -> Seq<&'static str> {
    seq![
        "tab-new-filled-symbolic",
        "value-increase-symbolic",
        "value-decrease-symbolic",
        "loupe-symbolic",
        "folder-symbolic",
        "folder-new-symbolic",
        "edit-copy-symbolic",
        "paper-symbolic",
        "document-open-symbolic",
        "arrow-into-box-symbolic",
        "edit-symbolic",
        "user-trash-symbolic",
        "cross-small-square-filled-symbolic",
        "external-link-symbolic",
        "cut-symbolic",
        "copy-symbolic",
        "clipboard-symbolic",
        "edit-select-all-symbolic",
        "history-undo-symbolic",
        "grid-symbolic",
        "list-large-symbolic",
        "view-conceal-symbolic",
        "settings-symbolic",
        "info-outline-symbolic",
        "dock-left-symbolic",
        "arrow-into-box-symbolic",
        "image-round-symbolic",
        "terminal-symbolic",
        "symbolic-link-symbolic",
        "package-x-generic-symbolic",
        "archive-extract-symbolic",
        "brush-monitor-symbolic",
        "display-symbolic",
        "shell-overview-symbolic",
        "empty-trash-bin-symbolic",
    ]
}

fn bundled_icon_name_list() -> (r: Vec<&'static str>)
    ensures
        r@ == bundled_icon_names(),
{
    let mut v: Vec<&'static str> = Vec::new();
    v.push("tab-new-filled-symbolic");
    v.push("value-increase-symbolic");
    v.push("value-decrease-symbolic");
    v.push("loupe-symbolic");
    v.push("folder-symbolic");
    v.push("folder-new-symbolic");
    v.push("edit-copy-symbolic");
    v.push("paper-symbolic");
    v.push("document-open-symbolic");
    v.push("arrow-into-box-symbolic");
    v.push("edit-symbolic");
    v.push("user-trash-symbolic");
    v.push("cross-small-square-filled-symbolic");
    v.push("external-link-symbolic");
    v.push("cut-symbolic");
    v.push("copy-symbolic");
    v.push("clipboard-symbolic");
    v.push("edit-select-all-symbolic");
    v.push("history-undo-symbolic");
    v.push("grid-symbolic");
    v.push("list-large-symbolic");
    v.push("view-conceal-symbolic");
    v.push("settings-symbolic");
    v.push("info-outline-symbolic");
    v.push("dock-left-symbolic");
    v.push("arrow-into-box-symbolic");
    v.push("image-round-symbolic");
    v.push("terminal-symbolic");
    v.push("symbolic-link-symbolic");
    v.push("package-x-generic-symbolic");
    v.push("archive-extract-symbolic");
    v.push("brush-monitor-symbolic");
    v.push("display-symbolic");
    v.push("shell-overview-symbolic");
    v.push("empty-trash-bin-symbolic");
    assert(v@ =~= bundled_icon_names());
    v
}

/// The cache holding the bundled icons of `names`, the later of two equal
/// names winning.
pub open spec fn preloaded(names: Seq<&'static str>) -> Map<(Seq<char>, u16), IconHandle>
    decreases names.len(),
{
    if names.len() == 0 {
        Map::empty()
    } else {
        preloaded(names.drop_last()).insert(
            (names.last()@, BUNDLED_SIZE),
            IconHandle::Bundled(names.last()),
        )
    }
}

/// The handle that a lookup of `name` at `size` gives in the cache `m`: the
/// cached one, else the theme's icon of that name and size.
pub open spec fn handle_in(m: Map<(Seq<char>, u16), IconHandle>, name: &'static str, size: u16) -> IconHandle {
    if m.contains_key((name@, size)) {
        m[(name@, size)]
    } else {
        IconHandle::Named(name, size)
    }
}

/// The cache after a lookup of `name` at `size`: a handle that was missing is
/// added.
pub open spec fn after_lookup(
    m: Map<(Seq<char>, u16), IconHandle>,
    name: &'static str,
    size: u16,
) -> Map<(Seq<char>, u16), IconHandle> {
    if m.contains_key((name@, size)) {
        m
    } else {
        m.insert((name@, size), IconHandle::Named(name, size))
    }
}

/// Memoizes icon handles by name and size.
pub struct IconCache {
    cache: Vec<(IconCacheKey, IconHandle)>,
}

spec fn key_of(e: (IconCacheKey, IconHandle)) -> (Seq<char>, u16) {
    (e.0.name@, e.0.size)
}

/// The map that a list of entries stands for: a later entry wins over an
/// earlier one of the same key.
spec fn entries_map(s: Seq<(IconCacheKey, IconHandle)>) -> Map<(Seq<char>, u16), IconHandle>
    decreases s.len(),
{
    if s.len() == 0 {
        Map::empty()
    } else {
        entries_map(s.drop_last()).insert(key_of(s.last()), s.last().1)
    }
}

impl View for IconCache {
    type V = Map<(Seq<char>, u16), IconHandle>;

    closed spec fn view(&self) -> Self::V {
        entries_map(self.cache@)
    }
}

/// Entries after index `i` that do not have key `k` leave its value as the
/// first `i` entries give it.
proof fn lemma_suffix_without_key(s: Seq<(IconCacheKey, IconHandle)>, i: int, k: (Seq<char>, u16))
    requires
        0 <= i <= s.len(),
        forall|j: int| i <= j < s.len() ==> key_of(#[trigger] s[j]) != k,
    ensures
        entries_map(s).contains_key(k) == entries_map(s.subrange(0, i)).contains_key(k),
        entries_map(s).contains_key(k) ==> entries_map(s)[k] == entries_map(s.subrange(0, i))[k],
    decreases s.len(),
{
    if i == s.len() {
        assert(s.subrange(0, i) =~= s);
    } else {
        let t = s.drop_last();
        assert(key_of(s[s.len() - 1]) != k);
        assert(t.subrange(0, i) =~= s.subrange(0, i));
        lemma_suffix_without_key(t, i, k);
    }
}

/// Which names the preloaded cache holds, and what for.
proof fn lemma_preloaded(names: Seq<&'static str>, n: Seq<char>, size: u16)
    ensures
        preloaded(names).contains_key((n, size)) <==> (size == BUNDLED_SIZE && exists|i: int|
            0 <= i < names.len() && (#[trigger] names[i])@ == n),
        preloaded(names).contains_key((n, size)) ==> (preloaded(names)[(n, size)] matches IconHandle::Bundled(b) && b@ == n),
    decreases names.len(),
{
    if names.len() > 0 {
        let t = names.drop_last();
        lemma_preloaded(t, n, size);
        if exists|i: int| 0 <= i < t.len() && (#[trigger] t[i])@ == n {
            let i = choose|i: int| 0 <= i < t.len() && (#[trigger] t[i])@ == n;
            assert(names[i] == t[i]);
        }
        if exists|i: int| 0 <= i < names.len() && (#[trigger] names[i])@ == n {
            let i = choose|i: int| 0 <= i < names.len() && (#[trigger] names[i])@ == n;
            if i < t.len() {
                assert(t[i] == names[i]);
            }
        }
    }
}

impl IconCache {
    /// Looks `name` at `size` up.
    fn lookup(&self, name: &str, size: u16) -> (r: Option<IconHandle>)
        ensures
            r == if self@.contains_key((name@, size)) {
                Some(self@[(name@, size)])
            } else {
                None::<IconHandle>
            },
    {
        let ghost k = (name@, size);
        let ghost s = self.cache@;
        let mut i: usize = self.cache.len();
        while i > 0
            invariant
                s == self.cache@,
                k == (name@, size),
                i <= s.len(),
                forall|j: int| i <= j < s.len() ==> key_of(#[trigger] s[j]) != k,
            ensures
                i <= s.len(),
                forall|j: int| i <= j < s.len() ==> key_of(#[trigger] s[j]) != k,
                i > 0 ==> key_of(s[i - 1]) == k,
            decreases i,
        {
            let entry = &self.cache[i - 1];
            let same = entry.0.size == size && same_text(entry.0.name, name);
            assert(same == (key_of(s[i - 1]) == k));
            if same {
                break;
            }
            i = i - 1;
        }
        proof {
            lemma_suffix_without_key(s, i as int, k);
        }
        if i == 0 {
            None
        } else {
            proof {
                assert(s.subrange(0, i as int).drop_last() =~= s.subrange(0, i - 1));
            }
            Some(self.cache[i - 1].1)
        }
    }

    /// A cache holding the bundled icons, each at [`BUNDLED_SIZE`].
    pub fn new() -> (r: IconCache)
        ensures
            r@ == preloaded(bundled_icon_names()),
            forall|n: Seq<char>, size: u16|
                #[trigger] r@.contains_key((n, size)) <==> (size == BUNDLED_SIZE && exists|i: int|
                    0 <= i < bundled_icon_names().len() && (#[trigger] bundled_icon_names()[i])@
                        == n),
            forall|n: Seq<char>, size: u16|
                #[trigger] r@.contains_key((n, size)) ==> (r@[(n, size)] matches IconHandle::Bundled(b)
                    && b@ == n),
    {
        let names = bundled_icon_name_list();
        let mut cache: Vec<(IconCacheKey, IconHandle)> = Vec::new();
        let mut i: usize = 0;
        while i < names.len()
            invariant
                i <= names.len(),
                names@ == bundled_icon_names(),
                entries_map(cache@) == preloaded(names@.subrange(0, i as int)),
            decreases names.len() - i,
        {
            let ghost before = cache@;
            cache.push((IconCacheKey { name: names[i], size: BUNDLED_SIZE }, IconHandle::Bundled(names[i])));
            assert(cache@.drop_last() =~= before);
            assert(names@.subrange(0, i + 1).drop_last() =~= names@.subrange(0, i as int));
            i = i + 1;
        }
        assert(names@.subrange(0, names.len() as int) =~= names@);
        let r = IconCache { cache };
        assert forall|n: Seq<char>, size: u16| #[trigger] r@.contains_key((n, size)) <==> (size == BUNDLED_SIZE && exists|i: int|
                    0 <= i < bundled_icon_names().len() && (#[trigger] bundled_icon_names()[i])@
                        == n) by {
            lemma_preloaded(bundled_icon_names(), n, size);
        }
        assert forall|n: Seq<char>, size: u16| #[trigger] r@.contains_key((n, size)) implies (r@[(n, size)] matches IconHandle::Bundled(b)
                    && b@ == n) by {
            lemma_preloaded(bundled_icon_names(), n, size);
        }
        r
    }

    /// The handle of the icon `name` at `size`: the cached one, else the
    /// theme's icon of that name and size, which is cached from then on.
    pub fn get_handle(&mut self, name: &'static str, size: u16) -> (r: IconHandle)
        ensures
            r == handle_in(old(self)@, name, size),
            final(self)@ == after_lookup(old(self)@, name, size),
    {
        match self.lookup(name, size) {
            Some(h) => h,
            None => {
                let h = IconHandle::Named(name, size);
                let ghost before = self.cache@;
                self.cache.push((IconCacheKey { name, size }, h));
                assert(self.cache@.drop_last() =~= before);
                h
            },
        }
    }

    /// The icon `name` at `size`, its handle found as [`IconCache::get_handle`]
    /// finds it.
    pub fn get_icon(&mut self, name: &'static str, size: u16) -> (r: Icon)
        ensures
            r == (Icon { handle: handle_in(old(self)@, name, size), size }),
            final(self)@ == after_lookup(old(self)@, name, size),
    {
        let handle = self.get_handle(name, size);
        Icon { handle, size }
    }
}

/// A lookup caches what it returns: a second lookup of the same name and size
/// returns the same handle and leaves the cache as the first one left it.
pub proof fn lemma_lookup_repeats(m: Map<(Seq<char>, u16), IconHandle>, name: &'static str, size: u16)
    ensures
        handle_in(after_lookup(m, name, size), name, size) == handle_in(m, name, size),
        after_lookup(after_lookup(m, name, size), name, size) == after_lookup(m, name, size),
{
}

/// A lookup changes no handle that was cached, whatever its key: the bundled
/// icons are never replaced.
pub proof fn lemma_lookup_keeps_entries(
    m: Map<(Seq<char>, u16), IconHandle>,
    name: &'static str,
    size: u16,
    k: (Seq<char>, u16),
)
    requires
        m.contains_key(k),
    ensures
        after_lookup(m, name, size).contains_key(k),
        after_lookup(m, name, size)[k] == m[k],
{
}

} // verus!
