//! The MIME types of archives that can be extracted.
use vstd::prelude::*;

verus! {

/// The text of the MIME type that `s` parses to, or `None` where it does not
/// parse.
pub uninterp spec fn parsed_mime_text(s: Seq<char>) -> Option<Seq<char>>;

/// Relies on `FromStr` for `mime::Mime` (re-exported by mime_guess), and on the
/// text of the parsed value as its `AsRef<str>` gives it: a function of the
/// input alone.
#[verifier::external_body]
fn parse_mime(s: &str) -> (r: Option<String>)
    ensures
        match r {
            Some(t) => parsed_mime_text(s@) == Some(t@),
            None => parsed_mime_text(s@) is None,
        },
{
    s.parse::<mime_guess::Mime>().ok().map(|m| m.as_ref().to_string())
}

/// The archive types that extraction supports, as written.
pub open spec fn archive_mime_names() -> Seq<Seq<char>> {
    seq![
        "application/gzip"@,
        "application/x-compressed-tar"@,
        "application/x-tar"@,
        "application/zip"@,
        "application/x-bzip"@,
        "application/x-bzip-compressed-tar"@,
        "application/x-xz"@,
        "application/x-xz-compressed-tar"@,
    ]
}

/// The parsed texts of those of `names` that parse, in order.
pub open spec fn parsed_texts(names: Seq<Seq<char>>) -> Seq<Seq<char>>
    decreases names.len(),
{
    if names.len() == 0 {
        seq![]
    } else {
        let rest = parsed_texts(names.drop_last());
        match parsed_mime_text(names.last()) {
            Some(t) => rest.push(t),
            None => rest,
        }
    }
}

pub open spec fn texts(v: Seq<String>) -> Seq<Seq<char>> {
    v.map_values(|s: String| s@)
}

/// Whether `t` is one of `list`.
pub open spec fn listed(t: Seq<char>, list: Seq<Seq<char>>) -> bool {
    list.contains(t)
}

fn archive_mime_name_list() -> (r: Vec<&'static str>)
    ensures
        r@.map_values(|s: &'static str| s@) == archive_mime_names(),
{
    let mut r: Vec<&'static str> = Vec::new();
    r.push("application/gzip");
    r.push("application/x-compressed-tar");
    r.push("application/x-tar");
    r.push("application/zip");
    r.push("application/x-bzip");
    r.push("application/x-bzip-compressed-tar");
    r.push("application/x-xz");
    r.push("application/x-xz-compressed-tar");
    assert(r@.map_values(|s: &'static str| s@) =~= archive_mime_names());
    r
}

/// The supported archive types, parsed; a name that does not parse is left
/// out.
pub fn supported_archive_types() -> (r: Vec<String>)
    ensures
        texts(r@) == parsed_texts(archive_mime_names()),
{
    let names = archive_mime_name_list();
    let ghost all = names@.map_values(|s: &'static str| s@);
    let mut r: Vec<String> = Vec::new();
    let mut i: usize = 0;
    while i < names.len()
        invariant
            i <= names.len(),
            all == names@.map_values(|s: &'static str| s@),
            texts(r@) == parsed_texts(all.subrange(0, i as int)),
        decreases names.len() - i,
    {
        let parsed = parse_mime(names[i]);
        assert(all.subrange(0, i + 1).drop_last() =~= all.subrange(0, i as int));
        match parsed {
            Some(t) => {
                r.push(t);
            },
            None => {},
        }
        assert(texts(r@) =~= parsed_texts(all.subrange(0, i + 1)));
        i = i + 1;
    }
    assert(all.subrange(0, names.len() as int) =~= all);
    r
}

fn text_listed(t: &String, list: &Vec<String>) -> (r: bool)
    ensures
        r == listed(t@, texts(list@)),
{
    let mut j: usize = 0;
    while j < list.len()
        invariant
            j <= list.len(),
            forall|k: int| 0 <= k < j ==> list@[k]@ != t@,
        decreases list.len() - j,
    {
        if list[j] == *t {
            assert(texts(list@)[j as int] == t@);
            return true;
        }
        j = j + 1;
    }
    false
}

/// Whether a parse result is one of the types of `list`.
pub fn mime_in_list(parsed: &Option<String>, list: &Vec<String>) -> (r: bool)
    ensures
        r == match parsed {
            Some(t) => listed(t@, texts(list@)),
            None => false,
        },
{
    match parsed {
        None => false,
        Some(t) => text_listed(t, list),
    }
}

/// Whether `mime` parses to one of the types of `archives`.
pub fn is_listed_mime(mime: &str, archives: &Vec<String>) -> (r: bool)
    ensures
        r == match parsed_mime_text(mime@) {
            Some(t) => listed(t, texts(archives@)),
            None => false,
        },
{
    let parsed = parse_mime(mime);
    mime_in_list(&parsed, archives)
}

} // verus!
