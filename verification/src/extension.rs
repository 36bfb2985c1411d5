use vstd::prelude::*;
use vstd::string::StrSliceExecFns;
use vstd::string::StringExecFns;
use crate::parsed::segment_views;
use crate::parsed::UrlParts;

verus! {

/// The extension under which a script is stored when its URL shows none:
/// that of the engine's own scripts.
pub open spec fn default_extension() -> Seq<char> {
    "js"@
}

/// `at` is where the extension of `name` begins: the last dot of the name,
/// and not its first character. A name that is all extension, such as
/// `.hidden`, has none.
pub open spec fn splits_at(name: Seq<char>, at: int) -> bool {
    &&& 0 < at < name.len()
    &&& name[at] == '.'
    &&& forall|j: int| at < j < name.len() ==> name[j] != '.'
}

/// What follows the last dot of a file name, where the name has one that is
/// not its first character.
pub open spec fn file_extension(name: Seq<char>) -> Option<Seq<char>> {
    if exists|at: int| splits_at(name, at) {
        let at = choose|at: int| splits_at(name, at);
        Some(name.subrange(at + 1, name.len() as int))
    } else {
        None
    }
}

/// The file name that a path ends in: its last segment that is not empty,
/// so that slashes at the end of the path do not count.
pub open spec fn last_named(segments: Seq<Seq<char>>) -> Option<Seq<char>>
    decreases segments.len(),
{
    if segments.len() == 0 {
        None
    } else if segments.last().len() > 0 {
        Some(segments.last())
    } else {
        last_named(segments.drop_last())
    }
}

/// The extension for a download from a URL with this path: that of the file
/// name it ends in, or the default where there is none.
pub open spec fn extension_for(segments: Option<Seq<Seq<char>>>) -> Seq<char> {
    match segments {
        Some(s) => match last_named(s) {
            Some(name) => match file_extension(name) {
                Some(e) => e,
                None => default_extension(),
            },
            None => default_extension(),
        },
        None => default_extension(),
    }
}

/// A name has at most one place where its extension begins.
pub proof fn lemma_split_unique(name: Seq<char>, a: int, b: int)
    requires
        splits_at(name, a),
        splits_at(name, b),
    ensures
        a == b,
{
    if a < b {
        assert(name[b] != '.');
    }
    if b < a {
        assert(name[a] != '.');
    }
}

/// Finds where the extension of the name begins, reading from its end.
fn extension_start(name: &str) -> (r: Option<usize>)
    ensures
        match r {
            Some(at) => splits_at(name@, at as int),
            None => forall|k: int| !splits_at(name@, k),
        },
{
    let n = name.unicode_len();
    let mut end: usize = n;
    while end > 0 && name.get_char(end - 1) != '.'
        invariant
            end <= n,
            n == name@.len(),
            forall|j: int| end <= j < n ==> name@[j] != '.',
        decreases end,
    {
        end -= 1;
    }
    if end >= 2 {
        Some(end - 1)
    } else {
        proof {
            assert forall|k: int| !splits_at(name@, k) by {
                if splits_at(name@, k) {
                    if k >= end {
                        assert(name@[k] != '.');
                    }
                }
            }
        }
        None
    }
}

/// The extension of the file name, if it has one.
pub fn extension_of(name: &str) -> (r: Option<String>)
    ensures
        match r {
            Some(e) => file_extension(name@) == Some(e@),
            None => file_extension(name@).is_none(),
        },
{
    let n = name.unicode_len();
    match extension_start(name) {
        Some(at) => {
            proof {
                lemma_split_unique(name@, at as int, choose|k: int| splits_at(name@, k));
            }
            Some(String::from_str(name.substring_char(at + 1, n)))
        },
        None => None,
    }
}

/// The name without its extension and the dot before it.
pub open spec fn file_stem(name: Seq<char>) -> Seq<char> {
    if exists|at: int| splits_at(name, at) {
        name.subrange(0, choose|at: int| splits_at(name, at))
    } else {
        name
    }
}

/// The name with its extension replaced by another, or taken away where the
/// other is empty.
pub open spec fn renamed(name: Seq<char>, extension: Seq<char>) -> Seq<char> {
    if extension.len() == 0 {
        file_stem(name)
    } else {
        file_stem(name) + "."@ + extension
    }
}

/// The name under which a download is kept: the stem of the temporary
/// file's name, which is what makes it unique, with the script's extension.
pub fn final_file_name(temp_name: &str, extension: &str) -> (r: String)
    ensures
        r@ == renamed(temp_name@, extension@),
{
    let mut out = match extension_start(temp_name) {
        Some(at) => {
            proof {
                lemma_split_unique(
                    temp_name@,
                    at as int,
                    choose|k: int| splits_at(temp_name@, k),
                );
            }
            String::from_str(temp_name.substring_char(0, at))
        },
        None => String::from_str(temp_name),
    };
    if extension.unicode_len() > 0 {
        out.append(".");
        out.append(extension);
    }
    out
}

/// The extension under which the download from a URL is stored, chosen from
/// the URL as the user gave it.
pub fn script_extension(parts: &UrlParts) -> (r: String)
    ensures
        r@ == extension_for(parts.segments_view()),
{
    match &parts.segments {
        Some(segments) => {
            let ghost views = segment_views(segments@);
            let mut end: usize = segments.len();
            proof {
                assert(views.subrange(0, end as int) =~= views);
            }
            while end > 0 && segments[end - 1].as_str().is_empty()
                invariant
                    end <= segments.len(),
                    views == segment_views(segments@),
                    last_named(views) == last_named(views.subrange(0, end as int)),
                decreases end,
            {
                proof {
                    assert(views.subrange(0, end as int).last() == segments@[end - 1]@);
                    assert(views.subrange(0, end as int).drop_last() =~= views.subrange(
                        0,
                        end - 1,
                    ));
                }
                end -= 1;
            }
            if end > 0 {
                let name = &segments[end - 1];
                proof {
                    assert(views.subrange(0, end as int).last() == name@);
                }
                match extension_of(name.as_str()) {
                    Some(e) => e,
                    None => String::from_str("js"),
                }
            } else {
                String::from_str("js")
            }
        },
        None => String::from_str("js"),
    }
}

/// A name made of a stem that is not empty, a dot and an extension without
/// a dot has that extension.
pub proof fn lemma_extension_of_suffixed_name(stem: Seq<char>, ext: Seq<char>)
    requires
        stem.len() > 0,
        forall|j: int| 0 <= j < ext.len() ==> ext[j] != '.',
    ensures
        file_extension(stem + seq!['.'] + ext) == Some(ext),
{
    let name = stem + seq!['.'] + ext;
    let at = stem.len() as int;
    assert(name[at] == '.');
    assert forall|j: int| at < j < name.len() implies name[j] != '.' by {
        assert(name[j] == ext[j - at - 1]);
    }
    assert(splits_at(name, at));
    let chosen = choose|k: int| splits_at(name, k);
    lemma_split_unique(name, at, chosen);
    assert(name.subrange(at + 1, name.len() as int) =~= ext);
}

/// A name without a dot has no extension, so a URL whose last segment has
/// none is stored under the default.
pub proof fn lemma_no_dot_no_extension(name: Seq<char>)
    requires
        forall|j: int| 0 <= j < name.len() ==> name[j] != '.',
    ensures
        file_extension(name).is_none(),
{
    assert forall|k: int| !splits_at(name, k) by {
        if splits_at(name, k) {
            assert(name[k] != '.');
        }
    }
}

/// A file renamed to an extension has that extension: whatever the name was,
/// as long as it is not empty, and whatever the extension, as long as it is
/// not empty and holds no dot.
pub proof fn lemma_renamed_has_extension(name: Seq<char>, extension: Seq<char>)
    requires
        name.len() > 0,
        extension.len() > 0,
        forall|j: int| 0 <= j < extension.len() ==> extension[j] != '.',
    ensures
        file_extension(renamed(name, extension)) == Some(extension),
{
    reveal_strlit(".");
    assert("."@ =~= seq!['.']);
    lemma_extension_of_suffixed_name(file_stem(name), extension);
}

/// A download from a URL whose last segment is a stem, a dot and an
/// extension is stored in a file with that extension, whatever the
/// temporary file was called.
pub proof fn lemma_stored_extension(
    segments: Seq<Seq<char>>,
    stem: Seq<char>,
    extension: Seq<char>,
    temp_name: Seq<char>,
)
    requires
        segments.len() > 0,
        segments.last() == stem + seq!['.'] + extension,
        stem.len() > 0,
        extension.len() > 0,
        forall|j: int| 0 <= j < extension.len() ==> extension[j] != '.',
        temp_name.len() > 0,
    ensures
        extension_for(Some(segments)) == extension,
        file_extension(renamed(temp_name, extension_for(Some(segments)))) == Some(extension),
{
    lemma_extension_of_suffixed_name(stem, extension);
    lemma_renamed_has_extension(temp_name, extension);
}

/// A download from a URL whose path holds no dot in the file name it ends
/// in, or ends in none, is stored in a file with the default extension,
/// whatever the temporary file was called.
pub proof fn lemma_stored_default(segments: Seq<Seq<char>>, temp_name: Seq<char>)
    requires
        last_named(segments) matches Some(name) ==> forall|j: int|
            0 <= j < name.len() ==> name[j] != '.',
        temp_name.len() > 0,
    ensures
        extension_for(Some(segments)) == default_extension(),
        file_extension(renamed(temp_name, extension_for(Some(segments)))) == Some(
            default_extension(),
        ),
{
    if last_named(segments) is Some {
        lemma_no_dot_no_extension(last_named(segments)->0);
    }
    reveal_strlit("js");
    lemma_renamed_has_extension(temp_name, default_extension());
}

/// Two temporary names without an extension that differ are kept under
/// final names that differ, whatever the extension given to both.
pub proof fn lemma_final_names_differ(a: Seq<char>, b: Seq<char>, extension: Seq<char>)
    requires
        file_extension(a).is_none(),
        file_extension(b).is_none(),
        a != b,
    ensures
        renamed(a, extension) != renamed(b, extension),
{
    let tail = "."@ + extension;
    if renamed(a, extension) == renamed(b, extension) {
        if extension.len() > 0 {
            assert(a + "."@ + extension =~= a + tail);
            assert(b + "."@ + extension =~= b + tail);
            assert((a + tail).len() == (b + tail).len());
            assert forall|i: int| 0 <= i < a.len() implies a[i] == b[i] by {
                assert((a + tail)[i] == a[i]);
                assert((b + tail)[i] == b[i]);
            }
        }
        assert(a =~= b);
    }
}

} // verus!
