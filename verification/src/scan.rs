//! Which files of a directory are media files: those whose extension, in
//! lower case, is on a fixed list.

use vstd::prelude::*;
use vstd::string::*;
use crate::command::same_text;
use crate::naming::{extension, extension_of};

verus! {

/// What `str::to_lowercase` makes of `text`.
pub uninterp spec fn lowercase_of(text: Seq<char>) -> Seq<char>;

/// `text` in lower case. Calls `str::to_lowercase`, whose result is
/// `lowercase_of` of the text.
#[verifier::external_body]
fn to_lowercase(text: &str) -> (r: String)
    ensures
        r@ == lowercase_of(text@),
{
    text.to_lowercase()
}

/// Whether `extension` is one of the extensions of media files.
pub open spec fn listed_extension(extension: Seq<char>) -> bool {
    ||| extension == "mp4"@
    ||| extension == "mov"@
    ||| extension == "mkv"@
    ||| extension == "avi"@
    ||| extension == "wmv"@
    ||| extension == "flv"@
    ||| extension == "webm"@
    ||| extension == "m4v"@
}

/// Whether the file named `name` is a media file: it has an extension, and
/// the extension in lower case is listed.
pub open spec fn media_file(name: Seq<char>) -> bool {
    match extension_of(name) {
        Some(e) => listed_extension(lowercase_of(e)),
        None => false,
    }
}

/// Whether `extension` is one of the extensions of media files.
pub fn is_listed_extension(extension: &str) -> (r: bool)
    ensures
        r == listed_extension(extension@),
{
    same_text(extension, "mp4") || same_text(extension, "mov") || same_text(extension, "mkv")
        || same_text(extension, "avi") || same_text(extension, "wmv") || same_text(
        extension,
        "flv",
    ) || same_text(extension, "webm") || same_text(extension, "m4v")
}

/// Whether the file named `name` is a media file.
pub fn is_media_file(name: &str) -> (r: bool)
    ensures
        r == media_file(name@),
{
    match extension(name) {
        Some(e) => {
            let lower = to_lowercase(e.as_str());
            is_listed_extension(lower.as_str())
        },
        None => false,
    }
}

/// The media files among `names`, in order.
pub open spec fn media_files(names: Seq<String>) -> Seq<Seq<char>>
    decreases names.len(),
{
    if names.len() == 0 {
        Seq::empty()
    } else if media_file(names.last()@) {
        media_files(names.drop_last()).push(names.last()@)
    } else {
        media_files(names.drop_last())
    }
}

/// The media files among `names`, in order.
pub fn select_media_files(names: &Vec<String>) -> (r: Vec<String>)
    ensures
        crate::naming::names_view(r@) == media_files(names@),
{
    let mut out: Vec<String> = Vec::new();
    let mut i: usize = 0;
    proof {
        assert(names@.take(0) =~= Seq::<String>::empty());
        assert(crate::naming::names_view(out@) =~= Seq::<Seq<char>>::empty());
    }
    while i < names.len()
        invariant
            i <= names@.len(),
            crate::naming::names_view(out@) == media_files(names@.take(i as int)),
        decreases names@.len() - i,
    {
        proof {
            assert(names@.take(i + 1).drop_last() =~= names@.take(i as int));
            assert(names@.take(i + 1).last() == names@[i as int]);
        }
        if is_media_file(names[i].as_str()) {
            let ghost before = crate::naming::names_view(out@);
            out.push(names[i].clone());
            assert(crate::naming::names_view(out@) =~= before.push(names@[i as int]@));
        }
        i = i + 1;
    }
    proof {
        assert(names@.take(names@.len() as int) =~= names@);
    }
    out
}

/// A file of a directory: its name and the time of its last change.
pub struct FileEntry {
    pub name: String,
    pub modified: u64,
}

/// Whether entry `i` of `entries` can be the newest output: it is a media
/// file and is not named `current`.
pub open spec fn candidate(entries: Seq<FileEntry>, current: Seq<char>, i: int) -> bool {
    0 <= i < entries.len() && entries[i].name@ != current && media_file(entries[i].name@)
}

/// The position of the media file in `entries` that was changed last, the
/// file named `current` left aside; of several changed at the same time, the
/// first. None where there is no such file.
pub fn find_newest_video_file(entries: &Vec<FileEntry>, current: &str) -> (r: Option<usize>)
    ensures
        match r {
            Some(k) => {
                &&& candidate(entries@, current@, k as int)
                &&& forall|i: int|
                    candidate(entries@, current@, i) ==> entries@[i].modified
                        <= entries@[k as int].modified
                &&& forall|i: int|
                    candidate(entries@, current@, i) && i < k ==> entries@[i].modified
                        < entries@[k as int].modified
            },
            None => forall|i: int| !candidate(entries@, current@, i),
        },
{
    let mut best: Option<usize> = None;
    let mut i: usize = 0;
    while i < entries.len()
        invariant
            i <= entries@.len(),
            match best {
                Some(k) => {
                    &&& k < i
                    &&& candidate(entries@, current@, k as int)
                    &&& forall|j: int|
                        candidate(entries@, current@, j) && j < i ==> entries@[j].modified
                            <= entries@[k as int].modified
                    &&& forall|j: int|
                        candidate(entries@, current@, j) && j < k ==> entries@[j].modified
                            < entries@[k as int].modified
                },
                None => forall|j: int| j < i ==> !candidate(entries@, current@, j),
            },
        decreases entries@.len() - i,
    {
        let entry = &entries[i];
        if !same_text(entry.name.as_str(), current) && is_media_file(entry.name.as_str()) {
            let newer = match best {
                Some(k) => entry.modified > entries[k].modified,
                None => true,
            };
            if newer {
                best = Some(i);
            }
        }
        i = i + 1;
    }
    best
}

} // verus!
