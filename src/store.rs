use vstd::prelude::*;

use crate::codec::{base64_of, decoded, is_base64, lemma_decode_encode};

verus! {

/// The photos directory as the photo commands see it: `None` while it does
/// not exist, else the content of each file in it by name.
pub open spec fn files_in(dir: Option<Map<Seq<char>, Seq<u8>>>) -> Map<Seq<char>, Seq<u8>> {
    match dir {
        Some(files) => files,
        None => Map::empty(),
    }
}

/// The photos directory after saving `name` from the base64 text `data`: the
/// directory is created first, then the decoded bytes replace whatever the
/// file held, where `data` is valid base64 (see `photo_to_save`).
pub open spec fn after_save(dir: Option<Map<Seq<char>, Seq<u8>>>, name: Seq<char>, data: Seq<char>) -> Option<
    Map<Seq<char>, Seq<u8>>,
> {
    if is_base64(data) {
        Some(files_in(dir).insert(name, decoded(data)))
    } else {
        Some(files_in(dir))
    }
}

/// What fetching `name` answers: the base64 text of the file's bytes (see
/// `fetched_photo`), or `None` for an error where the directory or the file is
/// missing. A fetch changes nothing.
pub open spec fn fetch_of(dir: Option<Map<Seq<char>, Seq<u8>>>, name: Seq<char>) -> Option<Seq<char>> {
    match dir {
        Some(files) => if files.contains_key(name) {
            Some(base64_of(files[name]))
        } else {
            None
        },
        None => None,
    }
}

/// Whether deleting `name` succeeds: the file must exist.
pub open spec fn delete_succeeds(dir: Option<Map<Seq<char>, Seq<u8>>>, name: Seq<char>) -> bool {
    dir matches Some(files) && files.contains_key(name)
}

/// The photos directory after deleting `name`. A delete does not create the
/// directory.
pub open spec fn after_delete(dir: Option<Map<Seq<char>, Seq<u8>>>, name: Seq<char>) -> Option<
    Map<Seq<char>, Seq<u8>>,
> {
    match dir {
        Some(files) => Some(files.remove(name)),
        None => None,
    }
}

/// Saving a photo with content `content` and then fetching it answers with a
/// text that decodes to exactly `content`.
pub proof fn law_fetch_after_save(dir: Option<Map<Seq<char>, Seq<u8>>>, name: Seq<char>, content: Seq<u8>)
    ensures
        fetch_of(after_save(dir, name, base64_of(content)), name) matches Some(t) && is_base64(t)
            && decoded(t) == content,
{
    lemma_decode_encode(content);
    let after = files_in(dir).insert(name, content);
    assert(after.contains_key(name) && after[name] == content);
}

/// Of two saves under one name, only the second content can be fetched.
pub proof fn law_second_save_wins(
    dir: Option<Map<Seq<char>, Seq<u8>>>,
    name: Seq<char>,
    first: Seq<u8>,
    second: Seq<u8>,
)
    ensures
        fetch_of(after_save(after_save(dir, name, base64_of(first)), name, base64_of(second)), name)
            matches Some(t) && decoded(t) == second,
{
    lemma_decode_encode(first);
    lemma_decode_encode(second);
    let once = files_in(dir).insert(name, first);
    let twice = once.insert(name, second);
    assert(twice.contains_key(name) && twice[name] == second);
}

/// Deleting a photo that is not there fails, and leaves the directory as it
/// was; in particular a missing directory stays missing.
pub proof fn law_delete_missing_fails(dir: Option<Map<Seq<char>, Seq<u8>>>, name: Seq<char>)
    requires
        !(dir matches Some(files) && files.contains_key(name)),
    ensures
        !delete_succeeds(dir, name),
        after_delete(dir, name) == dir,
{
    if let Some(files) = dir {
        assert(files.remove(name) =~= files);
    }
}

} // verus!
