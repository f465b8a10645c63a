use vstd::prelude::*;
use vstd::string::*;

use crate::codec::{
    base64_of, decode_base64, decoded, encode_base64, is_base64, lemma_base64_injective,
    lemma_encode_decode,
};
use crate::paths::{join_path, joined};

verus! {

/// What a listing reports of one saved photo: its file name, its full path and
/// its size in bytes.
pub struct PhotoMeta {
    pub name: String,
    pub path: String,
    pub size: u64,
}

/// One entry of the photos directory as read from disk: its file name, its full
/// path, and its size in bytes where its metadata could be read.
pub struct DirEntryInfo {
    pub name: String,
    pub path: String,
    pub size: Option<u64>,
}

/// The bytes to write for a saved photo, and the file that receives them.
pub struct PhotoWrite {
    pub path: String,
    pub bytes: Vec<u8>,
}

/// Index of the last `.` in `s`, or -1 where there is none.
pub open spec fn last_dot(s: Seq<char>) -> int
    decreases s.len(),
{
    if s.len() == 0 {
        -1
    } else if s.last() == '.' {
        s.len() - 1
    } else {
        last_dot(s.drop_last())
    }
}

/// The extension of a file name, as `Path::extension` gives it: what follows
/// the last `.`, with none for a name without a `.`, for a name whose only `.`
/// is its first character, and for `..`.
pub open spec fn extension_of(name: Seq<char>) -> Option<Seq<char>> {
    if name == seq!['.', '.'] || last_dot(name) <= 0 {
        None
    } else {
        Some(name.subrange(last_dot(name) + 1, name.len() as int))
    }
}

/// The lowercase extensions of the image files that a listing reports.
pub open spec fn is_photo_ext(e: Seq<char>) -> bool {
    e == seq!['j', 'p', 'g'] || e == seq!['j', 'p', 'e', 'g'] || e == seq!['p', 'n', 'g']
        || e == seq!['g', 'i', 'f'] || e == seq!['w', 'e', 'b', 'p']
}

/// The lowercase form of a text, as `str::to_lowercase` gives it.
pub uninterp spec fn lower_of(s: Seq<char>) -> Seq<char>;

/// Relies on `str::to_lowercase`: the Unicode lowercase mapping, which depends
/// on the characters alone.
#[verifier::external_body]
fn lowercase(s: &str) -> (r: String)
    ensures
        r@ == lower_of(s@),
{
    s.to_lowercase()
}

/// A file name whose extension, ignoring case, is one of the image extensions.
pub open spec fn is_photo_name(name: Seq<char>) -> bool {
    match extension_of(name) {
        Some(e) => is_photo_ext(lower_of(e)),
        None => false,
    }
}

/// An entry that a listing reports: an image whose metadata could be read.
pub open spec fn is_listed(e: DirEntryInfo) -> bool {
    is_photo_name(e.name@) && e.size is Some
}

/// The plain values of a listing record.
pub open spec fn meta_view(m: PhotoMeta) -> (Seq<char>, Seq<char>, u64) {
    (m.name@, m.path@, m.size)
}

/// What a listing of `entries` reports, in the order of the entries.
pub open spec fn listing_of(entries: Seq<DirEntryInfo>) -> Seq<(Seq<char>, Seq<char>, u64)>
    decreases entries.len(),
{
    if entries.len() == 0 {
        seq![]
    } else {
        let rest = listing_of(entries.drop_last());
        let e = entries.last();
        if is_listed(e) {
            rest.push((e.name@, e.path@, e.size.unwrap()))
        } else {
            rest
        }
    }
}

/// Whether the text `a` is exactly `b`.
fn same_text(a: &str, b: &str) -> (r: bool)
    ensures
        r == (a@ == b@),
{
    let n = a.unicode_len();
    if n != b.unicode_len() {
        return false;
    }
    let mut i: usize = 0;
    while i < n
        invariant
            n == a@.len(),
            n == b@.len(),
            i <= n,
            a@.subrange(0, i as int) == b@.subrange(0, i as int),
        decreases n - i,
    {
        if a.get_char(i) != b.get_char(i) {
            return false;
        }
        assert(a@.subrange(0, i + 1) == a@.subrange(0, i as int).push(a@[i as int]));
        assert(b@.subrange(0, i + 1) == b@.subrange(0, i as int).push(b@[i as int]));
        i = i + 1;
    }
    assert(a@ == a@.subrange(0, n as int));
    assert(b@ == b@.subrange(0, n as int));
    true
}

/// Whether an already lowercased extension is one of the image extensions.
pub fn is_photo_extension(lowered: &str) -> (r: bool)
    ensures
        r == is_photo_ext(lowered@),
{
    proof {
        reveal_strlit("jpg");
        reveal_strlit("jpeg");
        reveal_strlit("png");
        reveal_strlit("gif");
        reveal_strlit("webp");
        assert("jpg"@ =~= seq!['j', 'p', 'g']);
        assert("jpeg"@ =~= seq!['j', 'p', 'e', 'g']);
        assert("png"@ =~= seq!['p', 'n', 'g']);
        assert("gif"@ =~= seq!['g', 'i', 'f']);
        assert("webp"@ =~= seq!['w', 'e', 'b', 'p']);
    }
    same_text(lowered, "jpg") || same_text(lowered, "jpeg") || same_text(lowered, "png")
        || same_text(lowered, "gif") || same_text(lowered, "webp")
}

/// The extension of the file name `name`, if it has one.
pub fn file_extension(name: &str) -> (r: Option<String>)
    ensures
        r matches Some(e) ==> extension_of(name@) == Some(e@),
        r is None ==> extension_of(name@) is None,
{
    let n = name.unicode_len();
    if n == 2 && name.get_char(0) == '.' && name.get_char(1) == '.' {
        assert(name@ == seq!['.', '.']);
        return None;
    }
    let mut i: usize = n;
    assert(name@.subrange(0, n as int) == name@);
    while i > 0 && name.get_char(i - 1) != '.'
        invariant
            n == name@.len(),
            i <= n,
            last_dot(name@) == last_dot(name@.subrange(0, i as int)),
        decreases i,
    {
        assert(name@.subrange(0, i as int).drop_last() == name@.subrange(0, i - 1));
        i = i - 1;
    }
    assert(name@.subrange(0, n as int) == name@);
    if i <= 1 {
        None
    } else {
        Some(String::from_str(name.substring_char(i, n)))
    }
}

/// Whether a listing reports a file called `name`: its extension, ignoring
/// case, is `jpg`, `jpeg`, `png`, `gif` or `webp`.
pub fn has_photo_extension(name: &str) -> (r: bool)
    ensures
        r == is_photo_name(name@),
{
    match file_extension(name) {
        Some(e) => {
            let lowered = lowercase(e.as_str());
            is_photo_extension(lowered.as_str())
        },
        None => false,
    }
}

/// The listing records for the entries of the photos directory: one for each
/// image whose metadata could be read, in the order of the entries; the others
/// are skipped.
pub fn list_photo_entries(entries: &Vec<DirEntryInfo>) -> (r: Vec<PhotoMeta>)
    ensures
        r@.map_values(|m: PhotoMeta| meta_view(m)) == listing_of(entries@),
{
    let mut photos: Vec<PhotoMeta> = Vec::new();
    let mut i: usize = 0;
    while i < entries.len()
        invariant
            i <= entries@.len(),
            photos@.map_values(|m: PhotoMeta| meta_view(m)) == listing_of(
                entries@.subrange(0, i as int),
            ),
        decreases entries@.len() - i,
    {
        let e = &entries[i];
        assert(entries@.subrange(0, i + 1).drop_last() == entries@.subrange(0, i as int));
        if has_photo_extension(e.name.as_str()) {
            match e.size {
                Some(size) => {
                    photos.push(PhotoMeta { name: e.name.clone(), path: e.path.clone(), size });
                },
                None => {},
            }
        }
        proof {
            assert(photos@.map_values(|m: PhotoMeta| meta_view(m)) == listing_of(
                entries@.subrange(0, i + 1),
            ));
        }
        i = i + 1;
    }
    assert(entries@.subrange(0, entries@.len() as int) == entries@);
    photos
}

/// The answer to a listing, from what reading the photos directory gave: the
/// records of `list_photo_entries`, or the read error behind a fixed
/// description.
pub fn listed_photos(read: Result<Vec<DirEntryInfo>, String>) -> (r: Result<Vec<PhotoMeta>, String>)
    ensures
        read matches Ok(entries) ==> r matches Ok(v) && v@.map_values(|m: PhotoMeta| meta_view(m))
            == listing_of(entries@),
        read matches Err(m) ==> r matches Err(e) && e@ == "Failed to read dir: "@ + m@,
{
    match read {
        Ok(entries) => Ok(list_photo_entries(&entries)),
        Err(m) => Err(failure("Failed to read dir: ", m.as_str())),
    }
}

/// `e` begins with `p`.
pub open spec fn starts_with(e: Seq<char>, p: Seq<char>) -> bool {
    p.len() <= e.len() && e.subrange(0, p.len() as int) == p
}

/// `prefix` followed by `detail`.
pub(crate) fn failure(prefix: &str, detail: &str) -> (r: String)
    ensures
        r@ == prefix@ + detail@,
        starts_with(r@, prefix@),
{
    let mut r = String::from_str(prefix);
    r.append(detail);
    assert((prefix@ + detail@).subrange(0, prefix@.len() as int) == prefix@);
    r
}

/// What saving the photo `name` from the base64 text `base64_data` writes, and
/// where: the decoded bytes, into the file `name` of the photos directory
/// `photos_dir`. Text that is not valid base64 is refused with a message that
/// says so.
pub fn photo_to_save(photos_dir: &str, name: &str, base64_data: &str) -> (r: Result<
    PhotoWrite,
    String,
>)
    ensures
        r is Ok <==> is_base64(base64_data@),
        r matches Ok(w) ==> w.path@ == joined(photos_dir@, name@) && w.bytes@ == decoded(
            base64_data@,
        ),
        r matches Err(e) ==> starts_with(e@, "Failed to decode base64: "@),
{
    match decode_base64(base64_data) {
        Ok(bytes) => {
            proof {
                lemma_encode_decode(base64_data@);
                lemma_base64_injective(bytes@, decoded(base64_data@));
            }
            Ok(PhotoWrite { path: join_path(photos_dir, name), bytes })
        },
        Err(e) => Err(failure("Failed to decode base64: ", e.as_str())),
    }
}

/// The base64 text of a photo's bytes, as handed back to the caller.
pub fn encode_photo(bytes: &[u8]) -> (r: String)
    requires
        bytes@.len() <= usize::MAX / 2,
    ensures
        r@ == base64_of(bytes@),
{
    encode_base64(bytes)
}

/// The answer to a fetch, from what reading the photo's file gave: its base64
/// text, or the read error behind a fixed description.
pub fn fetched_photo(read: Result<Vec<u8>, String>) -> (r: Result<String, String>)
    requires
        read matches Ok(b) ==> b@.len() <= usize::MAX / 2,
    ensures
        read matches Ok(b) ==> r matches Ok(t) && t@ == base64_of(b@),
        read matches Err(m) ==> r matches Err(e) && e@ == "Failed to read file: "@ + m@,
{
    match read {
        Ok(bytes) => Ok(encode_photo(bytes.as_slice())),
        Err(m) => Err(failure("Failed to read file: ", m.as_str())),
    }
}

/// The answer to a save, from what writing the photo's file at `path` gave:
/// the path, or the write error behind a fixed description.
pub fn saved_photo(path: String, written: Result<(), String>) -> (r: Result<String, String>)
    ensures
        written is Ok ==> r == Ok::<String, String>(path),
        written matches Err(m) ==> r matches Err(e) && e@ == "Failed to write file: "@ + m@,
{
    match written {
        Ok(()) => Ok(path),
        Err(m) => Err(failure("Failed to write file: ", m.as_str())),
    }
}

/// Whether the photo commands may go on, from what creating the photos
/// directory and its ancestors gave.
pub fn dirs_ready(created: Result<(), String>) -> (r: Result<(), String>)
    ensures
        created is Ok <==> r is Ok,
        created matches Err(m) ==> r matches Err(e) && e@ == "Failed to create photos dir: "@ + m@,
{
    match created {
        Ok(()) => Ok(()),
        Err(m) => Err(failure("Failed to create photos dir: ", m.as_str())),
    }
}

/// The answer to a delete, from what removing the photo's file gave.
pub fn deleted_photo(removed: Result<(), String>) -> (r: Result<(), String>)
    ensures
        removed is Ok <==> r is Ok,
        removed matches Err(m) ==> r matches Err(e) && e@ == "Failed to delete file: "@ + m@,
{
    match removed {
        Ok(()) => Ok(()),
        Err(m) => Err(failure("Failed to delete file: ", m.as_str())),
    }
}

} // verus!
