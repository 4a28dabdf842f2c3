use std::io::Cursor;
use vstd::prelude::*;

verus! {

/// A byte buffer of the `bytes` crate; an archive is read from one in memory.
#[verifier::external_type_specification]
#[verifier::external_body]
pub struct ExBytes(bytes::Bytes);

/// `std::io::Cursor`, the seekable reader over an in-memory buffer.
#[verifier::external_type_specification]
#[verifier::external_body]
#[verifier::reject_recursive_types(T)]
pub struct ExCursor<T>(Cursor<T>);

/// An opened ZIP archive of the `zip` crate.
#[verifier::external_type_specification]
#[verifier::external_body]
#[verifier::reject_recursive_types(R)]
pub struct ExZipArchive<R>(::zip::ZipArchive<R>);

/// The in-memory archive type that the library reads.
pub type Archive = ::zip::ZipArchive<Cursor<bytes::Bytes>>;

/// One entry as the `zip` crate reads it: its name, uncompressed size and
/// Unix mode (if the archive records one), or the text of the error that
/// opening the entry or decoding its name gives.
pub type EntryRead = Result<(Seq<char>, u64, Option<u32>), Seq<char>>;

/// What an archive holds, entry by entry, in the order of its central
/// directory.
pub uninterp spec fn archive_entries(a: ::zip::ZipArchive<Cursor<bytes::Bytes>>) -> Seq<Result<(Seq<char>, u64, Option<u32>), Seq<char>>>;

/// What `zip::ZipArchive::new` makes of a byte buffer: the entries of the
/// archive it opens, or the text of the error with which it refuses.
pub uninterp spec fn zip_open_result(data: Seq<u8>) -> Result<Seq<Result<(Seq<char>, u64, Option<u32>), Seq<char>>>, Seq<char>>;

/// `zip::ZipArchive::len`: the number of entries in the central directory.
#[verifier::external_body]
pub(crate) fn archive_len(a: &Archive) -> (n: usize)
    ensures
        n == archive_entries(*a).len(),
{
    a.len()
}

/// Plain facts about one entry of an archive.
pub struct EntryInfo {
    pub name: String,
    pub size: u64,
    pub unix_mode: Option<u32>,
}

/// `zip::ZipArchive::by_index` followed by `ZipFile::name`, `ZipFile::size`
/// and `ZipFile::unix_mode`: opens entry `i` and reads its name,
/// uncompressed size and Unix mode; on failure, the `Display` text of the
/// `zip` error. Reading an entry moves the cursor of the reader but changes
/// nothing that `archive_entries` describes.
#[verifier::external_body]
pub(crate) fn read_entry(a: &mut Archive, i: usize) -> (res: Result<EntryInfo, String>)
    requires
        i < archive_entries(*old(a)).len(),
    ensures
        archive_entries(*final(a)) == archive_entries(*old(a)),
        match archive_entries(*old(a))[i as int] {
            Ok(e) => res matches Ok(info) && (info.name@, info.size, info.unix_mode) == e,
            Err(m) => res matches Err(s) && s@ == m,
        },
{
    let f = match a.by_index(i) {
        Ok(f) => f,
        Err(e) => return Err(e.to_string()),
    };
    let name = match f.name() {
        Ok(n) => n.to_string(),
        Err(e) => return Err(e.to_string()),
    };
    Ok(EntryInfo { name, size: f.size(), unix_mode: f.unix_mode() })
}

/// `zip::ZipArchive::new` over a cursor on the buffer: parses the central
/// directory. The archive it opens holds what `zip_open_result` says of the
/// bytes; a refusal comes with the `Display` text of the `zip` error.
#[verifier::external_body]
pub(crate) fn new_archive(data: Vec<u8>) -> (res: Result<Archive, String>)
    ensures
        match zip_open_result(data@) {
            Ok(entries) => res matches Ok(a) && archive_entries(a) == entries,
            Err(m) => res matches Err(s) && s@ == m,
        },
{
    match ::zip::ZipArchive::new(Cursor::new(bytes::Bytes::from(data))) {
        Ok(a) => Ok(a),
        Err(e) => Err(e.to_string()),
    }
}

} // verus!
