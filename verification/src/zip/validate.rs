use vstd::prelude::*;
use crate::error::Zip2RepoError;
use crate::text::concat_str;
use crate::zip::archive::{archive_entries, archive_len, read_entry, Archive, EntryRead};

verus! {

/// Upper bound on the summed uncompressed size of all entries (512 MiB).
pub const MAX_UNCOMPRESSED_BYTES: u64 = 512 * 1024 * 1024;

/// Upper bound on the number of entries.
pub const MAX_FILE_COUNT: u64 = 50_000;

/// The name starts at the root of a file system: with `/` or `\`.
pub open spec fn is_absolute_name(name: Seq<char>) -> bool {
    name.len() > 0 && (name[0] == '/' || name[0] == '\\')
}

/// The name carries a drive letter: its second character is `:`.
pub open spec fn has_drive_letter(name: Seq<char>) -> bool {
    name.len() >= 2 && name[1] == ':'
}

/// Splitting the name at `sep` gives the segment `..` at position `k`:
/// `..` stands at `k`, with `sep` or the name's edge on both sides.
pub open spec fn parent_segment_at(name: Seq<char>, sep: char, k: int) -> bool {
    &&& 0 <= k && k + 2 <= name.len()
    &&& name[k] == '.' && name[k + 1] == '.'
    &&& (k == 0 || name[k - 1] == sep)
    &&& (k + 2 == name.len() || name[k + 2] == sep)
}

/// Some segment of the name, split at `sep`, is `..`.
pub open spec fn has_parent_segment(name: Seq<char>, sep: char) -> bool {
    exists|k: int| #[trigger] parent_segment_at(name, sep, k)
}

/// The name climbs out of its directory through a `..` segment, in the
/// `/` or the `\` convention.
pub open spec fn is_traversal_name(name: Seq<char>) -> bool {
    has_parent_segment(name, '/') || has_parent_segment(name, '\\')
}

/// The name refers to a place inside the extraction root.
pub open spec fn is_safe_name(name: Seq<char>) -> bool {
    !is_absolute_name(name) && !has_drive_letter(name) && !is_traversal_name(name)
}

/// Why a name is refused, as the message says it, if it is.
pub open spec fn name_rejection(name: Seq<char>) -> Option<Seq<char>> {
    if is_absolute_name(name) {
        Some("absolute path entry rejected: "@ + name)
    } else if has_drive_letter(name) {
        Some("drive-letter path rejected: "@ + name)
    } else if is_traversal_name(name) {
        Some("path traversal rejected: "@ + name)
    } else {
        None
    }
}

/// The verdict on an archive.
pub enum ZipVerdict {
    Accepted,
    /// Refused, with the message that says why: the `zip` crate's error for
    /// an entry that it cannot read, or the rule that an entry breaks.
    Rejected(Seq<char>),
}

/// The verdict on `entries[i..]`, with `count` entries and `total` bytes
/// seen before. Entries are checked in order; the first problem decides.
/// Within an entry: that it can be read, then its name, then the count, then
/// the size.
pub open spec fn verdict_from(entries: Seq<EntryRead>, i: int, count: int, total: int) -> ZipVerdict
    decreases entries.len() - i,
{
    if i < 0 || i >= entries.len() {
        ZipVerdict::Accepted
    } else {
        match entries[i] {
            Err(m) => ZipVerdict::Rejected(m),
            Ok((name, size, _)) => match name_rejection(name) {
                Some(m) => ZipVerdict::Rejected(m),
                None => if count + 1 > MAX_FILE_COUNT {
                    ZipVerdict::Rejected("zip file count exceeds limit"@)
                } else if total + size > MAX_UNCOMPRESSED_BYTES {
                    ZipVerdict::Rejected("zip uncompressed bytes exceeds limit"@)
                } else {
                    verdict_from(entries, i + 1, count + 1, total + size)
                },
            },
        }
    }
}

/// The verdict on a whole archive.
pub open spec fn zip_verdict(entries: Seq<EntryRead>) -> ZipVerdict {
    verdict_from(entries, 0, 0, 0)
}

/// The sum of the sizes of the first `n` entries (entries that cannot be read count 0).
pub open spec fn size_prefix(entries: Seq<EntryRead>, n: int) -> int
    decreases n,
{
    if n <= 0 {
        0
    } else {
        size_prefix(entries, n - 1) + match entries[n - 1] {
            Ok((_, size, _)) => size as int,
            Err(_) => 0,
        }
    }
}

proof fn lemma_accepted_suffix(entries: Seq<EntryRead>, i: int, count: int, total: int)
    requires
        0 <= i <= entries.len(),
        count == i,
        count <= MAX_FILE_COUNT,
        total == size_prefix(entries, i),
        total <= MAX_UNCOMPRESSED_BYTES,
        verdict_from(entries, i, count, total) is Accepted,
    ensures
        forall|j: int| i <= j < entries.len() ==> (#[trigger] entries[j] matches Ok((name, _, _)) && is_safe_name(name)),
        entries.len() <= MAX_FILE_COUNT,
        size_prefix(entries, entries.len() as int) <= MAX_UNCOMPRESSED_BYTES,
    decreases entries.len() - i,
{
    if i < entries.len() {
        let (name, size, _) = entries[i]->Ok_0;
        assert(size_prefix(entries, i + 1) == total + size);
        lemma_accepted_suffix(entries, i + 1, count + 1, total + size);
    }
}

/// An archive that passes validation is safe to extract: every entry can be
/// read and names a place inside the extraction root, there are at most
/// `MAX_FILE_COUNT` entries, and their sizes add up to at most
/// `MAX_UNCOMPRESSED_BYTES`.
pub proof fn lemma_accepted_archive_is_safe(entries: Seq<EntryRead>)
    requires
        zip_verdict(entries) is Accepted,
    ensures
        forall|j: int| 0 <= j < entries.len() ==> (#[trigger] entries[j] matches Ok((name, _, _)) && is_safe_name(name)),
        entries.len() <= MAX_FILE_COUNT,
        size_prefix(entries, entries.len() as int) <= MAX_UNCOMPRESSED_BYTES,
{
    lemma_accepted_suffix(entries, 0, 0, 0);
}

proof fn lemma_size_prefix_monotone(entries: Seq<EntryRead>, a: int, b: int)
    requires
        0 <= a <= b <= entries.len(),
    ensures
        size_prefix(entries, a) <= size_prefix(entries, b),
    decreases b - a,
{
    if a < b {
        lemma_size_prefix_monotone(entries, a, b - 1);
    }
}

/// The name stays inside the extraction root, spelled out character by
/// character: it does not start with `/` or `\`, its second character is not
/// `:`, and no `..` stands between separators (`/` or `\`) or the name's edges.
pub open spec fn name_is_plainly_inside(name: Seq<char>) -> bool {
    &&& !(name.len() > 0 && (name[0] == '/' || name[0] == '\\'))
    &&& !(name.len() >= 2 && name[1] == ':')
    &&& forall|k: int| #![trigger name[k]]
        0 <= k && k + 2 <= name.len() && name[k] == '.' && name[k + 1] == '.' ==> {
            &&& !((k == 0 || name[k - 1] == '/') && (k + 2 == name.len() || name[k + 2] == '/'))
            &&& !((k == 0 || name[k - 1] == '\\') && (k + 2 == name.len() || name[k + 2] == '\\'))
        }
}

proof fn lemma_plain_name_not_rejected(name: Seq<char>)
    requires
        name_is_plainly_inside(name),
    ensures
        name_rejection(name) is None,
{
    assert(!has_parent_segment(name, '/')) by {
        if has_parent_segment(name, '/') {
            let k = choose|k: int| #[trigger] parent_segment_at(name, '/', k);
            assert(name[k] == '.');
        }
    }
    assert(!has_parent_segment(name, '\\')) by {
        if has_parent_segment(name, '\\') {
            let k = choose|k: int| #[trigger] parent_segment_at(name, '\\', k);
            assert(name[k] == '.');
        }
    }
}

proof fn lemma_plain_suffix_accepted(entries: Seq<EntryRead>, i: int)
    requires
        0 <= i <= entries.len(),
        forall|j: int| 0 <= j < entries.len() ==> (#[trigger] entries[j] matches Ok((name, _, _)) && name_is_plainly_inside(name)),
        entries.len() <= 50_000,
        size_prefix(entries, entries.len() as int) <= 512 * 1024 * 1024,
    ensures
        verdict_from(entries, i, i, size_prefix(entries, i)) is Accepted,
    decreases entries.len() - i,
{
    if i < entries.len() {
        let (name, size, _) = entries[i]->Ok_0;
        assert(entries[i] matches Ok((name, _, _)) && name_is_plainly_inside(name));
        lemma_plain_name_not_rejected(name);
        lemma_size_prefix_monotone(entries, i + 1, entries.len() as int);
        assert(size_prefix(entries, i + 1) == size_prefix(entries, i) + size);
        lemma_plain_suffix_accepted(entries, i + 1);
    }
}

/// Validation refuses nothing else: an archive whose entries can all be
/// read, whose names all stay inside the extraction root (no leading `/` or
/// `\`, no `:` as second character, no `..` segment), with at most 50,000
/// entries and at most 512 MiB in all, is accepted.
pub proof fn lemma_safe_archive_is_accepted(entries: Seq<EntryRead>)
    requires
        forall|j: int| 0 <= j < entries.len() ==> (#[trigger] entries[j] matches Ok((name, _, _)) && name_is_plainly_inside(name)),
        entries.len() <= 50_000,
        size_prefix(entries, entries.len() as int) <= 512 * 1024 * 1024,
    ensures
        zip_verdict(entries) is Accepted,
{
    lemma_plain_suffix_accepted(entries, 0);
}

/// Validation refuses every unsafe archive: an accepted archive has only
/// readable entries whose names stay inside the extraction root, at most
/// 50,000 of them, with at most 512 MiB in all.
pub proof fn lemma_accepted_archive_is_plainly_safe(entries: Seq<EntryRead>)
    requires
        zip_verdict(entries) is Accepted,
    ensures
        forall|j: int| 0 <= j < entries.len() ==> (#[trigger] entries[j] matches Ok((name, _, _)) && name_is_plainly_inside(name)),
        entries.len() <= 50_000,
        size_prefix(entries, entries.len() as int) <= 512 * 1024 * 1024,
{
    lemma_accepted_archive_is_safe(entries);
    assert forall|j: int| 0 <= j < entries.len() implies (#[trigger] entries[j] matches Ok((name, _, _)) && name_is_plainly_inside(name)) by {
        let name = entries[j]->Ok_0.0;
        assert(is_safe_name(name));
        assert forall|k: int| #![trigger name[k]]
            0 <= k && k + 2 <= name.len() && name[k] == '.' && name[k + 1] == '.' implies {
                &&& !((k == 0 || name[k - 1] == '/') && (k + 2 == name.len() || name[k + 2] == '/'))
                &&& !((k == 0 || name[k - 1] == '\\') && (k + 2 == name.len() || name[k + 2] == '\\'))
            } by {
            assert(!parent_segment_at(name, '/', k));
            assert(!parent_segment_at(name, '\\', k));
        }
    }
}

fn is_absolute(name: &str) -> (b: bool)
    ensures
        b == is_absolute_name(name@),
{
    if name.unicode_len() == 0 {
        return false;
    }
    let c = name.get_char(0);
    c == '/' || c == '\\'
}

fn has_drive(name: &str) -> (b: bool)
    ensures
        b == has_drive_letter(name@),
{
    if name.unicode_len() < 2 {
        return false;
    }
    name.get_char(1) == ':'
}

fn has_parent(name: &str, sep: char) -> (b: bool)
    ensures
        b == has_parent_segment(name@, sep),
{
    let n = name.unicode_len();
    let mut k: usize = 0;
    while n >= 2 && k <= n - 2
        invariant
            n == name@.len(),
            forall|j: int| 0 <= j < k ==> !#[trigger] parent_segment_at(name@, sep, j),
        decreases n - k,
    {
        if name.get_char(k) == '.' && name.get_char(k + 1) == '.' {
            let left_ok = k == 0 || name.get_char(k - 1) == sep;
            let right_ok = k + 2 == n || name.get_char(k + 2) == sep;
            if left_ok && right_ok {
                assert(parent_segment_at(name@, sep, k as int));
                return true;
            }
        }
        k = k + 1;
    }
    false
}

/// The message for a refused name, if the name is refused.
fn check_name(name: &str) -> (r: Option<String>)
    ensures
        match name_rejection(name@) {
            Some(m) => r matches Some(s) && s@ == m,
            None => r is None,
        },
{
    if is_absolute(name) {
        Some(concat_str("absolute path entry rejected: ", name))
    } else if has_drive(name) {
        Some(concat_str("drive-letter path rejected: ", name))
    } else if has_parent(name, '/') || has_parent(name, '\\') {
        Some(concat_str("path traversal rejected: ", name))
    } else {
        None
    }
}

/// Checks every entry of the archive before anything is extracted: each
/// entry must be readable, its name must stay inside the extraction root
/// (no absolute path, no drive letter, no `..` segment), there may be at
/// most `MAX_FILE_COUNT` entries and at most `MAX_UNCOMPRESSED_BYTES` bytes
/// in all. The first entry that fails decides the error.
pub fn validate_zip(zip: Archive) -> (r: Result<(), Zip2RepoError>)
    ensures
        match zip_verdict(archive_entries(zip)) {
            ZipVerdict::Accepted => r is Ok,
            ZipVerdict::Rejected(m) => r matches Err(Zip2RepoError::ZipValidation(s)) && s@ == m,
        },
{
    let ghost entries = archive_entries(zip);
    let mut a = zip;
    let mut total: u64 = 0;
    let mut count: u64 = 0;
    let n = archive_len(&a);
    let mut i: usize = 0;
    while i < n
        invariant
            n == entries.len(),
            archive_entries(a) == entries,
            archive_entries(zip) == entries,
            i <= n,
            count == i,
            count <= MAX_FILE_COUNT,
            total <= MAX_UNCOMPRESSED_BYTES,
            zip_verdict(entries) == verdict_from(entries, i as int, count as int, total as int),
        decreases n - i,
    {
        let f = read_entry(&mut a, i);
        let info = match f {
            Ok(info) => info,
            Err(e) => {
                return Err(Zip2RepoError::ZipValidation(e));
            },
        };
        match check_name(info.name.as_str()) {
            Some(m) => {
                return Err(Zip2RepoError::ZipValidation(m));
            },
            None => {},
        }
        count += 1;
        if count > MAX_FILE_COUNT {
            return Err(Zip2RepoError::ZipValidation(String::from_str("zip file count exceeds limit")));
        }
        let sz = info.size;
        total = total.saturating_add(sz);
        if total > MAX_UNCOMPRESSED_BYTES {
            return Err(Zip2RepoError::ZipValidation(String::from_str("zip uncompressed bytes exceeds limit")));
        }
        i = i + 1;
    }
    Ok(())
}

} // verus!
