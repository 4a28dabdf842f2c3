use vstd::prelude::*;
use crate::error::Zip2RepoError;
use crate::text::{concat_str, starts_with_str};
use crate::zip::archive::{archive_entries, archive_len, new_archive, read_entry, zip_open_result, Archive, EntryRead};
use crate::zip::validate::{is_safe_name, lemma_accepted_archive_is_safe, zip_verdict, MAX_FILE_COUNT};

verus! {

/// What `url::Url::parse` says of a text: `None` where it parses, the
/// parser's message where it does not.
pub uninterp spec fn url_parse_failure(s: Seq<char>) -> Option<Seq<char>>;

/// `url::Url::parse`: whether the text is a URL, and if not, the `Display`
/// text of the parse error. The parsed URL itself is not needed.
#[verifier::external_body]
fn parse_url(s: &str) -> (r: Result<(), String>)
    ensures
        match url_parse_failure(s@) {
            None => r is Ok,
            Some(m) => r matches Err(e) && e@ == m,
        },
{
    match url::Url::parse(s) {
        Ok(_) => Ok(()),
        Err(e) => Err(e.to_string()),
    }
}

/// How `http::StatusCode` prints a status: its number and canonical reason.
pub uninterp spec fn http_status_text(code: u16) -> Seq<char>;

/// `http::StatusCode::from_u16` followed by its `Display` (`reqwest`
/// re-exports the type); a number that is no status code prints as the
/// error of `from_u16` does.
#[verifier::external_body]
fn status_text(code: u16) -> (s: String)
    ensures
        s@ == http_status_text(code),
{
    match reqwest::StatusCode::from_u16(code) {
        Ok(status) => status.to_string(),
        Err(e) => e.to_string(),
    }
}

/// Where the archive comes from.
#[derive(Debug, PartialEq, Eq, Clone, Copy)]
pub enum ZipSource {
    /// Downloaded over HTTPS.
    Https,
    /// Read from the local file system.
    Local,
}

/// The argument names a download: it starts with `https://`.
pub open spec fn is_https_arg(arg: Seq<char>) -> bool {
    "https://"@.len() <= arg.len() && arg.subrange(0, "https://"@.len() as int) == "https://"@
}

/// Decides where the archive named by the argument comes from. An argument
/// that starts with `https://` is downloaded, and must then parse as a URL;
/// anything else is a local path.
pub fn zip_source(zip_arg: &str) -> (r: Result<ZipSource, Zip2RepoError>)
    ensures
        !is_https_arg(zip_arg@) ==> r == Ok::<ZipSource, Zip2RepoError>(ZipSource::Local),
        is_https_arg(zip_arg@) ==> match url_parse_failure(zip_arg@) {
            None => r == Ok::<ZipSource, Zip2RepoError>(ZipSource::Https),
            Some(m) => r matches Err(Zip2RepoError::Network(s)) && s@ == "bad url: "@ + m,
        },
{
    if starts_with_str(zip_arg, "https://") {
        match parse_url(zip_arg) {
            Ok(()) => Ok(ZipSource::Https),
            Err(e) => Err(Zip2RepoError::Network(concat_str("bad url: ", e.as_str()))),
        }
    } else {
        Ok(ZipSource::Local)
    }
}

/// A successful HTTP status: 200 to 299.
pub open spec fn is_success_status(code: u16) -> bool {
    200 <= code < 300
}

/// Accepts the response to a download only with a successful status.
pub fn check_http_status(code: u16) -> (r: Result<(), Zip2RepoError>)
    ensures
        is_success_status(code) ==> r is Ok,
        !is_success_status(code) ==> (r matches Err(Zip2RepoError::Network(s))
            && s@ == "http status "@ + http_status_text(code)),
{
    if 200 <= code && code < 300 {
        Ok(())
    } else {
        Err(Zip2RepoError::Network(concat_str("http status ", status_text(code).as_str())))
    }
}

/// Opens the archive held in memory: it succeeds exactly when the `zip`
/// crate opens the bytes, and the archive then holds the entries that the
/// bytes describe; a refusal is a validation error with the `zip` crate's
/// message. Two openings of the same bytes hold the same entries.
pub fn open_zip(bytes: Vec<u8>) -> (r: Result<Archive, Zip2RepoError>)
    ensures
        match zip_open_result(bytes@) {
            Ok(entries) => r matches Ok(a) && archive_entries(a) == entries,
            Err(m) => r matches Err(Zip2RepoError::ZipValidation(s)) && s@ == m,
        },
{
    match new_archive(bytes) {
        Ok(a) => Ok(a),
        Err(e) => Err(Zip2RepoError::ZipValidation(e)),
    }
}

/// What extraction does with one entry.
#[derive(Debug, PartialEq, Eq, Clone, Copy)]
pub enum EntryAction {
    /// The entry is a directory: create it.
    CreateDir,
    /// The entry is a symbolic link: leave it out.
    SkipSymlink,
    /// Write the entry's content to a file.
    WriteFile,
}

/// The Unix file-type bits of the mode say "symbolic link".
pub open spec fn is_symlink_mode(mode: u32) -> bool {
    mode & 0o170000u32 == 0o120000u32
}

/// The action for an entry with this name and Unix mode.
pub open spec fn spec_entry_action(name: Seq<char>, unix_mode: Option<u32>) -> EntryAction {
    if name.len() > 0 && name.last() == '/' {
        EntryAction::CreateDir
    } else if unix_mode matches Some(m) && is_symlink_mode(m) {
        EntryAction::SkipSymlink
    } else {
        EntryAction::WriteFile
    }
}

/// Decides what extraction does with an entry: a name that ends in `/` is a
/// directory; an entry whose Unix mode marks a symbolic link is skipped;
/// anything else is written as a file. So no symbolic link is ever written.
pub fn entry_action(name: &str, unix_mode: Option<u32>) -> (a: EntryAction)
    ensures
        a == spec_entry_action(name@, unix_mode),
        a == EntryAction::WriteFile ==> !(unix_mode matches Some(m) && is_symlink_mode(m)),
{
    let n = name.unicode_len();
    if n > 0 && name.get_char(n - 1) == '/' {
        return EntryAction::CreateDir;
    }
    match unix_mode {
        Some(mode) => {
            if mode & 0o170000u32 == 0o120000u32 {
                EntryAction::SkipSymlink
            } else {
                EntryAction::WriteFile
            }
        },
        None => EntryAction::WriteFile,
    }
}

/// What extraction does with an entry, over all names and modes: a name
/// that ends in `/` is a directory; otherwise the entry is skipped exactly
/// when its Unix file type (mode bits `0o170000`) is a symbolic link
/// (`0o120000`), and written as a file in every other case, whatever its
/// permission bits.
pub proof fn lemma_entry_action_by_kind(name: Seq<char>, unix_mode: Option<u32>)
    ensures
        (name.len() > 0 && name[name.len() - 1] == '/') ==> spec_entry_action(name, unix_mode) == EntryAction::CreateDir,
        !(name.len() > 0 && name[name.len() - 1] == '/') ==> {
            &&& spec_entry_action(name, unix_mode) == EntryAction::SkipSymlink
                <==> (unix_mode matches Some(m) && m & 0o170000u32 == 0o120000u32)
            &&& spec_entry_action(name, unix_mode) == EntryAction::WriteFile
                <==> !(unix_mode matches Some(m) && m & 0o170000u32 == 0o120000u32)
        },
        spec_entry_action(name, unix_mode) == EntryAction::SkipSymlink
            ==> (unix_mode matches Some(m) && m & 0o170000u32 == 0o120000u32),
{
}

/// One entry of the extraction plan: where it stands in the archive, its
/// name, and what to do with it.
#[derive(Debug)]
pub struct PlannedEntry {
    pub index: usize,
    pub name: String,
    pub action: EntryAction,
}

/// The plan covers the given entries one by one, in order, with the action
/// that `spec_entry_action` gives each entry.
pub open spec fn is_extraction_plan(plan: Seq<PlannedEntry>, entries: Seq<EntryRead>) -> bool {
    &&& plan.len() == entries.len()
    &&& forall|i: int| 0 <= i < plan.len() ==> {
        &&& (#[trigger] plan[i]).index == i
        &&& entries[i] matches Ok((name, _, mode))
        &&& plan[i].name@ == name
        &&& plan[i].action == spec_entry_action(name, mode)
    }
}

/// What extraction does: the entries before the first one that cannot be
/// read, each with its action, and then, if there is such an entry, the
/// error with which extraction stops.
#[derive(Debug)]
pub struct ExtractionPlan {
    pub entries: Vec<PlannedEntry>,
    pub stop: Option<Zip2RepoError>,
}

/// The plan is the one for these archive entries: it covers the longest
/// readable prefix, and stops with the `zip` crate's message for the first
/// entry that cannot be read, if any.
pub open spec fn is_plan_of(p: ExtractionPlan, entries: Seq<EntryRead>) -> bool {
    let k = p.entries@.len() as int;
    &&& k <= entries.len()
    &&& is_extraction_plan(p.entries@, entries.take(k))
    &&& (p.stop is None <==> k == entries.len())
    &&& (p.stop matches Some(e) ==> (entries[k] matches Err(m) && e matches Zip2RepoError::ZipValidation(s) && s@ == m))
}

/// Reads the entries of the archive in order and decides what extraction
/// does with each: directories are created, symbolic links left out, files
/// written. At the first entry that cannot be read, the plan stops with a
/// validation error, as extraction does. No symbolic link is ever planned as
/// a file.
pub fn extraction_plan(zip: &mut Archive) -> (p: ExtractionPlan)
    ensures
        archive_entries(*final(zip)) == archive_entries(*old(zip)),
        is_plan_of(p, archive_entries(*old(zip))),
        forall|i: int| 0 <= i < p.entries@.len() && (#[trigger] p.entries@[i]).action == EntryAction::WriteFile
            ==> !(archive_entries(*old(zip))[i] matches Ok((_, _, Some(m))) && is_symlink_mode(m)),
{
    let ghost entries = archive_entries(*zip);
    let n = archive_len(zip);
    let mut plan: Vec<PlannedEntry> = Vec::new();
    let mut i: usize = 0;
    while i < n
        invariant
            n == entries.len(),
            archive_entries(*zip) == entries,
            archive_entries(*old(zip)) == entries,
            i <= n,
            plan.len() == i,
            is_extraction_plan(plan@, entries.take(i as int)),
        decreases n - i,
    {
        match read_entry(zip, i) {
            Ok(info) => {
                let action = entry_action(info.name.as_str(), info.unix_mode);
                plan.push(PlannedEntry { index: i, name: info.name, action });
                assert forall|j: int| 0 <= j < plan@.len() implies {
                    &&& (#[trigger] plan@[j]).index == j
                    &&& entries.take(i + 1)[j] matches Ok((name, _, mode))
                    &&& plan@[j].name@ == name
                    &&& plan@[j].action == spec_entry_action(name, mode)
                } by {
                    if j < i {
                        assert(entries.take(i + 1)[j] == entries.take(i as int)[j]);
                    }
                }
            },
            Err(e) => {
                let p = ExtractionPlan { entries: plan, stop: Some(Zip2RepoError::ZipValidation(e)) };
                proof {
                    assert forall|j: int| 0 <= j < p.entries@.len() && (#[trigger] p.entries@[j]).action == EntryAction::WriteFile
                        implies !(entries[j] matches Ok((_, _, Some(m))) && is_symlink_mode(m)) by {
                        assert(entries.take(i as int)[j] == entries[j]);
                    }
                }
                return p;
            },
        }
        i = i + 1;
    }
    assert(entries.take(n as int) =~= entries);
    let p = ExtractionPlan { entries: plan, stop: None };
    proof {
        assert forall|j: int| 0 <= j < p.entries@.len() && (#[trigger] p.entries@[j]).action == EntryAction::WriteFile
            implies !(entries[j] matches Ok((_, _, Some(m))) && is_symlink_mode(m)) by {
            assert(entries.take(n as int)[j] == entries[j]);
        }
    }
    p
}

/// Fail-closed: bytes that pass validation are extracted safely. Opened
/// again for extraction, the same bytes hold the same entries, so the plan
/// covers every entry, stops with no error, has at most `MAX_FILE_COUNT`
/// entries, and every entry it creates or writes names a place inside the
/// extraction root.
pub proof fn lemma_validated_bytes_extract_safely(data: Seq<u8>, p: ExtractionPlan)
    requires
        zip_open_result(data) is Ok,
        zip_verdict(zip_open_result(data)->Ok_0) is Accepted,
        is_plan_of(p, zip_open_result(data)->Ok_0),
    ensures
        p.stop is None,
        p.entries@.len() == (zip_open_result(data)->Ok_0).len(),
        p.entries@.len() <= MAX_FILE_COUNT,
        forall|i: int| 0 <= i < p.entries@.len() ==> is_safe_name((#[trigger] p.entries@[i]).name@),
{
    let entries = zip_open_result(data)->Ok_0;
    lemma_accepted_archive_is_safe(entries);
    let k = p.entries@.len() as int;
    if k < entries.len() {
        assert(entries[k] is Ok);
    }
    assert(entries.take(k) =~= entries);
    assert forall|i: int| 0 <= i < p.entries@.len() implies is_safe_name((#[trigger] p.entries@[i]).name@) by {
        assert(entries.take(k)[i] == entries[i]);
        assert(entries[i] matches Ok((name, _, _)) && is_safe_name(name));
    }
}

} // verus!
