//! Decisions of the download and extraction engine: which requests to make,
//! when to retry, where to resume, and how an extracted archive becomes the
//! destination. The transfers themselves are made by the caller.

use vstd::prelude::*;
use vstd::string::*;
use crate::error::CrossError;
use crate::text::{
    cat2, cat3, compare, decimal, digits, ends_with, lex_lt, lowercase, starts_with, to_lowercase,
    TextOrder,
};

verus! {

/// Number of attempts after which a request is given up.
pub const MAX_RETRIES: u32 = 3;

/// Seconds to wait before the first retry; the wait doubles with each retry.
pub const INITIAL_RETRY_DELAY_SECS: u64 = 1;

/// Format of a toolchain archive.
#[derive(Debug, Clone, Copy, PartialEq, Eq, Structural)]
pub enum ArchiveFormat {
    TarGz,
    Zip,
}

/// The format that the ending of a lowercase name stands for.
pub open spec fn format_of(lower: Seq<char>) -> Option<ArchiveFormat> {
    if ".tar.gz"@.is_suffix_of(lower) || ".tgz"@.is_suffix_of(lower) {
        Some(ArchiveFormat::TarGz)
    } else if ".zip"@.is_suffix_of(lower) {
        Some(ArchiveFormat::Zip)
    } else {
        None
    }
}

impl ArchiveFormat {
    /// The format that the ending of a name in lower case stands for.
    pub fn from_lowercase(lower: &str) -> (r: Option<Self>)
        ensures
            r == format_of(lower@),
    {
        if ends_with(lower, ".tar.gz") || ends_with(lower, ".tgz") {
            Some(ArchiveFormat::TarGz)
        } else if ends_with(lower, ".zip") {
            Some(ArchiveFormat::Zip)
        } else {
            None
        }
    }

    /// The format that the ending of a URL or file name stands for, whatever
    /// its case.
    pub fn from_url(url: &str) -> (r: Option<Self>)
        ensures
            r == format_of(lowercase(url@)),
    {
        let lower = to_lowercase(url);
        ArchiveFormat::from_lowercase(lower.as_str())
    }

    /// The ending of an archive file of this format.
    pub fn extension(&self) -> (r: &'static str)
        ensures
            r@ == match *self {
                ArchiveFormat::TarGz => ".tar.gz"@,
                ArchiveFormat::Zip => ".zip"@,
            },
    {
        match self {
            ArchiveFormat::TarGz => ".tar.gz",
            ArchiveFormat::Zip => ".zip",
        }
    }
}

/// The format to extract with: the caller's choice, else what the URL shows.
pub fn resolve_format(url: &str, format: Option<ArchiveFormat>) -> (r: Result<ArchiveFormat, CrossError>)
    ensures
        r.is_ok() == (format.is_some() || format_of(lowercase(url@)).is_some()),
        r.is_ok() ==> r.unwrap() == if format.is_some() {
            format.unwrap()
        } else {
            format_of(lowercase(url@)).unwrap()
        },
        r.is_err() ==> (r.unwrap_err() matches CrossError::UnsupportedArchiveFormat(u) && u@ == url@),
{
    match format {
        Some(f) => Ok(f),
        None => match ArchiveFormat::from_url(url) {
            Some(f) => Ok(f),
            None => Err(CrossError::UnsupportedArchiveFormat(String::from_str(url))),
        },
    }
}

/// The URL to fetch: behind the mirror where one is configured and the URL
/// is one of GitHub.
pub open spec fn proxied(url: Seq<char>, proxy: Option<Seq<char>>) -> Seq<char> {
    match proxy {
        Some(p) => if "https://github.com"@.is_prefix_of(url) {
            p + url
        } else {
            url
        },
        None => url,
    }
}

/// Puts the mirror, where one is configured, in front of a GitHub URL.
pub fn apply_github_proxy(url: &str, proxy: Option<&str>) -> (r: String)
    ensures
        r@ == proxied(
            url@,
            match proxy {
                Some(p) => Some(p@),
                None => None,
            },
        ),
{
    match proxy {
        Some(p) => {
            if starts_with(url, "https://github.com") {
                cat2(p, url)
            } else {
                String::from_str(url)
            }
        },
        None => String::from_str(url),
    }
}

/// Name of the partial file or scratch directory beside a destination.
pub fn temp_name(file_name: &str) -> (r: String)
    ensures
        r@ == file_name@ + ".tmp"@,
{
    cat2(file_name, ".tmp")
}

/// Name of the archive file that is downloaded beside a scratch directory.
pub fn archive_name(dir_name: &str, format: ArchiveFormat) -> (r: String)
    ensures
        r@ == dir_name@ + match format {
            ArchiveFormat::TarGz => ".tar.gz"@,
            ArchiveFormat::Zip => ".zip"@,
        },
{
    cat2(dir_name, format.extension())
}

/// Why a request did not yield a response.
#[derive(Debug, Clone, Copy, PartialEq, Eq, Structural)]
pub enum Failure {
    Timeout,
    Connect,
    Request,
    Status(u16),
    Other,
}

/// What came of one attempt: a response with its status, or a failure.
#[derive(Debug, Clone, Copy, PartialEq, Eq, Structural)]
pub enum Outcome {
    Response(u16),
    Failed(Failure),
}

/// What to do after an attempt.
#[derive(Debug, Clone, Copy, PartialEq, Eq, Structural)]
pub enum Step {
    /// Read the body of the response.
    Accept,
    /// Wait for the given number of seconds and try again.
    Retry { delay_secs: u64 },
    /// Report the failure.
    GiveUp,
}

/// Two to the power of `n`.
pub open spec fn doubled(n: nat) -> nat
    decreases n,
{
    if n == 0 {
        1
    } else {
        2 * doubled((n - 1) as nat)
    }
}

/// Whether a failure may pass: timeouts, failed connections, failed requests
/// and server errors.
pub open spec fn retryable_failure(f: Failure) -> bool {
    match f {
        Failure::Timeout | Failure::Connect | Failure::Request => true,
        Failure::Status(s) => 500 <= s < 600,
        Failure::Other => false,
    }
}

/// Whether a failure may pass and the request be tried again.
pub fn is_retryable_error(f: Failure) -> (r: bool)
    ensures
        r == retryable_failure(f),
{
    match f {
        Failure::Timeout | Failure::Connect | Failure::Request => true,
        Failure::Status(s) => 500 <= s && s < 600,
        Failure::Other => false,
    }
}

/// Whether an attempt's outcome may pass: a retryable failure, or a response
/// with a server error.
pub open spec fn retryable(o: Outcome) -> bool {
    match o {
        Outcome::Response(s) => 500 <= s < 600,
        Outcome::Failed(f) => retryable_failure(f),
    }
}

/// Whether a response is taken: full or partial content.
pub open spec fn accepted(o: Outcome) -> bool {
    match o {
        Outcome::Response(s) => 200 <= s < 300,
        Outcome::Failed(_) => false,
    }
}

/// The step after an attempt, `failures` attempts having failed before it.
pub open spec fn step_after(failures: u32, o: Outcome) -> Step {
    if accepted(o) {
        Step::Accept
    } else if retryable(o) && failures + 1 < MAX_RETRIES {
        Step::Retry { delay_secs: (INITIAL_RETRY_DELAY_SECS * doubled(failures as nat)) as u64 }
    } else {
        Step::GiveUp
    }
}

/// The wait before retry number `retry` (counted from one): the initial
/// delay, doubled with each earlier retry.
pub fn retry_delay_secs(retry: u32) -> (r: u64)
    requires
        1 <= retry <= MAX_RETRIES,
    ensures
        r == INITIAL_RETRY_DELAY_SECS * doubled((retry - 1) as nat),
{
    let mut delay: u64 = INITIAL_RETRY_DELAY_SECS;
    let mut i: u32 = 1;
    while i < retry
        invariant
            1 <= i <= retry <= MAX_RETRIES,
            delay == INITIAL_RETRY_DELAY_SECS * doubled((i - 1) as nat),
            delay <= 4,
        decreases retry - i,
    {
        proof {
            reveal_with_fuel(doubled, 4);
        }
        delay = delay * 2;
        i += 1;
    }
    delay
}

/// Decides what follows an attempt, `failures` attempts having failed
/// before it.
pub fn next_step(failures: u32, outcome: Outcome) -> (r: Step)
    ensures
        r == step_after(failures, outcome),
{
    let ok = match outcome {
        Outcome::Response(s) => 200 <= s && s < 300,
        Outcome::Failed(_) => false,
    };
    if ok {
        return Step::Accept;
    }
    let again = match outcome {
        Outcome::Response(s) => 500 <= s && s < 600,
        Outcome::Failed(f) => is_retryable_error(f),
    };
    if again && failures < MAX_RETRIES - 1 {
        Step::Retry { delay_secs: retry_delay_secs(failures + 1) }
    } else {
        Step::GiveUp
    }
}

/// Two failures that may pass, followed by a response that is taken, end in
/// success.
pub proof fn lemma_third_attempt_succeeds(first: Outcome, second: Outcome, third: Outcome)
    requires
        retryable(first) && !accepted(first),
        retryable(second) && !accepted(second),
        accepted(third),
    ensures
        step_after(0, first) == (Step::Retry { delay_secs: 1 }),
        step_after(1, second) == (Step::Retry { delay_secs: 2 }),
        step_after(2, third) == Step::Accept,
{
    reveal_with_fuel(doubled, 3);
}

/// Once as many attempts have failed as the ceiling allows, the failure is
/// reported, whatever it is; and a failure that may not pass is reported at
/// once.
pub proof fn lemma_failures_end(failures: u32, o: Outcome)
    requires
        !accepted(o),
    ensures
        failures + 1 >= MAX_RETRIES ==> step_after(failures, o) == Step::GiveUp,
        !retryable(o) ==> step_after(failures, o) == Step::GiveUp,
{
}

/// A download in progress. The bytes already there are those of the partial
/// file found beside the destination.
#[derive(Debug, Clone)]
pub struct DownloadTask {
    pub url: String,
    pub destination_path: String,
    pub already_downloaded: u64,
    pub total_size: Option<u64>,
}

impl DownloadTask {
    /// The first byte to ask for, where the request is to be a ranged one.
    pub fn range_start(&self) -> (r: Option<u64>)
        ensures
            r == if self.already_downloaded > 0 {
                Some(self.already_downloaded)
            } else {
                None::<u64>
            },
    {
        if self.already_downloaded > 0 {
            Some(self.already_downloaded)
        } else {
            None
        }
    }

    /// The value of the `Range` header of the request, where it is to be a
    /// ranged one: everything from the first byte that is missing.
    pub fn range_header(&self) -> (r: Option<String>)
        ensures
            r.is_some() == (self.already_downloaded > 0),
            r.is_some() ==> r.unwrap()@ == "bytes="@ + digits(self.already_downloaded as nat) + "-"@,
    {
        if self.already_downloaded > 0 {
            Some(cat3("bytes=", decimal(self.already_downloaded).as_str(), "-"))
        } else {
            None
        }
    }

    /// Whether the body of a response with `status` continues the partial
    /// file. A full response starts the file anew.
    pub fn appends(&self, status: u16) -> (r: bool)
        ensures
            r == (status == 206 && self.already_downloaded > 0),
    {
        status == 206 && self.already_downloaded > 0
    }

    /// Takes note of the response: a full one discards what was there.
    pub fn begin_body(&mut self, status: u16)
        ensures
            final(self).already_downloaded == if status == 206 {
                old(self).already_downloaded
            } else {
                0
            },
            final(self).url == old(self).url,
            final(self).destination_path == old(self).destination_path,
            final(self).total_size == old(self).total_size,
    {
        if status != 206 {
            self.already_downloaded = 0;
        }
    }

    /// Takes note of `len` more bytes written.
    pub fn record_chunk(&mut self, len: u64)
        requires
            old(self).already_downloaded + len <= u64::MAX,
        ensures
            final(self).already_downloaded == old(self).already_downloaded + len,
            final(self).url == old(self).url,
            final(self).destination_path == old(self).destination_path,
            final(self).total_size == old(self).total_size,
    {
        self.already_downloaded = self.already_downloaded + len;
    }
}

/// What a server sends for a request: the rest from `start` with status 206
/// where it honours the range, else all of it with status 200.
pub open spec fn served(data: Seq<u8>, start: Option<u64>, honours_range: bool) -> (u16, Seq<u8>) {
    match start {
        Some(n) => if honours_range && n <= data.len() {
            (206u16, data.subrange(n as int, data.len() as int))
        } else {
            (200u16, data)
        },
        None => (200u16, data),
    }
}

/// The file after the body of a response was written: appended to what was
/// there for a partial response, in its place for a full one.
pub open spec fn file_after(existing: Seq<u8>, status: u16, body: Seq<u8>) -> Seq<u8> {
    if status == 206 {
        existing + body
    } else {
        body
    }
}

/// A download that resumes from a partial file ends with the very bytes of a
/// download from scratch, whether or not the server honours the range.
pub proof fn lemma_resume_completes(data: Seq<u8>, partial: Seq<u8>, honours_range: bool)
    requires
        partial.len() <= u64::MAX,
        partial.is_prefix_of(data),
    ensures
        ({
            let start = if partial.len() > 0 {
                Some(partial.len() as u64)
            } else {
                None
            };
            let (status, body) = served(data, start, honours_range);
            file_after(partial, status, body) =~= data
        }),
{
}

/// Kind of an archive entry, as far as extraction tells them apart.
#[derive(Debug, Clone, Copy, PartialEq, Eq, Structural)]
pub enum EntryKind {
    Directory,
    Symlink,
    File,
}

/// Tells the kinds of entries apart. A symbolic link counts as one only
/// where the platform has them; else its text is written as a file.
pub fn classify_entry(is_symlink: bool, is_dir: bool, symlinks_supported: bool) -> (r: EntryKind)
    ensures
        r == if is_symlink && symlinks_supported {
            EntryKind::Symlink
        } else if is_dir {
            EntryKind::Directory
        } else {
            EntryKind::File
        },
{
    if is_symlink && symlinks_supported {
        EntryKind::Symlink
    } else if is_dir {
        EntryKind::Directory
    } else {
        EntryKind::File
    }
}

/// How an extracted tree becomes the destination.
#[derive(Debug, Clone, Copy, PartialEq, Eq, Structural)]
pub enum Finalize {
    /// The only entry is a directory: it becomes the destination.
    MoveOnlyChild,
    /// The scratch directory itself becomes the destination.
    MoveWhole,
}

/// Decides how the scratch directory becomes the destination, from the number
/// of its entries and whether the first is a directory.
pub fn finalize_plan(entries: usize, first_is_dir: bool) -> (r: Finalize)
    ensures
        r == if entries == 1 && first_is_dir {
            Finalize::MoveOnlyChild
        } else {
            Finalize::MoveWhole
        },
{
    if entries == 1 && first_is_dir {
        Finalize::MoveOnlyChild
    } else {
        Finalize::MoveWhole
    }
}

/// How progress is shown.
#[derive(Debug, Clone, Copy, PartialEq, Eq, Structural)]
pub enum Progress {
    /// Against a known total.
    Bar(u64),
    /// Without a total.
    Spinner,
}

/// Chooses how progress is shown: against the total where it is known,
/// else as a spinner.
pub fn progress_kind(total: Option<u64>) -> (r: Progress)
    ensures
        r == match total {
            Some(n) => Progress::Bar(n),
            None => Progress::Spinner,
        },
{
    match total {
        Some(n) => Progress::Bar(n),
        None => Progress::Spinner,
    }
}

/// Whether a toolchain has to be fetched: its directory is missing or empty.
pub fn needs_download(dir_exists: bool, dir_has_entries: bool) -> (r: bool)
    ensures
        r == !(dir_exists && dir_has_entries),
{
    !(dir_exists && dir_has_entries)
}

/// The access mode of a directory that files are to be created in: the mode
/// it has, with everything allowed to its owner.
pub fn writable_mode(mode: u32) -> (r: u32)
    ensures
        r == mode | 0o700,
{
    mode | 0o700
}

/// `a` does not come before `b`.
pub open spec fn not_before(a: Seq<char>, b: Seq<char>) -> bool {
    a == b || lex_lt(b, a)
}

/// Whether `order` lists the indices of `paths`, each once, so that no path
/// is followed by one that comes after it: a path never precedes one that
/// it is the beginning of.
pub open spec fn is_descending_order(paths: Seq<String>, order: Seq<usize>) -> bool {
    &&& order.len() == paths.len()
    &&& forall|i: int| 0 <= i < order.len() ==> (#[trigger] order[i]) < paths.len()
    &&& forall|i: int, j: int| 0 <= i < j < order.len() ==> (#[trigger] order[i]) != (#[trigger] order[j])
    &&& forall|i: int|
        0 <= i < order.len() - 1 ==> not_before(
            paths[(#[trigger] order[i]) as int]@,
            paths[order[i + 1] as int]@,
        )
}

/// The order in which recorded access modes are applied once every entry is
/// written: by path, descending, so that what lies in a directory is dealt
/// with before the directory itself.
pub fn permission_order(paths: &Vec<String>) -> (order: Vec<usize>)
    ensures
        is_descending_order(paths@, order@),
{
    let mut order: Vec<usize> = Vec::new();
    let mut k: usize = 0;
    while k < paths.len()
        invariant
            k <= paths.len(),
            order@.len() == k,
            forall|i: int| 0 <= i < order@.len() ==> (#[trigger] order@[i]) < k,
            forall|i: int, j: int|
                0 <= i < j < order@.len() ==> (#[trigger] order@[i]) != (#[trigger] order@[j]),
            forall|i: int|
                0 <= i < order@.len() - 1 ==> not_before(
                    paths@[(#[trigger] order@[i]) as int]@,
                    paths@[order@[i + 1] as int]@,
                ),
        decreases paths.len() - k,
    {
        let ghost before = order@;
        let mut i: usize = 0;
        while i < order.len() && !matches!(
            compare(paths[order[i]].as_str(), paths[k].as_str()),
            TextOrder::Before
        )
            invariant
                order@ == before,
                k < paths.len(),
                i <= order@.len(),
                forall|j: int| 0 <= j < order@.len() ==> (#[trigger] order@[j]) < k,
                forall|j: int|
                    0 <= j < i ==> not_before(paths@[(#[trigger] order@[j]) as int]@, paths@[k as int]@),
            decreases order@.len() - i,
        {
            i += 1;
        }
        order.insert(i, k);
        proof {
            let after = order@;
            assert forall|a: int| 0 <= a < after.len() implies (#[trigger] after[a]) < k + 1 by {
                if a < i {
                    assert(after[a] == before[a]);
                } else if a > i {
                    assert(after[a] == before[a - 1]);
                }
            }
            assert forall|a: int, b: int| 0 <= a < b < after.len() implies (#[trigger] after[a]) != (
            #[trigger] after[b]) by {
                let x = if a < i { before[a] } else if a == i { k } else { before[a - 1] };
                let y = if b < i { before[b] } else if b == i { k } else { before[b - 1] };
                assert(after[a] == x && after[b] == y);
            }
            assert forall|a: int| 0 <= a < after.len() - 1 implies not_before(
                paths@[(#[trigger] after[a]) as int]@,
                paths@[after[a + 1] as int]@,
            ) by {
                if a < i - 1 {
                    assert(after[a] == before[a] && after[a + 1] == before[a + 1]);
                } else if a == i - 1 {
                    assert(after[a] == before[a] && after[a + 1] == k);
                } else if a == i {
                    assert(after[a] == k && after[a + 1] == before[i as int]);
                } else {
                    assert(after[a] == before[a - 1] && after[a + 1] == before[a]);
                }
            }
        }
        k += 1;
    }
    order
}

} // verus!
