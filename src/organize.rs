//! Per-entry decisions of a directory scan: which metadata source a file's
//! extension selects, what the caller must do next, and where the file goes.

use vstd::prelude::*;
use vstd::string::*;
use crate::calendar::{decimal_text, month_name, month_name_of, push_decimal, push_signed, signed_text};
use crate::capture::{
    CaptureDate, DateError, DEFAULT_OFFSET_SECONDS, LATEST_SUPPORTED_SECONDS, fallback_date,
};

verus! {

/// Where a file's capture date is looked for first, chosen by its extension.
#[derive(Clone, Copy, Debug, PartialEq, Eq, Structural)]
pub enum Source {
    /// No extension, or an empty one: the file is left where it is.
    Skip,
    /// A `.MOV` video: the container's creation-date tag.
    Container,
    /// Any other extension: the EXIF date tags.
    Embedded,
}

/// What the caller does next for one directory entry.
#[derive(Clone, Debug)]
pub enum Step {
    /// Leave the entry where it is.
    Leave,
    /// Probe the video container and hand its creation-date tag to
    /// `container_date`, then the result to `on_extracted`.
    ProbeContainer,
    /// Read the file's bytes and hand them to `embedded_date`, then the result
    /// to `on_extracted`.
    ReadEmbedded,
    /// Read the file's modification time and hand it to `on_modified`.
    ReadModified,
    /// Create this directory (relative to the scanned root, with all its
    /// parents) and move the file into it under its own name.
    MoveInto(String),
}

/// Index of the last `.` in `s`, or -1 when there is none.
pub open spec fn last_dot(s: Seq<char>) -> int
    decreases s.len(),
{
    if s.len() == 0 {
        -1
    } else if s.last() == '.' {
        s.len() - 1
    } else {
        last_dot(s.drop_last())
    }
}

/// The extension of a file name: what follows its last `.`, unless that dot
/// begins the name.
pub open spec fn extension_of(name: Seq<char>) -> Option<Seq<char>> {
    if last_dot(name) <= 0 {
        None
    } else {
        Some(name.subrange(last_dot(name) + 1, name.len() as int))
    }
}

pub open spec fn source_of(name: Seq<char>) -> Source {
    match extension_of(name) {
        None => Source::Skip,
        Some(e) => if e.len() == 0 {
            Source::Skip
        } else if e == seq!['M', 'O', 'V'] {
            Source::Container
        } else {
            Source::Embedded
        },
    }
}

/// An entry that a scan leaves in place: a directory, or a file that has no
/// usable extension.
pub open spec fn stays(name: Seq<char>, is_dir: bool) -> bool {
    is_dir || source_of(name) == Source::Skip
}

/// An entry whose metadata a scan reads: a file whose extension selects a
/// source. Every such file is moved, unless the run stops on an error.
pub open spec fn reads_metadata(name: Seq<char>, is_dir: bool) -> bool {
    !is_dir && source_of(name) != Source::Skip
}

/// The directory, relative to the scanned root, for a capture date:
/// `<year>/<month number>_<month name>`.
pub open spec fn destination_text(d: CaptureDate) -> Seq<char> {
    signed_text(d.local.year as int) + seq!['/'] + decimal_text(d.local.month as nat) + seq!['_']
        + month_name_of(d.local.month as int)
}

proof fn lemma_last_dot_prefix(s: Seq<char>, j: int)
    requires
        0 <= j <= s.len(),
        forall|k: int| j <= k < s.len() ==> s[k] != '.',
    ensures
        last_dot(s) == last_dot(s.subrange(0, j)),
    decreases s.len(),
{
    if s.len() == j {
        assert(s.subrange(0, j) =~= s);
    } else {
        lemma_last_dot_prefix(s.drop_last(), j);
        assert(s.drop_last().subrange(0, j) =~= s.subrange(0, j));
    }
}

/// The metadata source that a file name's extension selects. Extensions are
/// compared exactly: `.mov` is not `.MOV`.
pub fn source_for(name: &str) -> (r: Source)
    ensures
        r == source_of(name@),
{
    let n = name.unicode_len();
    let mut i: usize = n;
    while i > 0 && name.get_char(i - 1) != '.'
        invariant
            i <= n,
            n == name@.len(),
            forall|k: int| i <= k < n ==> name@[k] != '.',
        decreases i,
    {
        i = i - 1;
    }
    proof {
        lemma_last_dot_prefix(name@, i as int);
        if i > 0 {
            assert(name@.subrange(0, i as int).last() == '.');
        } else {
            assert(name@.subrange(0, 0).len() == 0);
        }
    }
    if i <= 1 {
        return Source::Skip;
    }
    let ghost ext = name@.subrange(i as int, n as int);
    if n == i {
        assert(ext.len() == 0);
        Source::Skip
    } else if n - i == 3 && name.get_char(i) == 'M' && name.get_char(i + 1) == 'O'
        && name.get_char(i + 2) == 'V' {
        assert(ext =~= seq!['M', 'O', 'V']);
        Source::Container
    } else {
        assert(ext != seq!['M', 'O', 'V']) by {
            if ext == seq!['M', 'O', 'V'] {
                assert(ext[0] == name@[i as int]);
                assert(ext[1] == name@[i + 1]);
                assert(ext[2] == name@[i + 2]);
            }
        }
        Source::Embedded
    }
}

/// The first step for a directory entry: directories and files without a
/// usable extension are left alone; other files have their metadata read.
pub fn on_listed(name: &str, is_dir: bool) -> (r: Step)
    ensures
        stays(name@, is_dir) <==> r is Leave,
        !is_dir && source_of(name@) == Source::Container <==> r is ProbeContainer,
        !is_dir && source_of(name@) == Source::Embedded <==> r is ReadEmbedded,
        reads_metadata(name@, is_dir) <==> (r is ProbeContainer || r is ReadEmbedded),
{
    if is_dir {
        return Step::Leave;
    }
    match source_for(name) {
        Source::Skip => Step::Leave,
        Source::Container => Step::ProbeContainer,
        Source::Embedded => Step::ReadEmbedded,
    }
}

/// The destination directory of a file captured at `d`, relative to the
/// scanned root, such as `2023/7_July`.
pub fn destination_dir(d: &CaptureDate) -> (r: String)
    requires
        d.local.wf(),
    ensures
        r@ == destination_text(*d),
{
    let mut out = String::new();
    push_signed(&mut out, d.local.year);
    proof { reveal_strlit("/"); reveal_strlit("_"); }
    out.append("/");
    push_decimal(&mut out, d.local.month as u32);
    out.append("_");
    out.append(month_name(d.local.month));
    assert(out@ =~= destination_text(*d));
    out
}

/// The step after the file's own metadata was read: move the file when it
/// gave a date, else fall back to the modification time.
pub fn on_extracted(found: Option<CaptureDate>) -> (r: Step)
    requires
        found matches Some(d) ==> d.wf(),
    ensures
        found is None <==> r is ReadModified,
        found matches Some(d) ==> (r matches Step::MoveInto(p) && p@ == destination_text(d)),
{
    match found {
        Some(d) => Step::MoveInto(destination_dir(&d)),
        None => Step::ReadModified,
    }
}

/// The step after the modification time was read, `secs` seconds after
/// 1970-01-01 00:00:00 UTC: move the file into the directory of that time read
/// at the default offset.
pub fn on_modified(secs: u64) -> (r: Result<Step, DateError>)
    ensures
        secs <= LATEST_SUPPORTED_SECONDS ==> r is Ok,
        r matches Err(e) ==> e == DateError::TimestampOutOfRange,
        r matches Ok(s) ==> (s matches Step::MoveInto(p) && exists|d: CaptureDate|
            #![trigger destination_text(d)]
            {
                &&& d.wf()
                &&& d.local.unix_seconds() == secs
                &&& d.offset_seconds == DEFAULT_OFFSET_SECONDS
                &&& d.instant() == secs - DEFAULT_OFFSET_SECONDS
                &&& p@ == destination_text(d)
            }),
{
    match fallback_date(secs) {
        Ok(d) => {
            let p = destination_dir(&d);
            assert(p@ == destination_text(d));
            Ok(Step::MoveInto(p))
        },
        Err(e) => Err(e),
    }
}

/// A file with no extension, or an empty one, is never moved, and so no
/// directory is made for it.
pub proof fn lemma_unextended_file_stays(name: Seq<char>)
    requires
        extension_of(name) is None || extension_of(name)->0.len() == 0,
    ensures
        stays(name, false),
{
}

/// The entries of the scanned root after a run over `entries` that created
/// the directories `made`: the run moved away every file whose metadata it
/// read, kept the rest, and added the new directories.
pub open spec fn after_run(entries: Seq<(Seq<char>, bool)>, made: Seq<Seq<char>>) -> Seq<
    (Seq<char>, bool),
> {
    entries.filter(|e: (Seq<char>, bool)| !reads_metadata(e.0, e.1)) + made.map_values(
        |m: Seq<char>| (m, true),
    )
}

/// A second run over an organized root moves nothing: for every entry left
/// after the first run, `on_listed` returns `Leave` (the entry stays) and asks
/// for no metadata, because directories are not entered.
pub proof fn lemma_second_run_moves_nothing(
    entries: Seq<(Seq<char>, bool)>,
    made: Seq<Seq<char>>,
)
    ensures
        forall|i: int|
            0 <= i < after_run(entries, made).len() ==> {
                &&& stays(#[trigger] after_run(entries, made)[i].0, after_run(entries, made)[i].1)
                &&& !reads_metadata(after_run(entries, made)[i].0, after_run(entries, made)[i].1)
            },
{
    let pred = |e: (Seq<char>, bool)| !reads_metadata(e.0, e.1);
    let kept = entries.filter(pred);
    let dirs = made.map_values(|m: Seq<char>| (m, true));
    assert forall|i: int| 0 <= i < after_run(entries, made).len() implies {
        &&& stays(#[trigger] after_run(entries, made)[i].0, after_run(entries, made)[i].1)
        &&& !reads_metadata(after_run(entries, made)[i].0, after_run(entries, made)[i].1)
    } by {
        if i < kept.len() {
            entries.lemma_filter_pred(pred, i);
            assert(after_run(entries, made)[i] == kept[i]);
        } else {
            assert(after_run(entries, made)[i] == dirs[i - kept.len()]);
        }
    }
}

} // verus!
