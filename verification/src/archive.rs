//! Unpacking a package.
//!
//! A package is a zip archive. The host reads the archive's bytes; this
//! module walks the entries and plans what has to be written where, relative
//! to the directory that the package is unpacked into. The host then carries
//! out the plan.
//!
//! No step of a plan leaves that directory. The decoder already hands out
//! each entry's path in a sanitized form; the plan does not rely on that and
//! keeps only paths that [`contained`] accepts.

use vstd::prelude::*;
use vstd::string::StrSliceExecFns;
use crate::error::{ErrorView, VPluginError};

verus! {

/// `zip::ZipArchive`, an archive opened for reading.
#[verifier::external_type_specification]
#[verifier::external_body]
#[verifier::reject_recursive_types(R)]
pub struct ExZipArchive<R>(zip::ZipArchive<R>);

/// `zip::result::ZipError`, why an archive or one of its entries cannot be
/// read.
#[verifier::external_type_specification]
#[verifier::external_body]
pub struct ExZipError(zip::result::ZipError);

/// `std::io::Cursor`, which lets the decoder read bytes held in memory.
#[verifier::external_type_specification]
#[verifier::external_body]
#[verifier::reject_recursive_types(T)]
pub struct ExCursor<T>(std::io::Cursor<T>);

/// One entry of an archive, as the decoder hands it out.
pub struct PackedEntry {
    /// The entry's name as the archive gives it. It may point anywhere.
    pub name: String,
    /// The entry's path in the decoder's sanitized form, if it has one.
    pub enclosed: Option<String>,
    /// The entry's content, uncompressed.
    pub data: Vec<u8>,
}

/// A [`PackedEntry`] as a mathematical value.
pub struct PackedEntryView {
    pub name: Seq<char>,
    pub enclosed: Option<Seq<char>>,
    pub data: Seq<u8>,
}

impl View for PackedEntry {
    type V = PackedEntryView;

    open spec fn view(&self) -> PackedEntryView {
        PackedEntryView {
            name: self.name@,
            enclosed: match self.enclosed {
                Some(path) => Some(path@),
                None => None,
            },
            data: self.data@,
        }
    }
}

/// The entries that the bytes of an archive hold, in the archive's order, or
/// `None` where the bytes are not an archive. An entry that cannot be read
/// (its content is damaged, encrypted or compressed in an unknown way) is
/// `None`.
pub uninterp spec fn archive_of(bytes: Seq<u8>) -> Option<Seq<Option<PackedEntryView>>>;

/// The entries of an open archive, as [`archive_of`] gives them.
pub uninterp spec fn archive_entries(archive: zip::ZipArchive<std::io::Cursor<Vec<u8>>>) -> Seq<
    Option<PackedEntryView>,
>;

/// Calls `zip::ZipArchive::new` on a `std::io::Cursor` over `bytes`: reads
/// the archive's directory. The archive opens exactly if [`archive_of`]
/// names entries for these bytes, and then holds those entries.
#[verifier::external_body]
pub(crate) fn open_archive(bytes: Vec<u8>) -> (r: Result<
    zip::ZipArchive<std::io::Cursor<Vec<u8>>>,
    zip::result::ZipError,
>)
    ensures
        match r {
            Ok(archive) => archive_of(bytes@) == Some(archive_entries(archive)),
            Err(_) => archive_of(bytes@) is None,
        },
{
    zip::ZipArchive::new(std::io::Cursor::new(bytes))
}

/// Calls `zip::ZipArchive::len`: the number of entries.
#[verifier::external_body]
pub(crate) fn archive_len(archive: &zip::ZipArchive<std::io::Cursor<Vec<u8>>>) -> (n: usize)
    ensures
        n == archive_entries(*archive).len(),
{
    archive.len()
}

/// Calls `zip::ZipArchive::by_index`, and on the entry `name`,
/// `enclosed_name` and `std::io::Read::read_to_end`: hands out the entry at
/// `index` as plain values. Any error of the decoder, an index past the
/// last entry among them, stands for an entry that cannot be read. Reading
/// moves the decoder's position and leaves the entries as they are.
#[verifier::external_body]
pub(crate) fn read_entry(
    archive: &mut zip::ZipArchive<std::io::Cursor<Vec<u8>>>,
    index: usize,
) -> (r: Result<PackedEntry, zip::result::ZipError>)
    ensures
        archive_entries(*final(archive)) == archive_entries(*old(archive)),
        match r {
            Ok(entry) => index < archive_entries(*old(archive)).len() && archive_entries(
                *old(archive),
            )[index as int] == Some(entry@),
            Err(_) => index >= archive_entries(*old(archive)).len() || archive_entries(
                *old(archive),
            )[index as int] is None,
        },
{
    let mut file = archive.by_index(index)?;
    let mut data = Vec::new();
    std::io::Read::read_to_end(&mut file, &mut data)?;
    let name = file.name()?.into_owned();
    let enclosed = file.enclosed_name().map(|path| path.to_string_lossy().into_owned());
    Ok(PackedEntry { name, enclosed, data })
}

/// One thing to do while a package is unpacked. Paths are relative to the
/// directory that the package is unpacked into.
#[derive(Debug, Clone, PartialEq, Eq)]
pub enum ExtractStep {
    /// Create the directory at `path`, with the directories above it.
    CreateDir { path: String },
    /// Write `data`, byte for byte, to the file at `path`, creating the
    /// directories above it where they are missing.
    WriteFile { path: String, data: Vec<u8> },
}

/// An [`ExtractStep`] as a mathematical value.
pub enum StepView {
    CreateDir { path: Seq<char> },
    WriteFile { path: Seq<char>, data: Seq<u8> },
}

impl View for ExtractStep {
    type V = StepView;

    open spec fn view(&self) -> StepView {
        match *self {
            ExtractStep::CreateDir { path } => StepView::CreateDir { path: path@ },
            ExtractStep::WriteFile { path, data } => StepView::WriteFile {
                path: path@,
                data: data@,
            },
        }
    }
}

impl StepView {
    /// The path that the step touches.
    pub open spec fn path(self) -> Seq<char> {
        match self {
            StepView::CreateDir { path } => path,
            StepView::WriteFile { path, .. } => path,
        }
    }
}

/// Whether `c` separates the components of a path.
pub open spec fn is_separator(c: char) -> bool {
    c == '/' || c == '\\'
}

/// Whether a component `..` stands at position `i` of `path`.
pub open spec fn parent_at(path: Seq<char>, i: int) -> bool {
    &&& 0 <= i
    &&& i + 2 <= path.len()
    &&& path[i] == '.'
    &&& path[i + 1] == '.'
    &&& (i == 0 || is_separator(path[i - 1]))
    &&& (i + 2 == path.len() || is_separator(path[i + 2]))
}

/// Whether a relative path stays inside the directory that it is resolved
/// in: it is not empty, does not start at the root, has no NUL character,
/// and none of its components is `..`.
pub open spec fn contained(path: Seq<char>) -> bool {
    &&& path.len() > 0
    &&& !is_separator(path[0])
    &&& forall|i: int| 0 <= i < path.len() ==> #[trigger] path[i] != '\0'
    &&& forall|i: int| !parent_at(path, i)
}

/// What unpacking does for one entry. An entry without a sanitized path, or
/// with one that is not contained, is skipped. An entry whose name ends in
/// `/` is a directory; any other is a file.
pub open spec fn step_of(entry: PackedEntryView) -> Option<StepView> {
    match entry.enclosed {
        None => None,
        Some(path) => if !contained(path) {
            None
        } else if entry.name.len() > 0 && entry.name.last() == '/' {
            Some(StepView::CreateDir { path })
        } else {
            Some(StepView::WriteFile { path, data: entry.data })
        },
    }
}

/// Whether every entry can be read.
pub open spec fn readable(entries: Seq<Option<PackedEntryView>>) -> bool {
    forall|i: int| 0 <= i < entries.len() ==> (#[trigger] entries[i]) is Some
}

/// The steps that unpack the entries, in the entries' order.
pub open spec fn steps_of(entries: Seq<Option<PackedEntryView>>) -> Seq<StepView>
    decreases entries.len(),
{
    if entries.len() == 0 {
        Seq::empty()
    } else {
        let before = steps_of(entries.drop_last());
        match entries.last() {
            Some(entry) => match step_of(entry) {
                Some(step) => before.push(step),
                None => before,
            },
            None => before,
        }
    }
}

/// The view of a list of steps.
pub open spec fn steps_view(steps: Seq<ExtractStep>) -> Seq<StepView> {
    steps.map_values(|s: ExtractStep| s@)
}

/// The plan that unpacks an archive given by its bytes, or `None` where the
/// bytes are not an archive that can be read to its end.
pub open spec fn plan_of(bytes: Seq<u8>) -> Option<Seq<StepView>> {
    match archive_of(bytes) {
        None => None,
        Some(entries) => if readable(entries) {
            Some(steps_of(entries))
        } else {
            None
        },
    }
}

/// No step that unpacks an archive leaves the directory that the archive is
/// unpacked into: every path of every step is contained, whatever the
/// entries' names are.
pub proof fn steps_stay_inside(entries: Seq<Option<PackedEntryView>>)
    ensures
        forall|k: int|
            0 <= k < steps_of(entries).len() ==> contained((#[trigger] steps_of(entries)[k]).path()),
    decreases entries.len(),
{
    if entries.len() > 0 {
        let before = steps_of(entries.drop_last());
        steps_stay_inside(entries.drop_last());
        assert forall|k: int| 0 <= k < steps_of(entries).len() implies contained(
            (#[trigger] steps_of(entries)[k]).path(),
        ) by {
            if k < before.len() {
                assert(steps_of(entries)[k] == before[k]);
            }
        }
    }
}

/// Whether `path` stays inside the directory that it is resolved in.
pub fn is_contained(path: &str) -> (r: bool)
    ensures
        r == contained(path@),
{
    let n: usize = path.unicode_len();
    if n == 0 {
        return false;
    }
    let first = path.get_char(0);
    if first == '/' || first == '\\' {
        return false;
    }
    let mut i: usize = 0;
    while i < n
        invariant
            n == path@.len(),
            i <= n,
            forall|j: int| 0 <= j < i ==> #[trigger] path@[j] != '\0',
            forall|j: int| 0 <= j < i ==> !parent_at(path@, j),
        decreases n - i,
    {
        let c = path.get_char(i);
        if c == '\0' {
            return false;
        }
        if c == '.' && i + 1 < n {
            let starts = if i == 0 {
                true
            } else {
                let before = path.get_char(i - 1);
                before == '/' || before == '\\'
            };
            let ends = if i + 2 == n {
                true
            } else {
                let after = path.get_char(i + 2);
                after == '/' || after == '\\'
            };
            if starts && ends && path.get_char(i + 1) == '.' {
                assert(parent_at(path@, i as int));
                return false;
            }
        }
        i += 1;
    }
    true
}

/// Whether `name` is the name of a directory entry: it ends in `/`.
fn names_directory(name: &str) -> (r: bool)
    ensures
        r == (name@.len() > 0 && name@.last() == '/'),
{
    let n: usize = name.unicode_len();
    n > 0 && name.get_char(n - 1) == '/'
}

/// Plans what unpacking does for one entry.
pub fn plan_entry(entry: PackedEntry) -> (r: Option<ExtractStep>)
    ensures
        match r {
            Some(step) => step_of(entry@) == Some(step@),
            None => step_of(entry@) is None,
        },
{
    let PackedEntry { name, enclosed, data } = entry;
    match enclosed {
        None => None,
        Some(path) => {
            if !is_contained(path.as_str()) {
                None
            } else if names_directory(name.as_str()) {
                Some(ExtractStep::CreateDir { path })
            } else {
                Some(ExtractStep::WriteFile { path, data })
            }
        },
    }
}

/// Plans the unpacking of an open archive: one step for each entry that is
/// kept, in the archive's order. An archive with an entry that cannot be
/// read is not unpacked at all and is an invalid plugin.
pub fn extract_archive_files(archive: zip::ZipArchive<std::io::Cursor<Vec<u8>>>) -> (r: Result<
    Vec<ExtractStep>,
    VPluginError,
>)
    ensures
        match r {
            Ok(steps) => readable(archive_entries(archive)) && steps_view(steps@) == steps_of(
                archive_entries(archive),
            ) && forall|k: int| 0 <= k < steps@.len() ==> contained((#[trigger] steps@[k])@.path()),
            Err(e) => !readable(archive_entries(archive)) && e@ == ErrorView::InvalidPlugin,
        },
{
    let ghost entries = archive_entries(archive);
    let mut reader = archive;
    let n: usize = archive_len(&reader);
    let mut steps: Vec<ExtractStep> = Vec::new();
    let mut i: usize = 0;
    while i < n
        invariant
            entries == archive_entries(archive),
            archive_entries(reader) == entries,
            n == entries.len(),
            i <= n,
            readable(entries.take(i as int)),
            steps_view(steps@) == steps_of(entries.take(i as int)),
        decreases n - i,
    {
        let ghost before = entries.take(i as int);
        let ghost upto = entries.take(i as int + 1);
        proof {
            assert(upto.drop_last() == before);
            assert(upto.last() == entries[i as int]);
        }
        match read_entry(&mut reader, i) {
            Err(_) => {
                assert(entries[i as int] is None);
                return Err(VPluginError::InvalidPlugin);
            },
            Ok(entry) => {
                match plan_entry(entry) {
                    Some(step) => {
                        proof {
                            assert(steps_view(steps@.push(step)) == steps_view(steps@).push(step@));
                        }
                        steps.push(step);
                    },
                    None => {},
                }
            },
        }
        i += 1;
        proof {
            assert forall|j: int| 0 <= j < upto.len() implies (#[trigger] upto[j]) is Some by {
                if j < i - 1 {
                    assert(upto[j] == before[j]);
                }
            }
        }
    }
    proof {
        assert(entries.take(n as int) == entries);
        steps_stay_inside(entries);
        assert forall|k: int| 0 <= k < steps@.len() implies contained(
            (#[trigger] steps@[k])@.path(),
        ) by {
            assert(steps_view(steps@)[k] == steps@[k]@);
        }
    }
    Ok(steps)
}

/// Plans the unpacking of a package given by its bytes. Bytes that are not
/// an archive, or an archive with an entry that cannot be read, are an
/// invalid plugin.
pub fn plan_extraction(bytes: Vec<u8>) -> (r: Result<Vec<ExtractStep>, VPluginError>)
    ensures
        match r {
            Ok(steps) => plan_of(bytes@) == Some(steps_view(steps@)) && forall|k: int|
                0 <= k < steps@.len() ==> contained((#[trigger] steps@[k])@.path()),
            Err(e) => plan_of(bytes@) is None && e@ == ErrorView::InvalidPlugin,
        },
{
    match open_archive(bytes) {
        Err(_) => Err(VPluginError::InvalidPlugin),
        Ok(archive) => extract_archive_files(archive),
    }
}

} // verus!
