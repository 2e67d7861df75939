//! The outline form of a report: each archive's path, and below it, indented,
//! its entries with their statistics, in the order in which they were read.

use crate::entry::{Archive, RawEntry};
use crate::exclusion::{excludes_name, ExclusionFilter};
use crate::json_writer::{entry_report, ObjectView, ZipObjectJsonWriter};
use crate::rate::{append_decimal, decimal_text};
use crate::zip_info::{StatArgs, WriteZipInfo};
use vstd::prelude::*;
use vstd::string::StringExecFns;

verus! {

/// A labelled line for a value that is present, and nothing for one that is
/// absent.
pub open spec fn optional_line(label: Seq<char>, value: Option<Seq<char>>) -> Seq<char> {
    match value {
        Some(text) => label + text,
        None => Seq::empty(),
    }
}

/// A byte count that may be absent, in decimal.
pub open spec fn size_text(size: Option<u64>) -> Option<Seq<char>> {
    match size {
        Some(n) => Some(decimal_text(n as nat)),
        None => None,
    }
}

/// The outline of one entry: a line with its name, one tab deep, and below
/// it, two tabs deep, a line for each statistic that is reported, in the
/// order type, original size, compressed size, rate, and a line for the
/// comment if there is one.
pub open spec fn entry_info(name: Seq<char>, object: ObjectView) -> Seq<char> {
    "\n\t"@ + name + optional_line("\n\t\tCompression type: "@, object.compression_type)
        + optional_line("\n\t\tOriginal size: "@, size_text(object.original_size))
        + optional_line("\n\t\tCompressed size: "@, size_text(object.compressed_size))
        + optional_line("\n\t\tCompression_rate: "@, object.compression_rate) + optional_line(
        "\n\t\tComment: "@,
        object.comment,
    )
}

/// The outlines of the entries that the pattern does not leave out, one after
/// the other in the order of the entries.
pub open spec fn entries_info(
    entries: Seq<RawEntry>,
    pattern: Seq<char>,
    selection: StatArgs,
) -> Seq<char>
    decreases entries.len(),
{
    if entries.len() == 0 {
        Seq::empty()
    } else {
        let earlier = entries_info(entries.drop_last(), pattern, selection);
        let entry = entries.last();
        if excludes_name(pattern, entry.name@) {
            earlier
        } else {
            earlier + entry_info(entry.name@, entry_report(entry, selection))
        }
    }
}

/// The outline of one archive: its path, then its entries.
pub open spec fn archive_info(
    path: Seq<char>,
    entries: Seq<RawEntry>,
    pattern: Seq<char>,
    selection: StatArgs,
) -> Seq<char> {
    path + entries_info(entries, pattern, selection)
}

/// The outline of a batch: the outlines of its archives in their order, with
/// one line break between one archive and the next.
pub open spec fn batch_info(
    archives: Seq<Archive>,
    pattern: Seq<char>,
    selection: StatArgs,
) -> Seq<char>
    decreases archives.len(),
{
    if archives.len() == 0 {
        Seq::empty()
    } else {
        let last = archive_info(
            archives.last().path@,
            archives.last().entries@,
            pattern,
            selection,
        );
        if archives.len() == 1 {
            last
        } else {
            batch_info(archives.drop_last(), pattern, selection) + "\n"@ + last
        }
    }
}

fn append_optional_text(info: &mut String, label: &str, value: &Option<String>)
    ensures
        final(info)@ == old(info)@ + optional_line(label@, crate::json_writer::text_view(*value)),
{
    match value {
        Some(text) => {
            info.append(label);
            info.append(text.as_str());
            assert(final(info)@ =~= old(info)@ + (label@ + text@));
        },
        None => {
            assert(info@ =~= old(info)@ + Seq::<char>::empty());
        },
    }
}

fn append_optional_size(info: &mut String, label: &str, value: Option<u64>)
    ensures
        final(info)@ == old(info)@ + optional_line(label@, size_text(value)),
{
    match value {
        Some(size) => {
            info.append(label);
            append_decimal(info, size as u128);
            assert(final(info)@ =~= old(info)@ + (label@ + decimal_text(size as nat)));
        },
        None => {
            assert(info@ =~= old(info)@ + Seq::<char>::empty());
        },
    }
}

/// Writes the outline of one entry from its report.
pub fn write_entry_report(name: &str, object: &ZipObjectJsonWriter) -> (info: String)
    ensures
        info@ == entry_info(name@, object@),
{
    let mut info = String::from_str("\n\t");
    info.append(name);
    append_optional_text(&mut info, "\n\t\tCompression type: ", &object.compression_type);
    append_optional_size(&mut info, "\n\t\tOriginal size: ", object.original_size);
    append_optional_size(&mut info, "\n\t\tCompressed size: ", object.compressed_size);
    append_optional_text(&mut info, "\n\t\tCompression_rate: ", &object.compression_rate);
    append_optional_text(&mut info, "\n\t\tComment: ", &object.comment);
    info
}

/// Writes the outline of one entry of an archive, with the statistics that
/// are selected.
pub fn info_for_archive_item(archive_item: &RawEntry, stat_args: &StatArgs) -> (info: String)
    ensures
        info@ == entry_info(archive_item.name@, entry_report(*archive_item, *stat_args)),
{
    let object = ZipObjectJsonWriter::from_entry(archive_item, stat_args);
    write_entry_report(archive_item.name.as_str(), &object)
}

/// Writes the outline of one archive.
pub struct ZipInfoFlatWriter<'a> {
    entries: &'a [RawEntry],
    path_name: &'a str,
}

impl<'a> ZipInfoFlatWriter<'a> {
    /// The path of the archive.
    pub closed spec fn path(&self) -> Seq<char> {
        self.path_name@
    }

    /// The entries of the archive, in its own order.
    pub closed spec fn items(&self) -> Seq<RawEntry> {
        self.entries@
    }

    /// A writer for the archive at this path with these entries.
    pub fn new(file_path: &'a str, entries: &'a [RawEntry]) -> (writer: ZipInfoFlatWriter<'a>)
        ensures
            writer.path() == file_path@,
            writer.items() == entries@,
    {
        ZipInfoFlatWriter { entries, path_name: file_path }
    }
}

impl<'a> WriteZipInfo for ZipInfoFlatWriter<'a> {
    open spec fn info_text(&self, pattern: Seq<char>, selection: StatArgs) -> Seq<char> {
        archive_info(self.path(), self.items(), pattern, selection)
    }

    /// The path of the archive, followed by the outline of each entry that
    /// the filter does not leave out.
    fn write_zip_info(&self, exclude: &ExclusionFilter, stat_args: &StatArgs) -> (info: String) {
        let mut info = String::from_str(self.path_name);
        let mut i: usize = 0;
        while i < self.entries.len()
            invariant
                i <= self.entries@.len(),
                info@ == self.path_name@ + entries_info(
                    self.entries@.take(i as int),
                    exclude.source(),
                    *stat_args,
                ),
            decreases self.entries@.len() - i,
        {
            let archive_item = &self.entries[i];
            proof {
                assert(self.entries@.take(i + 1).drop_last() =~= self.entries@.take(i as int));
                assert(self.entries@.take(i + 1).last() == self.entries@[i as int]);
            }
            if !exclude.matches(archive_item.name.as_str()) {
                let item_info = info_for_archive_item(archive_item, stat_args);
                info.append(item_info.as_str());
                assert(info@ =~= self.path_name@ + (entries_info(
                    self.entries@.take(i as int),
                    exclude.source(),
                    *stat_args,
                ) + item_info@));
            }
            i += 1;
        }
        assert(self.entries@.take(i as int) =~= self.entries@);
        info
    }
}

/// Writes the outline of a batch of archives.
pub struct MultiArchiveFlatWriter<'a> {
    archives: &'a [Archive],
}

impl<'a> MultiArchiveFlatWriter<'a> {
    /// The archives of the batch, in the order in which they were given.
    pub closed spec fn batch(&self) -> Seq<Archive> {
        self.archives@
    }

    /// A writer for these archives.
    pub fn new(archives: &'a [Archive]) -> (writer: MultiArchiveFlatWriter<'a>)
        ensures
            writer.batch() == archives@,
    {
        MultiArchiveFlatWriter { archives }
    }
}

impl<'a> WriteZipInfo for MultiArchiveFlatWriter<'a> {
    open spec fn info_text(&self, pattern: Seq<char>, selection: StatArgs) -> Seq<char> {
        batch_info(self.batch(), pattern, selection)
    }

    /// The outlines of the archives in their order, joined by line breaks.
    fn write_zip_info(&self, exclude: &ExclusionFilter, stat_args: &StatArgs) -> (info: String) {
        let mut output = String::new();
        let mut i: usize = 0;
        while i < self.archives.len()
            invariant
                i <= self.archives@.len(),
                output@ == batch_info(self.archives@.take(i as int), exclude.source(), *stat_args),
            decreases self.archives@.len() - i,
        {
            let archive = &self.archives[i];
            proof {
                assert(self.archives@.take(i + 1).drop_last() =~= self.archives@.take(i as int));
                assert(self.archives@.take(i + 1).last() == self.archives@[i as int]);
            }
            let archive_info = ZipInfoFlatWriter::new(
                archive.path.as_str(),
                archive.entries.as_slice(),
            ).write_zip_info(exclude, stat_args);
            if i > 0 {
                output.append("\n");
            }
            output.append(archive_info.as_str());
            assert(output@ =~= batch_info(
                self.archives@.take(i + 1),
                exclude.source(),
                *stat_args,
            ));
            i += 1;
        }
        assert(self.archives@.take(i as int) =~= self.archives@);
        output
    }
}

/// The entries that the pattern does not leave out, in their order.
pub open spec fn kept_entries(entries: Seq<RawEntry>, pattern: Seq<char>) -> Seq<RawEntry> {
    entries.filter(|entry: RawEntry| !excludes_name(pattern, entry.name@))
}

/// The empty pattern keeps every entry.
pub proof fn lemma_empty_pattern_keeps_all(entries: Seq<RawEntry>)
    ensures
        kept_entries(entries, Seq::empty()) == entries,
    decreases entries.len(),
{
    reveal(Seq::filter);
    if entries.len() > 0 {
        lemma_empty_pattern_keeps_all(entries.drop_last());
        assert(entries.drop_last().push(entries.last()) =~= entries);
    }
}

/// An entry that the pattern leaves out leaves no trace in the outline: the
/// outline is that of the kept entries alone, drawn without any exclusion.
pub proof fn lemma_excluded_entries_leave_no_trace(
    entries: Seq<RawEntry>,
    pattern: Seq<char>,
    selection: StatArgs,
)
    ensures
        entries_info(entries, pattern, selection) == entries_info(
            kept_entries(entries, pattern),
            Seq::empty(),
            selection,
        ),
    decreases entries.len(),
{
    reveal(Seq::filter);
    if entries.len() > 0 {
        lemma_excluded_entries_leave_no_trace(entries.drop_last(), pattern, selection);
        let kept_before = kept_entries(entries.drop_last(), pattern);
        if !excludes_name(pattern, entries.last().name@) {
            let kept = kept_before.push(entries.last());
            assert(kept_entries(entries, pattern) == kept);
            assert(kept.drop_last() =~= kept_before);
            assert(kept.last() == entries.last());
        }
    }
}

/// The outline of a batch of one archive is the outline of that archive,
/// with no line break before or after it, and the outline of a batch of two
/// is their two outlines with one line break between them.
pub proof fn lemma_outline_of_small_batches(
    first: Archive,
    second: Archive,
    pattern: Seq<char>,
    selection: StatArgs,
)
    ensures
        batch_info(Seq::empty(), pattern, selection) == Seq::<char>::empty(),
        batch_info(seq![first], pattern, selection) == archive_info(
            first.path@,
            first.entries@,
            pattern,
            selection,
        ),
        batch_info(seq![first, second], pattern, selection) == archive_info(
            first.path@,
            first.entries@,
            pattern,
            selection,
        ) + "\n"@ + archive_info(second.path@, second.entries@, pattern, selection),
{
    let both = seq![first, second];
    assert(both.drop_last() =~= seq![first]);
    assert(both.last() == second);
    assert(seq![first].last() == first);
    assert(batch_info(seq![first], pattern, selection) == archive_info(
        first.path@,
        first.entries@,
        pattern,
        selection,
    ));
}

} // verus!
