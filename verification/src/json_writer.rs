//! The keyed form of a report: for each archive path the entries by name, and
//! for each entry the statistics that were selected.

use crate::document::{batch_document, document_text, write_compact, write_pretty};
use crate::entry::{method_text, method_to_string, Archive, RawEntry};
use crate::exclusion::{excludes_name, ExclusionFilter};
use crate::keyed::KeyedList;
use crate::rate::{rate_to_show, shown_rate};
use crate::zip_info::StatArgs;
use vstd::prelude::*;

verus! {

/// The report of a batch of archives as compact JSON: an object with a member
/// for each archive, under its path, which has a member for each entry that
/// the filter does not leave out, under its name, which has a member for
/// each statistic that is selected.
pub fn zips_to_json(
    archives: &[Archive],
    exclude: &ExclusionFilter,
    stat_args: &StatArgs,
) -> (json: String)
    ensures
        json@ == document_text(
            batch_document(batch_objects(archives@, exclude.source(), *stat_args)),
            false,
        ),
{
    zips_to_json_with_printer(archives, exclude, stat_args, false)
}

/// The report of a batch of archives as indented JSON, with the same members
/// as the compact form.
pub fn zips_to_json_pretty(
    archives: &[Archive],
    exclude: &ExclusionFilter,
    stat_args: &StatArgs,
) -> (json: String)
    ensures
        json@ == document_text(
            batch_document(batch_objects(archives@, exclude.source(), *stat_args)),
            true,
        ),
{
    zips_to_json_with_printer(archives, exclude, stat_args, true)
}

fn zips_to_json_with_printer(
    archives: &[Archive],
    exclude: &ExclusionFilter,
    stat_args: &StatArgs,
    pretty: bool,
) -> (json: String)
    ensures
        json@ == document_text(
            batch_document(batch_objects(archives@, exclude.source(), *stat_args)),
            pretty,
        ),
{
    let multi_archive = MultiArchiveJsonWriter::from(archives, exclude, stat_args);
    let value = multi_archive.to_value();
    if pretty {
        write_pretty(&value).unwrap()
    } else {
        write_compact(&value).unwrap()
    }
}

/// What is reported of one entry. A statistic that was not selected is
/// absent, and so is an empty comment.
#[derive(Debug, Clone, PartialEq, Eq)]
pub struct ZipObjectJsonWriter {
    pub compression_type: Option<String>,
    pub original_size: Option<u64>,
    pub compressed_size: Option<u64>,
    pub compression_rate: Option<String>,
    pub comment: Option<String>,
}

/// What a `ZipObjectJsonWriter` holds, as plain values.
pub struct ObjectView {
    pub compression_type: Option<Seq<char>>,
    pub original_size: Option<u64>,
    pub compressed_size: Option<u64>,
    pub compression_rate: Option<Seq<char>>,
    pub comment: Option<Seq<char>>,
}

/// The view of a text that may be absent.
pub open spec fn text_view(text: Option<String>) -> Option<Seq<char>> {
    match text {
        Some(t) => Some(t@),
        None => None,
    }
}

impl View for ZipObjectJsonWriter {
    type V = ObjectView;

    open spec fn view(&self) -> ObjectView {
        ObjectView {
            compression_type: text_view(self.compression_type),
            original_size: self.original_size,
            compressed_size: self.compressed_size,
            compression_rate: text_view(self.compression_rate),
            comment: text_view(self.comment),
        }
    }
}

/// The report of an entry with the given facts and no comment: the method as
/// text where one is given, and of the sizes and the rate those that the
/// selection asks for. The rate is the one that was worked out for the entry;
/// an entry without content has the rate `0.00%`.
pub open spec fn object_of(
    method: Option<zip::CompressionMethod>,
    original_size: u64,
    compressed_size: u64,
    compression_rate: Seq<char>,
    selection: StatArgs,
) -> ObjectView {
    ObjectView {
        compression_type: match method {
            Some(m) => Some(method_text(m)),
            None => None,
        },
        original_size: if selection.flag_original_size {
            Some(original_size)
        } else {
            None
        },
        compressed_size: if selection.flag_compressed_size {
            Some(compressed_size)
        } else {
            None
        },
        compression_rate: if selection.flag_compression_rate {
            Some(shown_rate(original_size, compression_rate))
        } else {
            None
        },
        comment: None,
    }
}

/// The report of an entry under a selection: the selected statistics, and
/// the comment unless it is empty.
pub open spec fn entry_report(entry: RawEntry, selection: StatArgs) -> ObjectView {
    let method = if selection.flag_compression_type {
        Some(entry.compression)
    } else {
        None
    };
    ObjectView {
        comment: if entry.comment@.len() > 0 {
            Some(entry.comment@)
        } else {
            None
        },
        ..object_of(
            method,
            entry.original_size,
            entry.compressed_size,
            entry.compression_rate@,
            selection,
        )
    }
}

impl ZipObjectJsonWriter {
    /// The report of an entry from its facts. The compression method is
    /// handed over only where it is to be shown; the rate is handed over as
    /// it was worked out, and is shown where the selection asks for it.
    pub fn new(
        compression_type: Option<zip::CompressionMethod>,
        original_size: u64,
        compressed_size: u64,
        compression_rate: &str,
        stat_args: &StatArgs,
    ) -> (object: ZipObjectJsonWriter)
        ensures
            object@ == object_of(
                compression_type,
                original_size,
                compressed_size,
                compression_rate@,
                *stat_args,
            ),
    {
        ZipObjectJsonWriter {
            compression_type: match compression_type {
                Some(method) => Some(method_to_string(method)),
                None => None,
            },
            original_size: if stat_args.flag_original_size {
                Some(original_size)
            } else {
                None
            },
            compressed_size: if stat_args.flag_compressed_size {
                Some(compressed_size)
            } else {
                None
            },
            compression_rate: if stat_args.flag_compression_rate {
                Some(rate_to_show(original_size, compression_rate))
            } else {
                None
            },
            comment: None,
        }
    }

    /// The report of one entry of an archive.
    pub fn from_entry(entry: &RawEntry, stat_args: &StatArgs) -> (object: ZipObjectJsonWriter)
        ensures
            object@ == entry_report(*entry, *stat_args),
    {
        let method = if stat_args.flag_compression_type {
            Some(entry.compression)
        } else {
            None
        };
        let mut object = ZipObjectJsonWriter::new(
            method,
            entry.original_size,
            entry.compressed_size,
            entry.compression_rate.as_str(),
            stat_args,
        );
        if !entry.comment.as_str().is_empty() {
            object.comment = Some(entry.comment.clone());
        }
        object
    }
}

/// The entries of one archive by name: each entry that the pattern does not
/// leave out, with its report. Of two entries with one name the later one
/// stays.
pub open spec fn archive_objects(
    entries: Seq<RawEntry>,
    pattern: Seq<char>,
    selection: StatArgs,
) -> Map<Seq<char>, ObjectView>
    decreases entries.len(),
{
    if entries.len() == 0 {
        Map::empty()
    } else {
        let earlier = archive_objects(entries.drop_last(), pattern, selection);
        let entry = entries.last();
        if excludes_name(pattern, entry.name@) {
            earlier
        } else {
            earlier.insert(entry.name@, entry_report(entry, selection))
        }
    }
}

/// The archives by path, each with its entries by name. Of two archives with
/// one path the later one stays.
pub open spec fn batch_objects(
    archives: Seq<Archive>,
    pattern: Seq<char>,
    selection: StatArgs,
) -> Map<Seq<char>, Map<Seq<char>, ObjectView>>
    decreases archives.len(),
{
    if archives.len() == 0 {
        Map::empty()
    } else {
        batch_objects(archives.drop_last(), pattern, selection).insert(
            archives.last().path@,
            archive_objects(archives.last().entries@, pattern, selection),
        )
    }
}

/// The report of one archive: its entries by name.
#[derive(Debug)]
pub struct ZipArchiveJsonWriter {
    pub objects: KeyedList<ZipObjectJsonWriter>,
}

impl View for ZipArchiveJsonWriter {
    type V = Map<Seq<char>, ObjectView>;

    open spec fn view(&self) -> Map<Seq<char>, ObjectView> {
        self.objects.map().map_values(|object: ZipObjectJsonWriter| object@)
    }
}

impl ZipArchiveJsonWriter {
    /// The report of an archive without entries.
    pub fn new() -> (archive: ZipArchiveJsonWriter)
        ensures
            archive@ == Map::<Seq<char>, ObjectView>::empty(),
            archive.objects.pairs().len() == 0,
    {
        let archive = ZipArchiveJsonWriter { objects: KeyedList::new() };
        assert(archive@ =~= Map::<Seq<char>, ObjectView>::empty());
        archive
    }

    /// The report of an archive from its entries, taken in their order: every
    /// entry that the filter does not leave out, under its name, with the
    /// statistics that are selected.
    pub fn from(
        entries: &[RawEntry],
        exclude: &ExclusionFilter,
        stat_args: &StatArgs,
    ) -> (archive: ZipArchiveJsonWriter)
        ensures
            archive@ == archive_objects(entries@, exclude.source(), *stat_args),
    {
        let mut archive_writer = ZipArchiveJsonWriter::new();
        let mut i: usize = 0;
        while i < entries.len()
            invariant
                i <= entries@.len(),
                archive_writer@ == archive_objects(
                    entries@.take(i as int),
                    exclude.source(),
                    *stat_args,
                ),
            decreases entries@.len() - i,
        {
            let entry = &entries[i];
            let ghost before = archive_writer;
            proof {
                assert(entries@.take(i + 1).drop_last() =~= entries@.take(i as int));
                assert(entries@.take(i + 1).last() == entries@[i as int]);
            }
            if !exclude.matches(entry.name.as_str()) {
                let object = ZipObjectJsonWriter::from_entry(entry, stat_args);
                archive_writer.objects.insert(entry.name.clone(), object);
                assert(archive_writer@ =~= before@.insert(entry.name@, object@));
            }
            i += 1;
        }
        assert(entries@.take(i as int) =~= entries@);
        archive_writer
    }
}

/// The report of a batch of archives: the archives by path.
#[derive(Debug)]
pub struct MultiArchiveJsonWriter {
    pub archives: KeyedList<ZipArchiveJsonWriter>,
}

impl View for MultiArchiveJsonWriter {
    type V = Map<Seq<char>, Map<Seq<char>, ObjectView>>;

    open spec fn view(&self) -> Map<Seq<char>, Map<Seq<char>, ObjectView>> {
        self.archives.map().map_values(|archive: ZipArchiveJsonWriter| archive@)
    }
}

impl MultiArchiveJsonWriter {
    /// The report of a batch without archives.
    pub fn new() -> (batch: MultiArchiveJsonWriter)
        ensures
            batch@ == Map::<Seq<char>, Map<Seq<char>, ObjectView>>::empty(),
            batch.archives.pairs().len() == 0,
    {
        let batch = MultiArchiveJsonWriter { archives: KeyedList::new() };
        assert(batch@ =~= Map::<Seq<char>, Map<Seq<char>, ObjectView>>::empty());
        batch
    }

    /// The report of a batch of archives, taken in their order: each archive
    /// under its path, with the report of its entries.
    pub fn from(
        archives: &[Archive],
        exclude: &ExclusionFilter,
        stat_args: &StatArgs,
    ) -> (batch: MultiArchiveJsonWriter)
        ensures
            batch@ == batch_objects(archives@, exclude.source(), *stat_args),
    {
        let mut multi_archive = MultiArchiveJsonWriter::new();
        let mut i: usize = 0;
        while i < archives.len()
            invariant
                i <= archives@.len(),
                multi_archive@ == batch_objects(
                    archives@.take(i as int),
                    exclude.source(),
                    *stat_args,
                ),
            decreases archives@.len() - i,
        {
            let archive = &archives[i];
            let ghost before = multi_archive;
            proof {
                assert(archives@.take(i + 1).drop_last() =~= archives@.take(i as int));
                assert(archives@.take(i + 1).last() == archives@[i as int]);
            }
            let report = ZipArchiveJsonWriter::from(archive.entries.as_slice(), exclude, stat_args);
            multi_archive.archives.insert(archive.path.clone(), report);
            assert(multi_archive@ =~= before@.insert(archive.path@, report@));
            i += 1;
        }
        assert(archives@.take(i as int) =~= archives@);
        multi_archive
    }
}

/// A name that the pattern leaves out is no key of the report, whatever the
/// entries are.
pub proof fn lemma_excluded_name_is_no_key(
    entries: Seq<RawEntry>,
    pattern: Seq<char>,
    selection: StatArgs,
    name: Seq<char>,
)
    requires
        excludes_name(pattern, name),
    ensures
        !archive_objects(entries, pattern, selection).contains_key(name),
    decreases entries.len(),
{
    if entries.len() > 0 {
        lemma_excluded_name_is_no_key(entries.drop_last(), pattern, selection, name);
    }
}

/// A name is a key of the report exactly if some entry that the pattern does
/// not leave out has it.
pub proof fn lemma_keys_are_kept_names(
    entries: Seq<RawEntry>,
    pattern: Seq<char>,
    selection: StatArgs,
    name: Seq<char>,
)
    ensures
        archive_objects(entries, pattern, selection).contains_key(name) <==> !excludes_name(
            pattern,
            name,
        ) && exists|i: int| 0 <= i < entries.len() && (#[trigger] entries[i]).name@ == name,
    decreases entries.len(),
{
    if entries.len() > 0 {
        let earlier = entries.drop_last();
        lemma_keys_are_kept_names(earlier, pattern, selection, name);
        if exists|i: int| 0 <= i < earlier.len() && (#[trigger] earlier[i]).name@ == name {
            let i = choose|i: int| 0 <= i < earlier.len() && (#[trigger] earlier[i]).name@ == name;
            assert(entries[i].name@ == name);
        }
        if exists|i: int| 0 <= i < entries.len() && (#[trigger] entries[i]).name@ == name {
            let i = choose|i: int| 0 <= i < entries.len() && (#[trigger] entries[i]).name@ == name;
            if i < earlier.len() {
                assert(earlier[i].name@ == name);
            }
        }
        if entries.last().name@ == name {
            assert(entries[entries.len() - 1].name@ == name);
        }
    }
}

/// An entry that is kept, and that no later entry shares its name with, is
/// reported under its name with its own statistics: of entries with one name
/// the last one wins.
pub proof fn lemma_last_entry_wins(
    entries: Seq<RawEntry>,
    pattern: Seq<char>,
    selection: StatArgs,
    i: int,
)
    requires
        0 <= i < entries.len(),
        !excludes_name(pattern, entries[i].name@),
        forall|j: int| i < j < entries.len() ==> (#[trigger] entries[j]).name@ != entries[i].name@,
    ensures
        archive_objects(entries, pattern, selection).contains_key(entries[i].name@),
        archive_objects(entries, pattern, selection)[entries[i].name@] == entry_report(
            entries[i],
            selection,
        ),
    decreases entries.len(),
{
    if i < entries.len() - 1 {
        let earlier = entries.drop_last();
        assert(earlier[i] == entries[i]);
        assert forall|j: int| i < j < earlier.len() implies (#[trigger] earlier[j]).name@
            != earlier[i].name@ by {
            assert(entries[j].name@ != entries[i].name@);
        }
        lemma_last_entry_wins(earlier, pattern, selection, i);
        assert(entries[entries.len() - 1].name@ != entries[i].name@);
    }
}

} // verus!
