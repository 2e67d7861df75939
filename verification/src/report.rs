//! One run from its configuration to its output: the settings are made once,
//! before any archive is read, and exactly one of the three forms of output
//! is written from the readings of the archives.

use crate::batch::{all_read, collect_archives, is_first_failure, read_archives, Reading};
use crate::document::{batch_document, document_text};
use crate::error::{ReportError, ReportErrorView};
use crate::entry::{method_text, Archive, RawEntry};
use crate::exclusion::{excludes_name, is_literal, is_plain, is_valid_pattern, ExclusionFilter};
use crate::flat_writer::{
    archive_info, batch_info, entries_info, entry_info, kept_entries,
    lemma_empty_pattern_keeps_all, lemma_excluded_entries_leave_no_trace,
    lemma_outline_of_small_batches, MultiArchiveFlatWriter,
};
use crate::json_writer::{
    archive_objects, batch_objects, entry_report, lemma_excluded_name_is_no_key,
    lemma_keys_are_kept_names, zips_to_json, zips_to_json_pretty, ObjectView,
};
use crate::rate::{decimal_text, shown_rate};
use crate::zip_info::{Args, StatArgs, WriteZipInfo};
use vstd::prelude::*;

verus! {

/// The form in which a report is written.
#[derive(Debug, Clone, Copy, PartialEq, Eq, Structural)]
pub enum OutputMode {
    /// The indented outline.
    Flat,
    /// The structured document without white space.
    Json,
    /// The structured document, indented.
    PrettyJson,
}

/// The form of output that the two flags ask for, if they agree: the outline
/// unless one of them is set.
pub open spec fn mode_of(json: bool, pretty_json: bool) -> Option<OutputMode> {
    if json && pretty_json {
        None
    } else if json {
        Some(OutputMode::Json)
    } else if pretty_json {
        Some(OutputMode::PrettyJson)
    } else {
        Some(OutputMode::Flat)
    }
}

/// What a run works with, made from the configuration before any archive is
/// read.
pub struct Settings {
    pub exclude: ExclusionFilter,
    pub stat_args: StatArgs,
    pub mode: OutputMode,
}

/// The text that a run owes for the archives it read, in each form of
/// output.
pub open spec fn report_text(
    archives: Seq<Archive>,
    pattern: Seq<char>,
    selection: StatArgs,
    mode: OutputMode,
) -> Seq<char> {
    match mode {
        OutputMode::Flat => batch_info(archives, pattern, selection),
        OutputMode::Json => document_text(
            batch_document(batch_objects(archives, pattern, selection)),
            false,
        ),
        OutputMode::PrettyJson => document_text(
            batch_document(batch_objects(archives, pattern, selection)),
            true,
        ),
    }
}

impl Settings {
    /// The settings of a run. Flags that ask for both structured forms are
    /// refused, and so is an exclusion pattern that is not well formed, in
    /// this order; every other configuration is accepted.
    pub fn new(args: &Args) -> (made: Result<Settings, ReportError>)
        ensures
            made is Ok <==> mode_of(args.flag_json, args.flag_pretty_json) is Some
                && is_valid_pattern(args.flag_exclude@),
            made matches Ok(settings) ==> {
                &&& settings.exclude.source() == args.flag_exclude@
                &&& settings.stat_args == StatArgs::normalized(
                    args.flag_compression_type,
                    args.flag_original_size,
                    args.flag_compressed_size,
                    args.flag_compression_rate,
                )
                &&& Some(settings.mode) == mode_of(args.flag_json, args.flag_pretty_json)
            },
            made matches Err(error) ==> error@ == (if mode_of(
                args.flag_json,
                args.flag_pretty_json,
            ) is None {
                ReportErrorView::ConflictingOutputModes
            } else {
                ReportErrorView::ConfigurationError { pattern: args.flag_exclude@ }
            }),
    {
        if args.flag_json && args.flag_pretty_json {
            return Err(ReportError::ConflictingOutputModes);
        }
        let mode = if args.flag_json {
            OutputMode::Json
        } else if args.flag_pretty_json {
            OutputMode::PrettyJson
        } else {
            OutputMode::Flat
        };
        match ExclusionFilter::new(args.flag_exclude.as_str()) {
            Ok(exclude) => Ok(Settings { exclude, stat_args: StatArgs::new(args), mode }),
            Err(error) => Err(error),
        }
    }

    /// Writes the report of the archives that were read, in the form that
    /// the settings name.
    pub fn write_archives(&self, archives: &[Archive]) -> (report: String)
        ensures
            report@ == report_text(
                archives@,
                self.exclude.source(),
                self.stat_args,
                self.mode,
            ),
    {
        match self.mode {
            OutputMode::Flat => {
                let multiwriter = MultiArchiveFlatWriter::new(archives);
                multiwriter.write_zip_info(&self.exclude, &self.stat_args)
            },
            OutputMode::Json => zips_to_json(archives, &self.exclude, &self.stat_args),
            OutputMode::PrettyJson => zips_to_json_pretty(
                archives,
                &self.exclude,
                &self.stat_args,
            ),
        }
    }

    /// Writes the report of a batch from the readings of its archives. Where
    /// every archive was read the report is written, in each of the three
    /// forms. The first reading that failed ends the run with its error, and
    /// nothing of the batch is reported then.
    pub fn write_report(&self, readings: Vec<Reading>) -> (report: Result<String, ReportError>)
        ensures
            report is Ok <==> all_read(readings@),
            report matches Ok(text) ==> text@ == report_text(
                read_archives(readings@),
                self.exclude.source(),
                self.stat_args,
                self.mode,
            ),
            report matches Err(error) ==> is_first_failure(readings@, error@),
    {
        match collect_archives(readings) {
            Ok(archives) => Ok(self.write_archives(archives.as_slice())),
            Err(error) => Err(error),
        }
    }
}

/// An archive without entries has a report without entries, and its outline
/// is its path and nothing else.
pub proof fn lemma_archive_without_entries(
    path: Seq<char>,
    pattern: Seq<char>,
    selection: StatArgs,
)
    ensures
        archive_objects(Seq::empty(), pattern, selection) == Map::<
            Seq<char>,
            ObjectView,
        >::empty(),
        archive_info(path, Seq::empty(), pattern, selection) == path,
{
    assert(path + Seq::<char>::empty() =~= path);
}

/// A pattern without wildcards that is not empty is well formed and leaves
/// out every entry whose name is the pattern itself: the name is no key of
/// the archive's report, no entry of that name is among the kept entries,
/// and the outline is that of the kept entries alone.
pub proof fn lemma_literal_pattern_excludes_its_name(
    entries: Seq<RawEntry>,
    pattern: Seq<char>,
    selection: StatArgs,
)
    requires
        is_literal(pattern),
        pattern.len() > 0,
    ensures
        is_valid_pattern(pattern),
        !archive_objects(entries, pattern, selection).contains_key(pattern),
        forall|i: int|
            0 <= i < kept_entries(entries, pattern).len() ==> (#[trigger] kept_entries(
                entries,
                pattern,
            )[i]).name@ != pattern,
        entries_info(entries, pattern, selection) == entries_info(
            kept_entries(entries, pattern),
            Seq::empty(),
            selection,
        ),
{
    assert(excludes_name(pattern, pattern));
    lemma_excluded_name_is_no_key(entries, pattern, selection, pattern);
    lemma_excluded_entries_leave_no_trace(entries, pattern, selection);
    entries.filter_lemma(|entry: RawEntry| !excludes_name(pattern, entry.name@));
}

/// The empty pattern leaves out nothing: every entry is kept, the name of
/// every entry is a key of the archive's report, and the outline holds
/// every entry.
pub proof fn lemma_empty_pattern_excludes_nothing(entries: Seq<RawEntry>, selection: StatArgs)
    ensures
        is_valid_pattern(Seq::empty()),
        kept_entries(entries, Seq::empty()) == entries,
        forall|i: int|
            0 <= i < entries.len() ==> archive_objects(
                entries,
                Seq::empty(),
                selection,
            ).contains_key((#[trigger] entries[i]).name@),
{
    lemma_empty_pattern_keeps_all(entries);
    assert forall|i: int| 0 <= i < entries.len() implies archive_objects(
        entries,
        Seq::empty(),
        selection,
    ).contains_key((#[trigger] entries[i]).name@) by {
        lemma_keys_are_kept_names(entries, Seq::empty(), selection, entries[i].name@);
    }
}

/// A plain pattern that is not empty leaves out the entries whose name is
/// the pattern, and no others: the name of every other entry is a key of the
/// archive's report, and every other entry is among the kept ones.
pub proof fn lemma_plain_pattern_excludes_only_its_name(
    entries: Seq<RawEntry>,
    pattern: Seq<char>,
    selection: StatArgs,
)
    requires
        is_plain(pattern),
        pattern.len() > 0,
    ensures
        !archive_objects(entries, pattern, selection).contains_key(pattern),
        forall|i: int|
            0 <= i < entries.len() && (#[trigger] entries[i]).name@ != pattern ==> {
                &&& archive_objects(entries, pattern, selection).contains_key(entries[i].name@)
                &&& kept_entries(entries, pattern).contains(entries[i])
            },
{
    lemma_literal_pattern_excludes_its_name(entries, pattern, selection);
    entries.filter_lemma(|entry: RawEntry| !excludes_name(pattern, entry.name@));
    assert forall|i: int|
        0 <= i < entries.len() && (#[trigger] entries[i]).name@ != pattern implies {
        &&& archive_objects(entries, pattern, selection).contains_key(entries[i].name@)
        &&& kept_entries(entries, pattern).contains(entries[i])
    } by {
        assert(!excludes_name(pattern, entries[i].name@));
        lemma_keys_are_kept_names(entries, pattern, selection, entries[i].name@);
    }
}

/// The outline of an entry without comment, with every statistic selected:
/// the name, one tab deep, and below it four lines, two tabs deep, in the
/// order type, original size, compressed size, rate.
pub proof fn lemma_outline_with_all_statistics(entry: RawEntry)
    requires
        entry.comment@.len() == 0,
    ensures
        entry_info(entry.name@, entry_report(entry, StatArgs::all())) == "\n\t"@ + entry.name@
            + "\n\t\tCompression type: "@ + method_text(entry.compression)
            + "\n\t\tOriginal size: "@ + decimal_text(entry.original_size as nat)
            + "\n\t\tCompressed size: "@ + decimal_text(entry.compressed_size as nat)
            + "\n\t\tCompression_rate: "@ + shown_rate(
            entry.original_size,
            entry.compression_rate@,
        ),
{
    let report = entry_report(entry, StatArgs::all());
    assert(entry_info(entry.name@, report) =~= "\n\t"@ + entry.name@
        + "\n\t\tCompression type: "@ + method_text(entry.compression)
        + "\n\t\tOriginal size: "@ + decimal_text(entry.original_size as nat)
        + "\n\t\tCompressed size: "@ + decimal_text(entry.compressed_size as nat)
        + "\n\t\tCompression_rate: "@ + shown_rate(
        entry.original_size,
        entry.compression_rate@,
    ));
}

/// The outline of an archive with one entry, which the pattern keeps,
/// followed by an archive without entries: the first path, the outline of
/// the entry, a line break, and the second path alone.
pub proof fn lemma_outline_of_archive_and_empty_archive(
    first: Archive,
    second: Archive,
    pattern: Seq<char>,
    selection: StatArgs,
)
    requires
        first.entries@.len() == 1,
        !excludes_name(pattern, first.entries@[0].name@),
        second.entries@.len() == 0,
    ensures
        batch_info(seq![first, second], pattern, selection) == first.path@ + entry_info(
            first.entries@[0].name@,
            entry_report(first.entries@[0], selection),
        ) + "\n"@ + second.path@,
{
    let entries = first.entries@;
    lemma_outline_of_small_batches(first, second, pattern, selection);
    assert(entries.drop_last() =~= Seq::<RawEntry>::empty());
    assert(entries.last() == entries[0]);
    assert(entries_info(entries.drop_last(), pattern, selection) =~= Seq::<char>::empty());
    assert(entries_info(entries, pattern, selection) =~= entry_info(
        entries[0].name@,
        entry_report(entries[0], selection),
    ));
    assert(entries_info(second.entries@, pattern, selection) =~= Seq::<char>::empty());
    assert(archive_info(second.path@, second.entries@, pattern, selection) =~= second.path@);
}

} // verus!
