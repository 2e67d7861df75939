//! The run's configuration and the selection of statistics derived from it.

use crate::exclusion::ExclusionFilter;
use vstd::prelude::*;

verus! {

/// A writer of the outline of what it was made for.
pub trait WriteZipInfo {
    /// The outline that the writer gives under an exclusion pattern and a
    /// selection of statistics.
    spec fn info_text(&self, pattern: Seq<char>, selection: StatArgs) -> Seq<char>;

    /// Writes the outline, without the entries that the filter leaves out and
    /// with the statistics that are selected.
    fn write_zip_info(&self, exclude: &ExclusionFilter, stat_args: &StatArgs) -> (info: String)
        ensures
            info@ == self.info_text(exclude.source(), *stat_args),
    ;
}

/// The configuration of one run, as the command line gives it.
#[derive(Debug, Clone)]
pub struct Args {
    pub arg_path: Vec<String>,
    pub flag_json: bool,
    pub flag_pretty_json: bool,
    pub flag_exclude: String,
    pub flag_compression_type: bool,
    pub flag_original_size: bool,
    pub flag_compressed_size: bool,
    pub flag_compression_rate: bool,
}

/// Which statistics are computed and shown for each entry.
#[derive(Debug, Clone, Copy, PartialEq, Eq, Structural)]
pub struct StatArgs {
    pub flag_compression_type: bool,
    pub flag_original_size: bool,
    pub flag_compressed_size: bool,
    pub flag_compression_rate: bool,
}

impl StatArgs {
    /// The selection with all four statistics switched on.
    pub open spec fn all() -> StatArgs {
        StatArgs {
            flag_compression_type: true,
            flag_original_size: true,
            flag_compressed_size: true,
            flag_compression_rate: true,
        }
    }

    /// No statistic is switched on.
    pub open spec fn none_selected(self) -> bool {
        !self.flag_compression_type && !self.flag_original_size && !self.flag_compressed_size
            && !self.flag_compression_rate
    }

    /// The selection that four requested toggles stand for: the toggles
    /// themselves, unless none is set, in which case all four are shown.
    pub open spec fn normalized(
        compression_type: bool,
        original_size: bool,
        compressed_size: bool,
        compression_rate: bool,
    ) -> StatArgs {
        let requested = StatArgs {
            flag_compression_type: compression_type,
            flag_original_size: original_size,
            flag_compressed_size: compressed_size,
            flag_compression_rate: compression_rate,
        };
        if requested.none_selected() {
            StatArgs::all()
        } else {
            requested
        }
    }

    /// Derives the selection from the configuration. A configuration that asks
    /// for no statistic at all gets every statistic.
    pub fn new(args: &Args) -> (selection: StatArgs)
        ensures
            selection == StatArgs::normalized(
                args.flag_compression_type,
                args.flag_original_size,
                args.flag_compressed_size,
                args.flag_compression_rate,
            ),
            !selection.none_selected(),
    {
        let mut stat_args = StatArgs {
            flag_compression_type: args.flag_compression_type,
            flag_original_size: args.flag_original_size,
            flag_compressed_size: args.flag_compressed_size,
            flag_compression_rate: args.flag_compression_rate,
        };
        if stat_args.is_all_false() {
            stat_args = StatArgs::default();
        }
        stat_args
    }

    /// The selection that shows everything.
    pub fn default() -> (selection: StatArgs)
        ensures
            selection == StatArgs::all(),
    {
        StatArgs {
            flag_compression_type: true,
            flag_original_size: true,
            flag_compressed_size: true,
            flag_compression_rate: true,
        }
    }

    /// Whether no statistic is switched on.
    pub fn is_all_false(&self) -> (none: bool)
        ensures
            none == self.none_selected(),
    {
        !(self.flag_compression_type || self.flag_original_size || self.flag_compressed_size
            || self.flag_compression_rate)
    }
}

/// Asking for nothing and asking for everything give the same selection, and
/// a selection that asks for something is kept as it is.
pub proof fn lemma_selection_defaults_to_all(a: bool, b: bool, c: bool, d: bool)
    ensures
        StatArgs::normalized(false, false, false, false) == StatArgs::normalized(
            true,
            true,
            true,
            true,
        ),
        StatArgs::normalized(false, false, false, false) == StatArgs::all(),
        (a || b || c || d) ==> StatArgs::normalized(a, b, c, d) == (StatArgs {
            flag_compression_type: a,
            flag_original_size: b,
            flag_compressed_size: c,
            flag_compression_rate: d,
        }),
        !StatArgs::normalized(a, b, c, d).none_selected(),
{
}

} // verus!
