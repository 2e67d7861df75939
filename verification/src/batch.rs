//! The readings of a batch of archives, and the rule that the first archive
//! that could not be read ends the run.

use crate::entry::Archive;
use crate::error::{ReportError, ReportErrorView};
use vstd::prelude::*;

verus! {

/// What the reading of one archive came to.
#[derive(Debug)]
pub enum Reading {
    /// The archive was read, with all its entries.
    Read(Archive),
    /// The archive could not be opened, or is no archive.
    Unreadable { path: String, cause: String },
    /// The record of one of its entries could not be read.
    EntryUnreadable { path: String, cause: String },
}

impl Reading {
    /// The error that the reading stands for, if it failed.
    pub open spec fn failure(self) -> Option<ReportErrorView> {
        match self {
            Reading::Read(_) => None,
            Reading::Unreadable { path, cause } => Some(
                ReportErrorView::ArchiveUnreadable { path: path@, cause: cause@ },
            ),
            Reading::EntryUnreadable { path, cause } => Some(
                ReportErrorView::EntryDecodeError { path: path@, cause: cause@ },
            ),
        }
    }
}

/// Every reading of the batch came to an archive.
pub open spec fn all_read(readings: Seq<Reading>) -> bool {
    forall|i: int| 0 <= i < readings.len() ==> (#[trigger] readings[i]) is Read
}

/// The archives that the readings came to, in the order of the readings.
pub open spec fn read_archives(readings: Seq<Reading>) -> Seq<Archive> {
    Seq::new(readings.len(), |i: int| readings[i]->Read_0)
}

/// The error is that of the first reading of the batch that failed.
pub open spec fn is_first_failure(readings: Seq<Reading>, error: ReportErrorView) -> bool {
    exists|i: int|
        {
            &&& 0 <= i < readings.len()
            &&& (#[trigger] readings[i]).failure() == Some(error)
            &&& forall|j: int| 0 <= j < i ==> (#[trigger] readings[j]) is Read
        }
}

/// The archives of a batch, in the order of the readings, if every one of
/// them was read; else the error of the first reading that failed. No part
/// of a batch is reported when one archive of it fails.
pub fn collect_archives(readings: Vec<Reading>) -> (collected: Result<Vec<Archive>, ReportError>)
    ensures
        collected is Ok <==> all_read(readings@),
        collected matches Ok(archives) ==> archives@ == read_archives(readings@),
        collected matches Err(error) ==> is_first_failure(readings@, error@),
{
    let mut archives: Vec<Archive> = Vec::new();
    for reading in all: readings.into_iter()
        invariant
            all.seq() == readings@,
            archives@.len() == all.index(),
            forall|i: int|
                0 <= i < all.index() ==> #[trigger] readings@[i] == Reading::Read(archives@[i]),
    {
        let ghost at = all.index() as int;
        assert(readings@[at] == reading);
        match reading {
            Reading::Read(archive) => {
                archives.push(archive);
            },
            Reading::Unreadable { path, cause } => {
                let error = ReportError::ArchiveUnreadable { path, cause };
                assert(readings@[at].failure() == Some(error@));
                assert(!(readings@[at] is Read));
                return Err(error);
            },
            Reading::EntryUnreadable { path, cause } => {
                let error = ReportError::EntryDecodeError { path, cause };
                assert(readings@[at].failure() == Some(error@));
                assert(!(readings@[at] is Read));
                return Err(error);
            },
        }
    }
    assert(archives@ =~= read_archives(readings@));
    Ok(archives)
}

} // verus!
