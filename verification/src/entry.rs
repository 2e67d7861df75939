//! What the reading of an archive hands over: the facts of each entry, in
//! the order in which the archive lists them.

use vstd::prelude::*;

verus! {

/// The compression method of an entry, as the `zip` crate tells it. It is
/// carried through unread; `method_text` is the text it is shown as.
#[verifier::external_type_specification]
#[verifier::external_body]
pub struct ExCompressionMethod(zip::CompressionMethod);

/// The text that the `zip` crate's `Display` gives for a compression method.
pub uninterp spec fn method_text(method: zip::CompressionMethod) -> Seq<char>;

/// Formats a compression method with the `Display` of `zip::CompressionMethod`.
/// The text depends on the method alone.
#[verifier::external_body]
pub(crate) fn method_to_string(method: zip::CompressionMethod) -> (text: String)
    ensures
        text@ == method_text(method),
{
    format!("{}", method)
}

/// One entry of an archive: its name and the facts about its size.
#[derive(Debug)]
pub struct RawEntry {
    pub name: String,
    pub compression: zip::CompressionMethod,
    pub original_size: u64,
    pub compressed_size: u64,
    /// The rate `(original - compressed) / original` as a signed percentage
    /// with two fractional digits, worked out in floating point by whoever
    /// read the entry. It is not read for an entry without content.
    pub compression_rate: String,
    pub comment: String,
}

/// One archive that was read: its path and its entries in the archive's own
/// order.
#[derive(Debug)]
pub struct Archive {
    pub path: String,
    pub entries: Vec<RawEntry>,
}

} // verus!
