//! Byte counts as people read them, formatted by the `bytesize` crate.

use vstd::prelude::*;

verus! {

/// The text that `bytesize` gives for a byte count, such as `1.5 MB`.
pub uninterp spec fn size_text(bytes: u64) -> Seq<char>;

/// Formats a byte count through the `Display` impl of `bytesize::ByteSize`.
///
/// Nothing of this is proved. The contract only names the text: it claims
/// that `ByteSize(bytes).to_string()` returns for every count, and that the
/// text depends on the count alone. It says nothing of what the text holds.
#[verifier::external_body]
pub(crate) fn human_size(bytes: u64) -> (text: String)
    ensures
        text@ == size_text(bytes),
{
    bytesize::ByteSize(bytes).to_string()
}

} // verus!
