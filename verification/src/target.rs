//! The text under which a written path is reported.

use vstd::prelude::*;

verus! {

/// The text of `path` as the platform's path type renders it.
///
/// Trusted: calls `std::path::Path::to_string_lossy`, which replaces only
/// sequences that are not valid UTF-8. A path made from a string holds none,
/// so the contract claims that the text comes back character for character.
#[verifier::external_body]
pub(crate) fn path_text(path: &str) -> (text: String)
    ensures
        text@ == path@,
{
    std::path::Path::new(path).to_string_lossy().into_owned()
}

} // verus!
