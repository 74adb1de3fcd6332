//! The payload that reports a completed save.

use vstd::prelude::*;

verus! {

/// What the caller receives once the bytes have been handed to the filesystem.
#[derive(Debug)]
pub struct SaveResult {
    /// Always `true`: a failed save is reported as an error, never as a
    /// payload with this flag cleared.
    pub success: bool,
    /// The normalized text of the path that was written.
    pub path: String,
}

impl SaveResult {
    /// The payload of a completed save to `path`, as a plain value.
    pub open spec fn completed(path: Seq<char>) -> (bool, Seq<char>) {
        (true, path)
    }

    /// The payload as a plain value: the flag and the characters of the path.
    pub open spec fn view(&self) -> (bool, Seq<char>) {
        (self.success, self.path@)
    }

    /// A payload is well formed when it reports success.
    pub open spec fn wf(&self) -> bool {
        self.success
    }

    /// Builds the payload for a save that wrote to `path`.
    pub fn new(path: String) -> (r: SaveResult)
        ensures
            r@ == Self::completed(path@),
            r.wf(),
    {
        SaveResult { success: true, path }
    }
}

} // verus!
