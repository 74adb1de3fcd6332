//! The save command: what is handed to the filesystem, and what is reported
//! once the filesystem has answered.

use vstd::prelude::*;
use crate::failure::{failure_message, write_failure};
use crate::outcome::SaveResult;
use crate::target::path_text;

verus! {

/// What a save to `path` reports, as plain values, once the write has
/// answered with `written`: the completed payload for that very path, or the
/// failure message around the description that the write gave.
pub open spec fn save_report(path: Seq<char>, written: Result<(), Seq<char>>) -> Result<
    (bool, Seq<char>),
    Seq<char>,
> {
    match written {
        Ok(_) => Ok(SaveResult::completed(path)),
        Err(cause) => Err(failure_message(cause)),
    }
}

/// The view of what `save_visualization` returns.
pub open spec fn report_view(report: Result<SaveResult, String>) -> Result<
    (bool, Seq<char>),
    Seq<char>,
> {
    match report {
        Ok(saved) => Ok(saved@),
        Err(message) => Err(message@),
    }
}

/// The view of what a write answered.
pub open spec fn written_view(written: Result<(), String>) -> Result<(), Seq<char>> {
    match written {
        Ok(_) => Ok(()),
        Err(cause) => Err(cause@),
    }
}

/// Reports the save of a buffer to `path`, given what the write of that
/// buffer to that path answered: `Ok` when every byte was handed over, else
/// the description of the fault.
pub fn report_save(path: String, written: Result<(), String>) -> (report: Result<
    SaveResult,
    String,
>)
    ensures
        report_view(report) == save_report(path@, written_view(written)),
        report is Ok <==> written is Ok,
        report is Ok ==> report->Ok_0.wf(),
{
    match written {
        Ok(_) => Ok(SaveResult::new(path_text(path.as_str()))),
        Err(cause) => Err(write_failure(cause.as_str())),
    }
}

/// A save is reported as completed exactly when the write answered `Ok`;
/// otherwise the report is the failure message around the write's own
/// description.
pub proof fn lemma_report_follows_write(path: Seq<char>, written: Result<(), Seq<char>>)
    ensures
        save_report(path, written) is Ok <==> written is Ok,
        written is Err ==> save_report(path, written) == Err::<(bool, Seq<char>), Seq<char>>(
            failure_message(written->Err_0),
        ),
{
}

/// The path in the payload of a completed save is the path that was given,
/// character for character, so it names the file that was written; and the
/// payload reports success.
pub proof fn lemma_reported_path_is_target(path: Seq<char>, written: Result<(), Seq<char>>)
    requires
        written is Ok,
    ensures
        save_report(path, written) is Ok,
        save_report(path, written)->Ok_0.0,
        save_report(path, written)->Ok_0.1 == path,
{
}

/// Saves `data` to `path` through `write`, the primitive that creates or
/// truncates the file at a path and hands it every byte. The primitive is
/// called once, with exactly `path` and `data`, and its answer decides the
/// report.
pub fn save_visualization<W>(path: String, data: Vec<u8>, write: W) -> (report: Result<
    SaveResult,
    String,
>) where W: FnOnce(&String, &Vec<u8>) -> Result<(), String>
    requires
        write.requires((&path, &data)),
    ensures
        exists|written: Result<(), String>| #[trigger]
            write.ensures((&path, &data), written) && report_view(report) == save_report(
                path@,
                written_view(written),
            ),
        report is Ok ==> report->Ok_0.wf(),
{
    let written = write(&path, &data);
    report_save(path, written)
}

} // verus!
