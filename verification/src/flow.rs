use vstd::prelude::*;
use crate::response::{Response, opt_chars, is_success};
use crate::text::{owned, joined};

verus! {

/// How a capture or a recording ended, as far as the answer to the front end
/// goes.
#[derive(Clone, Copy, Debug, PartialEq, Eq, Structural)]
pub enum Outcome {
    /// The capture tool did not succeed (it was cancelled or killed).
    Cancelled,
    /// The file was written.
    SavedTo,
    /// The picture went to the clipboard.
    SavedToClipboard,
    /// The file was written but could not be opened.
    FailedToOpen,
    /// The file was written but could not be copied to the clipboard.
    FailedToCopy,
}

/// The message and the error text of the answer for an outcome, for the file
/// `f`.
pub open spec fn outcome_texts(o: Outcome, f: Seq<char>) -> (Option<Seq<char>>, Option<Seq<char>>) {
    match o {
        Outcome::Cancelled => (None, Some("Screen Crab cancelled"@)),
        Outcome::SavedTo => (Some("Screen Crab saved to "@ + f), None),
        Outcome::SavedToClipboard => (Some("Screen Crab saved to Clipboard"@), None),
        Outcome::FailedToOpen => (Some("Failed to open "@ + f), None),
        Outcome::FailedToCopy => (Some("Failed to copy on Clipboard. Screen Crab saved to "@ + f), None),
    }
}

/// The texts of a response, message first.
pub open spec fn texts(r: Response) -> (Option<Seq<char>>, Option<Seq<char>>) {
    (opt_chars(r.response), opt_chars(r.error))
}

impl Outcome {
    /// The answer for this outcome, for the file `filename`.
    pub fn response(self, filename: &str) -> (r: Response)
        ensures
            texts(r) == outcome_texts(self, filename@),
            is_success(r) == (self != Outcome::Cancelled),
    {
        match self {
            Outcome::Cancelled => Response::new(None, Some(owned("Screen Crab cancelled"))),
            Outcome::SavedTo => Response::new(Some(joined("Screen Crab saved to ", filename)), None),
            Outcome::SavedToClipboard => Response::new(Some(owned("Screen Crab saved to Clipboard")), None),
            Outcome::FailedToOpen => Response::new(Some(joined("Failed to open ", filename)), None),
            Outcome::FailedToCopy => Response::new(
                Some(joined("Failed to copy on Clipboard. Screen Crab saved to ", filename)),
                None,
            ),
        }
    }

    /// The answer of the macOS commands without a display choice: the same as
    /// `response`, but a cancelled capture ends its error text with a full stop.
    pub fn response_with_full_stop(self, filename: &str) -> (r: Response)
        ensures
            self == Outcome::Cancelled ==> texts(r) == (None::<Seq<char>>, Some("Screen Crab cancelled."@)),
            self != Outcome::Cancelled ==> texts(r) == outcome_texts(self, filename@),
            is_success(r) == (self != Outcome::Cancelled),
    {
        match self {
            Outcome::Cancelled => Response::new(None, Some(owned("Screen Crab cancelled."))),
            _ => self.response(filename),
        }
    }
}

// ---------------------------------------------------------------------------
// Captures
// ---------------------------------------------------------------------------

/// What the application does next in a capture.
#[derive(Clone, Copy, Debug, PartialEq, Eq, Structural)]
pub enum CaptureAction {
    /// Open the picture for editing.
    Open,
    /// Copy the picture to the clipboard.
    CopyToClipboard,
    /// Remove the file, whose picture is now on the clipboard.
    RemoveFile,
    /// Answer the front end.
    Finish(Outcome),
}

/// A capture as it was asked for: to the clipboard or not, opened afterwards
/// or not, and whether the capture tool itself puts the picture on the
/// clipboard (as `screencapture -c` does on macOS).
#[derive(Clone, Copy, Debug, PartialEq, Eq, Structural)]
pub struct CaptureFlow {
    pub clipboard: bool,
    pub open_file: bool,
    pub tool_copies: bool,
}

/// The step after the capture tool exited: nothing more when it failed;
/// otherwise open the picture when it is not for the clipboard and opening was
/// asked for, copy it when it is for the clipboard and the tool did not, and
/// answer otherwise.
pub open spec fn after_capture(f: CaptureFlow, succeeded: bool) -> CaptureAction {
    if !succeeded {
        CaptureAction::Finish(Outcome::Cancelled)
    } else if !f.clipboard && f.open_file {
        CaptureAction::Open
    } else if f.clipboard && !f.tool_copies {
        CaptureAction::CopyToClipboard
    } else if f.clipboard {
        CaptureAction::Finish(Outcome::SavedToClipboard)
    } else {
        CaptureAction::Finish(Outcome::SavedTo)
    }
}

/// The step after opening the picture.
pub open spec fn after_open(opened: bool) -> CaptureAction {
    if opened {
        CaptureAction::Finish(Outcome::SavedTo)
    } else {
        CaptureAction::Finish(Outcome::FailedToOpen)
    }
}

/// The step after copying the picture to the clipboard.
pub open spec fn after_copy(copied: bool) -> CaptureAction {
    if copied {
        CaptureAction::RemoveFile
    } else {
        CaptureAction::Finish(Outcome::FailedToCopy)
    }
}

/// The step after removing the file.
pub open spec fn after_remove() -> CaptureAction {
    CaptureAction::Finish(Outcome::SavedToClipboard)
}

impl CaptureFlow {
    /// Decides the step after the capture tool exited.
    pub fn on_capture_exit(&self, succeeded: bool) -> (a: CaptureAction)
        ensures
            a == after_capture(*self, succeeded),
    {
        if !succeeded {
            CaptureAction::Finish(Outcome::Cancelled)
        } else if !self.clipboard && self.open_file {
            CaptureAction::Open
        } else if self.clipboard && !self.tool_copies {
            CaptureAction::CopyToClipboard
        } else if self.clipboard {
            CaptureAction::Finish(Outcome::SavedToClipboard)
        } else {
            CaptureAction::Finish(Outcome::SavedTo)
        }
    }

    /// Decides the step after opening the picture.
    pub fn on_open(&self, opened: bool) -> (a: CaptureAction)
        ensures
            a == after_open(opened),
    {
        if opened {
            CaptureAction::Finish(Outcome::SavedTo)
        } else {
            CaptureAction::Finish(Outcome::FailedToOpen)
        }
    }

    /// Decides the step after copying the picture to the clipboard.
    pub fn on_copy(&self, copied: bool) -> (a: CaptureAction)
        ensures
            a == after_copy(copied),
    {
        if copied {
            CaptureAction::RemoveFile
        } else {
            CaptureAction::Finish(Outcome::FailedToCopy)
        }
    }

    /// Decides the step after removing the file.
    pub fn on_remove(&self) -> (a: CaptureAction)
        ensures
            a == after_remove(),
    {
        CaptureAction::Finish(Outcome::SavedToClipboard)
    }
}

/// The outcome a capture ends with, given how the capture tool, the opening
/// and the copy went; each is asked only where the flow reaches it.
pub open spec fn capture_outcome(f: CaptureFlow, succeeded: bool, opened: bool, copied: bool) -> Outcome {
    match after_capture(f, succeeded) {
        CaptureAction::Finish(o) => o,
        CaptureAction::Open => match after_open(opened) {
            CaptureAction::Finish(o) => o,
            _ => Outcome::SavedTo,
        },
        CaptureAction::CopyToClipboard => match after_copy(copied) {
            CaptureAction::Finish(o) => o,
            _ => match after_remove() {
                CaptureAction::Finish(o) => o,
                _ => Outcome::SavedToClipboard,
            },
        },
        CaptureAction::RemoveFile => Outcome::SavedToClipboard,
    }
}

/// A capture always comes to an answer: after opening the picture the next
/// step is the answer, after a copy it is the answer or the removal of the
/// file, and after that removal it is the answer.
pub proof fn law_capture_ends(opened: bool, copied: bool)
    ensures
        after_open(opened) is Finish,
        after_copy(copied) is Finish || after_copy(copied) == CaptureAction::RemoveFile,
        after_remove() is Finish,
{
}

/// Whatever becomes of opening and copying, a capture is answered with a
/// successful response exactly when the capture tool succeeded, and a failed
/// capture is always answered with the cancellation error.
pub proof fn law_capture_answer(f: CaptureFlow, succeeded: bool, opened: bool, copied: bool, filename: Seq<char>)
    ensures
        (capture_outcome(f, succeeded, opened, copied) != Outcome::Cancelled) == succeeded,
        !succeeded ==> outcome_texts(capture_outcome(f, succeeded, opened, copied), filename)
            == (None::<Seq<char>>, Some("Screen Crab cancelled"@)),
{
}

/// A capture for the clipboard is never opened, and one whose tool already
/// filled the clipboard is never copied again.
pub proof fn law_capture_clipboard(f: CaptureFlow, succeeded: bool)
    ensures
        f.clipboard ==> after_capture(f, succeeded) != CaptureAction::Open,
        f.tool_copies ==> after_capture(f, succeeded) != CaptureAction::CopyToClipboard,
        !f.clipboard ==> after_capture(f, succeeded) != CaptureAction::CopyToClipboard,
{
}

// ---------------------------------------------------------------------------
// Recordings
// ---------------------------------------------------------------------------

/// What the application does next in a recording.
#[derive(Clone, Copy, Debug, PartialEq, Eq, Structural)]
pub enum RecordAction {
    /// Open the recording.
    Open,
    /// Answer the front end.
    Finish(Outcome),
}

/// The step after the recorder exited: nothing more when it did not finish
/// the recording, otherwise open it when that was asked for, and answer.
pub open spec fn after_record(open_file: bool, finished: bool) -> RecordAction {
    if !finished {
        RecordAction::Finish(Outcome::Cancelled)
    } else if open_file {
        RecordAction::Open
    } else {
        RecordAction::Finish(Outcome::SavedTo)
    }
}

/// The step after opening the recording.
pub open spec fn after_record_open(opened: bool) -> RecordAction {
    if opened {
        RecordAction::Finish(Outcome::SavedTo)
    } else {
        RecordAction::Finish(Outcome::FailedToOpen)
    }
}

/// Decides the step after the recorder exited.
pub fn on_record_exit(open_file: bool, finished: bool) -> (a: RecordAction)
    ensures
        a == after_record(open_file, finished),
{
    if !finished {
        RecordAction::Finish(Outcome::Cancelled)
    } else if open_file {
        RecordAction::Open
    } else {
        RecordAction::Finish(Outcome::SavedTo)
    }
}

/// Decides the step after opening the recording.
pub fn on_record_open(opened: bool) -> (a: RecordAction)
    ensures
        a == after_record_open(opened),
{
    if opened {
        RecordAction::Finish(Outcome::SavedTo)
    } else {
        RecordAction::Finish(Outcome::FailedToOpen)
    }
}

/// Whether ffmpeg finished a recording: it exits with code 255 when it is
/// stopped by the interrupt that ends a recording.
pub fn ffmpeg_recording_finished(code: i32) -> (b: bool)
    ensures
        b == (code == 255),
{
    code == 255
}

/// A recording is answered with a successful response exactly when the
/// recorder finished it, whatever becomes of opening it.
pub proof fn law_record_answer(open_file: bool, finished: bool, opened: bool)
    ensures
        after_record_open(opened) is Finish,
        ({
            let o = match after_record(open_file, finished) {
                RecordAction::Finish(o) => o,
                RecordAction::Open => match after_record_open(opened) {
                    RecordAction::Finish(o) => o,
                    _ => Outcome::SavedTo,
                },
            };
            (o != Outcome::Cancelled) == finished
        }),
{
}

/// The steps of a capture, from the inputs: a failed tool is answered with
/// the cancellation; a picture for the clipboard is copied by the application
/// whenever the tool did not copy it, whether or not opening was asked for,
/// and answered as saved to the clipboard when the tool did; a picture not for
/// the clipboard is opened when that was asked for and answered as saved
/// otherwise. An opened picture is answered as saved or as failed to open; a
/// copied one has its file removed, a failed copy is answered as such; after
/// the removal the answer is that it went to the clipboard.
pub proof fn law_capture_steps(f: CaptureFlow, succeeded: bool, opened: bool, copied: bool)
    ensures
        !succeeded ==> after_capture(f, succeeded) == CaptureAction::Finish(Outcome::Cancelled),
        succeeded && f.clipboard && !f.tool_copies ==> after_capture(f, succeeded) == CaptureAction::CopyToClipboard,
        succeeded && f.clipboard && f.tool_copies ==> after_capture(f, succeeded) == CaptureAction::Finish(Outcome::SavedToClipboard),
        succeeded && !f.clipboard && f.open_file ==> after_capture(f, succeeded) == CaptureAction::Open,
        succeeded && !f.clipboard && !f.open_file ==> after_capture(f, succeeded) == CaptureAction::Finish(Outcome::SavedTo),
        opened ==> after_open(opened) == CaptureAction::Finish(Outcome::SavedTo),
        !opened ==> after_open(opened) == CaptureAction::Finish(Outcome::FailedToOpen),
        copied ==> after_copy(copied) == CaptureAction::RemoveFile,
        !copied ==> after_copy(copied) == CaptureAction::Finish(Outcome::FailedToCopy),
        after_remove() == CaptureAction::Finish(Outcome::SavedToClipboard),
{
}

/// The outcome of a whole capture, from the inputs: cancelled when the tool
/// failed; for the clipboard, saved to the clipboard unless the application's
/// own copy failed; otherwise saved, unless the asked opening failed.
pub proof fn law_capture_outcome(f: CaptureFlow, succeeded: bool, opened: bool, copied: bool)
    ensures
        !succeeded ==> capture_outcome(f, succeeded, opened, copied) == Outcome::Cancelled,
        succeeded && f.clipboard && (f.tool_copies || copied) ==> capture_outcome(f, succeeded, opened, copied)
            == Outcome::SavedToClipboard,
        succeeded && f.clipboard && !f.tool_copies && !copied ==> capture_outcome(f, succeeded, opened, copied)
            == Outcome::FailedToCopy,
        succeeded && !f.clipboard && (!f.open_file || opened) ==> capture_outcome(f, succeeded, opened, copied)
            == Outcome::SavedTo,
        succeeded && !f.clipboard && f.open_file && !opened ==> capture_outcome(f, succeeded, opened, copied)
            == Outcome::FailedToOpen,
{
}

/// The answers, from the outcome and the file: only a cancellation is an
/// error, "Screen Crab cancelled"; the others are messages, and each of them
/// but the clipboard's ends with the file's path.
pub proof fn law_outcome_texts(o: Outcome, f: Seq<char>)
    ensures
        o == Outcome::Cancelled <==> outcome_texts(o, f).1 is Some,
        o == Outcome::Cancelled <==> outcome_texts(o, f).0 is None,
        o == Outcome::Cancelled ==> outcome_texts(o, f).1 == Some("Screen Crab cancelled"@),
        o == Outcome::SavedTo ==> outcome_texts(o, f).0 == Some("Screen Crab saved to "@ + f),
        o == Outcome::SavedToClipboard ==> outcome_texts(o, f).0 == Some("Screen Crab saved to Clipboard"@),
        o == Outcome::FailedToOpen ==> outcome_texts(o, f).0 == Some("Failed to open "@ + f),
        o == Outcome::FailedToCopy ==> outcome_texts(o, f).0 == Some("Failed to copy on Clipboard. Screen Crab saved to "@ + f),
{
}

/// The steps of a recording, from the inputs: one that did not finish is
/// answered with the cancellation, a finished one is opened when that was
/// asked for and answered as saved otherwise; an opened one is answered as
/// saved or as failed to open.
pub proof fn law_record_steps(open_file: bool, finished: bool, opened: bool)
    ensures
        !finished ==> after_record(open_file, finished) == RecordAction::Finish(Outcome::Cancelled),
        finished && open_file ==> after_record(open_file, finished) == RecordAction::Open,
        finished && !open_file ==> after_record(open_file, finished) == RecordAction::Finish(Outcome::SavedTo),
        opened ==> after_record_open(opened) == RecordAction::Finish(Outcome::SavedTo),
        !opened ==> after_record_open(opened) == RecordAction::Finish(Outcome::FailedToOpen),
{
}

} // verus!
