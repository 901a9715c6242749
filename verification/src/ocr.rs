//! What a run of the text recognizer comes to.
//!
//! The recognizer is a program of its own. Starting it and collecting its
//! output is the caller's part; what text an action hands on for each way
//! in which the run can end is decided here.

use vstd::prelude::*;
use vstd::string::StringExecFns;

verus! {

/// How a run of the recognizer ended.
#[derive(Clone, Debug, PartialEq, Eq)]
pub enum Recognition {
    /// The recognizer ran and succeeded; `text` is what it printed.
    Read { text: String },
    /// The recognizer ran and failed; `complaint` is what it printed about
    /// the failure.
    Failed { complaint: String },
    /// The recognizer could not be started, for `reason`.
    NotStarted { reason: String },
}

/// The text that stands for a run of the recognizer: what was read, or a
/// line that names the failure.
pub open spec fn report(run: Recognition) -> Seq<char> {
    match run {
        Recognition::Read { text } => text@,
        Recognition::Failed { complaint } => "Tesseract error: "@ + complaint@,
        Recognition::NotStarted { reason } => "Ошибка при запуске Tesseract: "@ + reason@,
    }
}

/// The text of an image as the recognizer's run gives it. A failure does
/// not stop the action: it is told in the text.
pub fn read_text_from_image(run: Recognition) -> (res: String)
    ensures
        res@ == report(run),
{
    match run {
        Recognition::Read { text } => text,
        Recognition::Failed { complaint } => String::from_str("Tesseract error: ").concat(
            complaint.as_str(),
        ),
        Recognition::NotStarted { reason } => String::from_str(
            "Ошибка при запуске Tesseract: ",
        ).concat(reason.as_str()),
    }
}

} // verus!
