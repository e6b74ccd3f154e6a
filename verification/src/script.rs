//! Reading what a helper script left behind: the accessibility query and the
//! scripted clipboard capture both answer on their standard output.

use vstd::prelude::*;
use vstd::utf8::{decode_utf8, valid_utf8};
use crate::protocol::{
    outcome_view, CaptureError, CaptureErrorModel, OutcomeModel, ProcessOutput,
    ProcessOutputModel,
};
use crate::text::{latin1, latin1_text, text_from_utf8, trim_slice, trimmed};

verus! {

/// What is reported when a helper's output is not valid UTF-8.
pub open spec fn undecodable() -> Seq<char> {
    "helper output is not valid UTF-8"@
}

/// The view of a helper run: what it left behind, or why it could not be
/// launched.
pub open spec fn run_view(run: Result<ProcessOutput, String>) -> Result<
    ProcessOutputModel,
    Seq<char>,
> {
    match run {
        Ok(output) => Ok(output@),
        Err(reason) => Err(reason@),
    }
}

/// The text that a helper which ended with success wrote: its standard output
/// decoded as UTF-8 and trimmed, or a failure where it does not decode.
pub open spec fn answer_of(stdout: Seq<u8>) -> OutcomeModel {
    if valid_utf8(stdout) {
        Ok(trimmed(decode_utf8(stdout)))
    } else {
        Err(CaptureErrorModel::ExternalProcessFailure(undecodable()))
    }
}

/// The result of the accessibility query. A helper that could not be launched
/// is an external failure; one that ended without success reports, with what
/// it wrote to its error stream, that the selection is unavailable.
pub open spec fn ax_outcome(run: Result<ProcessOutputModel, Seq<char>>) -> OutcomeModel {
    match run {
        Err(reason) => Err(CaptureErrorModel::ExternalProcessFailure(reason)),
        Ok(output) => if output.success {
            answer_of(output.stdout)
        } else {
            Err(CaptureErrorModel::AccessibilityQueryFailure(latin1(output.stderr)))
        },
    }
}

/// The result of the scripted clipboard capture. Here every failure is an
/// external one.
pub open spec fn scripted_outcome(run: Result<ProcessOutputModel, Seq<char>>) -> OutcomeModel {
    match run {
        Err(reason) => Err(CaptureErrorModel::ExternalProcessFailure(reason)),
        Ok(output) => if output.success {
            answer_of(output.stdout)
        } else {
            Err(CaptureErrorModel::ExternalProcessFailure(latin1(output.stderr)))
        },
    }
}

/// Decodes and trims the standard output of a helper that ended with success.
fn answer(stdout: Vec<u8>) -> (r: Result<String, CaptureError>)
    ensures
        outcome_view(r) == answer_of(stdout@),
{
    match text_from_utf8(stdout) {
        Some(text) => Ok(trim_slice(text.as_str()).to_owned()),
        None => Err(
            CaptureError::ExternalProcessFailure("helper output is not valid UTF-8".to_owned()),
        ),
    }
}

/// Reads the selected text from a run of the accessibility helper.
pub fn get_selected_text_by_ax(run: Result<ProcessOutput, String>) -> (r: Result<
    String,
    CaptureError,
>)
    ensures
        outcome_view(r) == ax_outcome(run_view(run)),
{
    match run {
        Err(reason) => Err(CaptureError::ExternalProcessFailure(reason)),
        Ok(output) => {
            if output.success {
                answer(output.stdout)
            } else {
                Err(CaptureError::AccessibilityQueryFailure(latin1_text(&output.stderr)))
            }
        },
    }
}

/// Reads the selected text from a run of the helper that captures it through
/// the clipboard on its own.
pub fn get_selected_text_by_clipboard_using_applescript(
    run: Result<ProcessOutput, String>,
) -> (r: Result<String, CaptureError>)
    ensures
        outcome_view(r) == scripted_outcome(run_view(run)),
{
    match run {
        Err(reason) => Err(CaptureError::ExternalProcessFailure(reason)),
        Ok(output) => {
            if output.success {
                answer(output.stdout)
            } else {
                Err(CaptureError::ExternalProcessFailure(latin1_text(&output.stderr)))
            }
        },
    }
}

} // verus!
