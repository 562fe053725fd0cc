//! The lines that a run prints.
//!
//! The lines are for people to read: one for each request, one at the start
//! and one at the end of each batch, and two at the end of the run.

use vstd::prelude::*;
use crate::config::ConfigError;
use crate::outcome::{Failure, FailureReason};
use crate::plan::Batch;
use crate::render::{
    blue, bold, coloured, elapsed_display, elapsed_text, green, red, shown, yellow, Hue, MarkView,
};
use crate::setup::SetupError;
use crate::summary::{RunSummary, MAX_SUBSEC_NANOS};
use crate::text::{decimal, decimal_text};
use crate::transport::{status_display, status_display_text};

verus! {

/// How the status of a response is highlighted.
#[derive(Clone, Copy, Debug, PartialEq, Eq, Structural)]
pub enum Tone {
    /// Status 200.
    Good,
    /// Any other status.
    Bad,
}

/// The tone of status `status_code`.
pub open spec fn tone_of(status_code: u16) -> Tone {
    if status_code == 200 {
        Tone::Good
    } else {
        Tone::Bad
    }
}

/// The text of status `status_code`: number and reason phrase, as the HTTP
/// client shows a status, or the number alone where it is no status.
pub open spec fn status_text_of(status_code: u16) -> Seq<char> {
    if 100 <= status_code <= 999 {
        status_display_text(status_code)
    } else {
        decimal_text(status_code as nat)
    }
}

/// The line of a request that got a response, made of the three texts as
/// they are to be shown.
pub open spec fn request_line_text(id: Seq<char>, url: Seq<char>, status: Seq<char>) -> Seq<char> {
    "Request "@ + id + ", URL: "@ + url + ", Status: "@ + status
}

/// The colour in which a status of tone `tone` is shown.
pub open spec fn hue_of(tone: Tone) -> Hue {
    match tone {
        Tone::Good => Hue::Green,
        Tone::Bad => Hue::Red,
    }
}

/// Whether `out` shows `text` in bold and in colour `hue`: as the text
/// inside its escape sequences, or as the text alone where colours are
/// switched off.
pub open spec fn shows(out: Seq<char>, text: Seq<char>, hue: Hue) -> bool {
    out == text || out == coloured(MarkView { text, hue, bold: true })
}

/// Whether `line` is the line of the request `sequence_id` to `url` that
/// got a response of status `status_code`: the sequence id shown in yellow,
/// the URL in blue, and the text of the status in the colour of its tone.
pub open spec fn is_completed_line(
    line: Seq<char>,
    sequence_id: nat,
    url: Seq<char>,
    status_code: u16,
) -> bool {
    exists|id: Seq<char>, shown_url: Seq<char>, status: Seq<char>|
        {
            &&& line == #[trigger] request_line_text(id, shown_url, status)
            &&& shows(id, decimal_text(sequence_id), Hue::Yellow)
            &&& shows(shown_url, url, Hue::Blue)
            &&& shows(status, status_text_of(status_code), hue_of(tone_of(status_code)))
        }
}

/// The line of a request that failed.
pub open spec fn failure_line_text(sequence_id: nat, reason: FailureReason, detail: Seq<char>) -> Seq<
    char,
> {
    if reason == FailureReason::Construction {
        "Error creating request "@ + decimal_text(sequence_id) + ": "@ + detail
    } else {
        "Error in request "@ + decimal_text(sequence_id) + ": "@ + detail
    }
}

/// The line at the start of a batch. Batches are numbered from one.
pub open spec fn batch_start_text(batch: Batch) -> Seq<char> {
    "Starting batch "@ + decimal_text((batch.index + 1) as nat) + " with "@ + decimal_text(
        batch.count as nat,
    ) + " requests..."@
}

/// The line at the end of a batch.
pub open spec fn batch_done_text(batch: Batch) -> Seq<char> {
    "Batch "@ + decimal_text((batch.index + 1) as nat) + " completed."@
}

/// The line that gives the number of requests sent.
pub open spec fn total_sent_text(total_sent: nat) -> Seq<char> {
    "Total requests sent: "@ + decimal_text(total_sent)
}

/// The last line of a run.
pub open spec fn finished_text(secs: u64, nanos: u32, total_requests: nat) -> Seq<char> {
    "All requests completed. Total time: "@ + elapsed_text(secs, nanos) + " for "@ + decimal_text(
        total_requests,
    ) + " requests"@
}

/// The message for a failure that ends the program before any request is
/// made.
pub open spec fn setup_error_text(error: SetupError) -> Seq<char> {
    match error {
        SetupError::InvalidConfig(ConfigError::ZeroBatchSize) =>
            "Invalid configuration: the batch size must be at least 1"@,
        SetupError::TokenUnavailable => "The token file is missing or cannot be read"@,
        SetupError::ClientConstruction => "The HTTP client could not be set up"@,
    }
}

/// The tone of status `status_code`.
pub fn status_tone(status_code: u16) -> (tone: Tone)
    ensures
        tone == tone_of(status_code),
{
    if status_code == 200 {
        Tone::Good
    } else {
        Tone::Bad
    }
}

/// The text of status `status_code`.
pub fn status_text(status_code: u16) -> (text: String)
    ensures
        text@ == status_text_of(status_code),
{
    match status_display(status_code) {
        Some(text) => text,
        None => decimal(status_code as u128),
    }
}

/// The line of a request that got a response, from the three texts as they
/// are to be shown.
pub fn request_line(id: &str, url: &str, status: &str) -> (line: String)
    ensures
        line@ == request_line_text(id@, url@, status@),
{
    let mut line = String::from_str("Request ");
    line.append(id);
    line.append(", URL: ");
    line.append(url);
    line.append(", Status: ");
    line.append(status);
    line
}

/// The line of a request that got a response: the sequence id in bold
/// yellow, the URL in bold blue, and the status in bold green where it is
/// 200 and in bold red where it is not. Whether the highlighting shows is
/// for the terminal to say, text by text.
pub fn completed_line(sequence_id: usize, url: &str, status_code: u16) -> (line: String)
    ensures
        is_completed_line(line@, sequence_id as nat, url@, status_code),
{
    let id = shown(&bold(yellow(decimal(sequence_id as u128).as_str())));
    let shown_url = shown(&bold(blue(url)));
    let text = status_text(status_code);
    let status = match status_tone(status_code) {
        Tone::Good => shown(&bold(green(text.as_str()))),
        Tone::Bad => shown(&bold(red(text.as_str()))),
    };
    let line = request_line(id.as_str(), shown_url.as_str(), status.as_str());
    assert(line@ == request_line_text(id@, shown_url@, status@));
    line
}

/// The line of a request that failed.
pub fn failure_line(sequence_id: usize, failure: &Failure) -> (line: String)
    ensures
        line@ == failure_line_text(sequence_id as nat, failure.reason, failure.detail@),
{
    let mut line = match failure.reason {
        FailureReason::Construction => String::from_str("Error creating request "),
        _ => String::from_str("Error in request "),
    };
    line.append(decimal(sequence_id as u128).as_str());
    line.append(": ");
    line.append(failure.detail.as_str());
    line
}

/// The line of a request, whatever it ended with.
pub fn attempt_line(sequence_id: usize, url: &str, attempt: &Result<u16, Failure>) -> (line: String)
    ensures
        *attempt matches Ok(status_code) ==> is_completed_line(
            line@,
            sequence_id as nat,
            url@,
            status_code,
        ),
        *attempt matches Err(failure) ==> line@ == failure_line_text(
            sequence_id as nat,
            failure.reason,
            failure.detail@,
        ),
{
    match attempt {
        Ok(status_code) => completed_line(sequence_id, url, *status_code),
        Err(failure) => failure_line(sequence_id, failure),
    }
}

/// The line at the start of a batch.
pub fn batch_start_line(batch: &Batch) -> (line: String)
    ensures
        line@ == batch_start_text(*batch),
{
    let mut line = String::from_str("Starting batch ");
    line.append(decimal(batch.index as u128 + 1).as_str());
    line.append(" with ");
    line.append(decimal(batch.count as u128).as_str());
    line.append(" requests...");
    line
}

/// The line at the end of a batch.
pub fn batch_done_line(batch: &Batch) -> (line: String)
    ensures
        line@ == batch_done_text(*batch),
{
    let mut line = String::from_str("Batch ");
    line.append(decimal(batch.index as u128 + 1).as_str());
    line.append(" completed.");
    line
}

/// The line that gives the number of requests sent.
pub fn total_sent_line(summary: &RunSummary) -> (line: String)
    ensures
        line@ == total_sent_text(summary.total_sent as nat),
{
    let mut line = String::from_str("Total requests sent: ");
    line.append(decimal(summary.total_sent as u128).as_str());
    line
}

/// The last line of a run: how long it took, and how many requests were
/// asked for.
pub fn finished_line(summary: &RunSummary, total_requests: usize) -> (line: String)
    requires
        summary.elapsed_nanos <= MAX_SUBSEC_NANOS,
    ensures
        line@ == finished_text(
            summary.elapsed_secs,
            summary.elapsed_nanos,
            total_requests as nat,
        ),
{
    let mut line = String::from_str("All requests completed. Total time: ");
    line.append(elapsed_display(summary.elapsed_secs, summary.elapsed_nanos).as_str());
    line.append(" for ");
    line.append(decimal(total_requests as u128).as_str());
    line.append(" requests");
    line
}

/// The message for a failure that ends the program before any request is
/// made.
pub fn setup_error_line(error: &SetupError) -> (line: String)
    ensures
        line@ == setup_error_text(*error),
{
    match error {
        SetupError::InvalidConfig(ConfigError::ZeroBatchSize) => String::from_str(
            "Invalid configuration: the batch size must be at least 1",
        ),
        SetupError::TokenUnavailable => String::from_str(
            "The token file is missing or cannot be read",
        ),
        SetupError::ClientConstruction => String::from_str("The HTTP client could not be set up"),
    }
}

} // verus!
