//! The one line of status that the panel shows: the outcome of the last
//! operation, and whether it went well.

use vstd::prelude::*;
use vstd::string::*;
use crate::catalog::{effect_name, EffectCatalog, EFFECT_COUNT};
use crate::parameter::ParameterVector;
use crate::text::{format_two_decimals, two_decimals};

verus! {

/// Why a run of the orchestration ended without playing.
#[derive(Debug, PartialEq, Eq)]
pub enum Failure {
    /// The conversion executable is in neither directory.
    EnvironmentMissing,
    /// There is no raw input and no recording to make it from.
    InputMissing,
    /// The transcoder could not be run or did not exit with 0.
    TranscodeFailed,
    /// The raw input could not be opened; the system's words are kept.
    InputUnreadable(String),
    /// The raw output could not be created; the system's words are kept.
    OutputUnwritable(String),
    /// The converter could not be run or did not exit with 0.
    ConversionFailed,
}

/// A status line as plain values.
pub struct StatusView {
    pub text: Seq<char>,
    pub ok: bool,
}

/// A status line.
#[derive(Debug, PartialEq, Eq)]
pub struct StatusMessage {
    pub text: String,
    pub ok: bool,
}

impl View for StatusMessage {
    type V = StatusView;

    open spec fn view(&self) -> StatusView {
        StatusView { text: self.text@, ok: self.ok }
    }
}

/// The words for a failure.
pub open spec fn failure_text(failure: Failure) -> Seq<char> {
    match failure {
        Failure::EnvironmentMissing => "Error: 'convert' not found - run 'make convert'"@,
        Failure::InputMissing => "Error: No input.raw or .mp3 file found"@,
        Failure::TranscodeFailed => "Error: Failed to convert MP3"@,
        Failure::InputUnreadable(details) => "Error opening input: "@ + details@,
        Failure::OutputUnwritable(details) => "Error creating output: "@ + details@,
        Failure::ConversionFailed => "Error: Processing failed"@,
    }
}

/// The status after a failure: its words, and not ok.
pub open spec fn failure_status(failure: Failure) -> StatusView {
    StatusView { text: failure_text(failure), ok: false }
}

/// The status while an effect is being processed.
pub open spec fn processing_status(effect: int) -> StatusView {
    StatusView { text: "Processing "@ + effect_name(effect) + "..."@, ok: true }
}

/// The status once the converted recording is handed to the player: the
/// effect's name and its four parameters with two decimals each.
pub open spec fn playing_status(effect: int, parameters: Seq<int>) -> StatusView {
    StatusView {
        text: "Playing: "@ + effect_name(effect) + " ["@ + two_decimals(parameters[0]) + ", "@
            + two_decimals(parameters[1]) + ", "@ + two_decimals(parameters[2]) + ", "@
            + two_decimals(parameters[3]) + "]"@,
        ok: true,
    }
}

/// The status after an effect was put back to its defaults.
pub open spec fn reset_status(effect: int) -> StatusView {
    StatusView { text: "Reset "@ + effect_name(effect) + " to defaults"@, ok: true }
}

/// The status after playback was stopped by the operator.
pub open spec fn stopped_status() -> StatusView {
    StatusView { text: "Stopped playback"@, ok: true }
}

/// The status that a look at the surroundings gives: a warning when the
/// converter is missing; else a note when the raw input is missing; else
/// readiness.
pub open spec fn environment_status(converter_found: bool, input_found: bool) -> StatusView {
    if !converter_found {
        StatusView {
            text: "Warning: 'convert' not found. Run 'make convert' first."@,
            ok: false,
        }
    } else if !input_found {
        StatusView { text: "No input.raw found - will try to convert MP3"@, ok: true }
    } else {
        StatusView { text: "Ready - press 'p' to process, 'q' to quit"@, ok: true }
    }
}

impl Failure {
    /// The words for this failure.
    pub fn describe(&self) -> (text: String)
        ensures
            text@ == failure_text(*self),
    {
        match self {
            Failure::EnvironmentMissing => String::from_str(
                "Error: 'convert' not found - run 'make convert'",
            ),
            Failure::InputMissing => String::from_str("Error: No input.raw or .mp3 file found"),
            Failure::TranscodeFailed => String::from_str("Error: Failed to convert MP3"),
            Failure::InputUnreadable(details) => {
                let mut text = String::from_str("Error opening input: ");
                text.append(details.as_str());
                text
            },
            Failure::OutputUnwritable(details) => {
                let mut text = String::from_str("Error creating output: ");
                text.append(details.as_str());
                text
            },
            Failure::ConversionFailed => String::from_str("Error: Processing failed"),
        }
    }
}

impl StatusMessage {
    /// An empty status that is ok.
    pub fn blank() -> (status: StatusMessage)
        ensures
            status@ == (StatusView { text: Seq::empty(), ok: true }),
    {
        StatusMessage { text: String::new(), ok: true }
    }

    /// The status after a failure.
    pub fn failure(failure: &Failure) -> (status: StatusMessage)
        ensures
            status@ == failure_status(*failure),
    {
        StatusMessage { text: failure.describe(), ok: false }
    }

    /// The status while the effect at `effect` is being processed.
    pub fn processing(effect: usize) -> (status: StatusMessage)
        requires
            effect < EFFECT_COUNT,
        ensures
            status@ == processing_status(effect as int),
    {
        let mut text = String::from_str("Processing ");
        text.append(EffectCatalog::name(effect));
        text.append("...");
        StatusMessage { text, ok: true }
    }

    /// The status once the converted recording is handed to the player.
    pub fn playing(effect: usize, parameters: &ParameterVector) -> (status: StatusMessage)
        requires
            effect < EFFECT_COUNT,
        ensures
            status@ == playing_status(effect as int, parameters@),
    {
        let mut text = String::from_str("Playing: ");
        text.append(EffectCatalog::name(effect));
        text.append(" [");
        text.append(format_two_decimals(parameters.get(0)).as_str());
        text.append(", ");
        text.append(format_two_decimals(parameters.get(1)).as_str());
        text.append(", ");
        text.append(format_two_decimals(parameters.get(2)).as_str());
        text.append(", ");
        text.append(format_two_decimals(parameters.get(3)).as_str());
        text.append("]");
        StatusMessage { text, ok: true }
    }

    /// The status after the effect at `effect` was put back to its defaults.
    pub fn reset(effect: usize) -> (status: StatusMessage)
        requires
            effect < EFFECT_COUNT,
        ensures
            status@ == reset_status(effect as int),
    {
        let mut text = String::from_str("Reset ");
        text.append(EffectCatalog::name(effect));
        text.append(" to defaults");
        StatusMessage { text, ok: true }
    }

    /// The status after playback was stopped by the operator.
    pub fn stopped() -> (status: StatusMessage)
        ensures
            status@ == stopped_status(),
    {
        StatusMessage { text: String::from_str("Stopped playback"), ok: true }
    }

    /// The status that a look at the surroundings gives.
    pub fn environment(converter_found: bool, input_found: bool) -> (status: StatusMessage)
        ensures
            status@ == environment_status(converter_found, input_found),
    {
        if !converter_found {
            StatusMessage {
                text: String::from_str("Warning: 'convert' not found. Run 'make convert' first."),
                ok: false,
            }
        } else if !input_found {
            StatusMessage {
                text: String::from_str("No input.raw found - will try to convert MP3"),
                ok: true,
            }
        } else {
            StatusMessage {
                text: String::from_str("Ready - press 'p' to process, 'q' to quit"),
                ok: true,
            }
        }
    }
}

/// Every failure shows as not ok.
pub proof fn law_failures_are_not_ok(failure: Failure)
    ensures
        !failure_status(failure).ok,
{
}

} // verus!
