use audionoise_tui::parameter::ParameterVector;
use audionoise_tui::status::{Failure, StatusMessage};
use audionoise_tui::text::{digit_text, format_two_decimals, pad_right, repeat};
use audionoise_tui::tools::{
    convert_command, path_of, play_command, transcode_command, Artifact, Location,
};

#[test]
fn digits_are_written_as_characters() {
    let expected = ["0", "1", "2", "3", "4", "5", "6", "7", "8", "9"];
    for digit in 0..10u8 {
        assert_eq!(digit_text(digit), expected[digit as usize]);
    }
}

#[test]
fn two_decimals_of_some_values() {
    assert_eq!(format_two_decimals(0), "0.00");
    assert_eq!(format_two_decimals(5), "0.05");
    assert_eq!(format_two_decimals(30), "0.30");
    assert_eq!(format_two_decimals(25), "0.25");
    assert_eq!(format_two_decimals(99), "0.99");
    assert_eq!(format_two_decimals(100), "1.00");
}

#[test]
fn two_decimals_agree_with_float_formatting() {
    for hundredths in 0..=100u8 {
        let real = hundredths as f32 / 100.0;
        assert_eq!(format_two_decimals(hundredths), format!("{:.2}", real));
    }
}

#[test]
fn repeat_writes_copies_in_a_row() {
    assert_eq!(repeat("#", 0), "");
    assert_eq!(repeat("#", 3), "###");
    assert_eq!(repeat("ab", 2), "abab");
}

#[test]
fn pad_right_fills_with_spaces() {
    assert_eq!(pad_right("Mix", 12), "Mix         ");
    assert_eq!(pad_right("Mod Depth", 12), "Mod Depth   ");
    assert_eq!(pad_right("", 2), "  ");
    assert_eq!(pad_right("Mix", 12), format!("{:12}", "Mix"));
}

#[test]
fn pad_right_keeps_a_text_that_is_wide_enough() {
    assert_eq!(pad_right("Feedback", 8), "Feedback");
    assert_eq!(pad_right("Feedback", 3), "Feedback");
}

#[test]
fn paths_prefer_no_directory_by_themselves() {
    assert_eq!(path_of(Artifact::Converter, Location::Parent), "../convert");
    assert_eq!(path_of(Artifact::Converter, Location::Current), "./convert");
    assert_eq!(path_of(Artifact::RawInput, Location::Parent), "../input.raw");
    assert_eq!(path_of(Artifact::RawInput, Location::Current), "./input.raw");
    assert_eq!(path_of(Artifact::Source, Location::Parent), "../BassForLinus.mp3");
    assert_eq!(path_of(Artifact::Source, Location::Current), "./BassForLinus.mp3");
    assert_eq!(path_of(Artifact::RawOutput, Location::Parent), "../output.raw");
    assert_eq!(path_of(Artifact::RawOutput, Location::Current), "./output.raw");
}

#[test]
fn transcoder_is_run_with_the_fixed_layout() {
    let command = transcode_command(Location::Current, Location::Parent);
    assert_eq!(command.program, "ffmpeg");
    assert_eq!(
        command.arguments,
        vec![
            "-y", "-v", "fatal", "-i", "./BassForLinus.mp3", "-f", "s32le", "-ar", "48000",
            "-ac", "1", "../input.raw",
        ]
    );
}

#[test]
fn converter_is_given_name_and_two_decimal_parameters() {
    let parameters = ParameterVector::from_hundredths([30, 30, 30, 30]).unwrap();
    let command = convert_command(Location::Parent, 1, &parameters);
    assert_eq!(command.program, "../convert");
    assert_eq!(command.arguments, vec!["echo", "0.30", "0.30", "0.30", "0.30"]);
    assert_eq!(command.arguments.join(" "), "echo 0.30 0.30 0.30 0.30");
}

#[test]
fn converter_arguments_follow_the_parameters() {
    let parameters = ParameterVector::from_hundredths([0, 5, 95, 100]).unwrap();
    let command = convert_command(Location::Current, 5, &parameters);
    assert_eq!(command.program, "./convert");
    assert_eq!(command.arguments, vec!["discont", "0.00", "0.05", "0.95", "1.00"]);
}

#[test]
fn player_is_run_with_the_fixed_layout() {
    let command = play_command(Location::Parent);
    assert_eq!(command.program, "ffplay");
    assert_eq!(
        command.arguments,
        vec![
            "-v", "fatal", "-nodisp", "-autoexit", "-f", "s32le", "-ar", "48000", "-ch_layout",
            "mono", "-i", "../output.raw",
        ]
    );
    assert_eq!(play_command(Location::Current).arguments[11], "./output.raw");
}

#[test]
fn each_failure_has_its_words() {
    assert_eq!(
        Failure::EnvironmentMissing.describe(),
        "Error: 'convert' not found - run 'make convert'"
    );
    assert_eq!(Failure::InputMissing.describe(), "Error: No input.raw or .mp3 file found");
    assert_eq!(Failure::TranscodeFailed.describe(), "Error: Failed to convert MP3");
    assert_eq!(
        Failure::InputUnreadable("Permission denied (os error 13)".to_string()).describe(),
        "Error opening input: Permission denied (os error 13)"
    );
    assert_eq!(
        Failure::OutputUnwritable("Read-only file system (os error 30)".to_string()).describe(),
        "Error creating output: Read-only file system (os error 30)"
    );
    assert_eq!(Failure::ConversionFailed.describe(), "Error: Processing failed");
}

#[test]
fn failures_are_never_ok() {
    let failures = vec![
        Failure::EnvironmentMissing,
        Failure::InputMissing,
        Failure::TranscodeFailed,
        Failure::InputUnreadable("x".to_string()),
        Failure::OutputUnwritable("y".to_string()),
        Failure::ConversionFailed,
    ];
    for failure in failures {
        let status = StatusMessage::failure(&failure);
        assert!(!status.ok);
        assert_eq!(status.text, failure.describe());
    }
}

#[test]
fn status_texts_of_the_operations() {
    let blank = StatusMessage::blank();
    assert_eq!(blank.text, "");
    assert!(blank.ok);

    let processing = StatusMessage::processing(4);
    assert_eq!(processing.text, "Processing phaser...");
    assert!(processing.ok);

    let parameters = ParameterVector::from_hundredths([25, 30, 50, 100]).unwrap();
    let playing = StatusMessage::playing(2, &parameters);
    assert_eq!(playing.text, "Playing: fm [0.25, 0.30, 0.50, 1.00]");
    assert!(playing.ok);

    let reset = StatusMessage::reset(0);
    assert_eq!(reset.text, "Reset flanger to defaults");
    assert!(reset.ok);

    let stopped = StatusMessage::stopped();
    assert_eq!(stopped.text, "Stopped playback");
    assert!(stopped.ok);
}

#[test]
fn status_of_the_surroundings() {
    let missing = StatusMessage::environment(false, true);
    assert_eq!(missing.text, "Warning: 'convert' not found. Run 'make convert' first.");
    assert!(!missing.ok);
    assert_eq!(StatusMessage::environment(false, false), missing);

    let no_input = StatusMessage::environment(true, false);
    assert_eq!(no_input.text, "No input.raw found - will try to convert MP3");
    assert!(no_input.ok);

    let ready = StatusMessage::environment(true, true);
    assert_eq!(ready.text, "Ready - press 'p' to process, 'q' to quit");
    assert!(ready.ok);
}
