//! Where the external tools and their files are looked for, and the command
//! lines that the tools are run with.
//!
//! Every file is looked for beside the parent directory first and beside the
//! current directory second. Audio is exchanged as raw samples at 48000 Hz,
//! 32-bit signed little-endian, one channel.

use vstd::prelude::*;
use vstd::string::*;
use crate::catalog::{effect_name, EffectCatalog, EFFECT_COUNT};
use crate::parameter::{ParameterVector, PARAMETER_COUNT};
use crate::text::{format_two_decimals, two_decimals};

verus! {

/// One of the two directories in which a file is looked for.
#[derive(Clone, Copy, Debug, PartialEq, Eq, Structural)]
pub enum Location {
    Parent,
    Current,
}

/// One of the files that the orchestration deals with.
#[derive(Clone, Copy, Debug, PartialEq, Eq, Structural)]
pub enum Artifact {
    /// The conversion executable.
    Converter,
    /// The raw samples that the conversion reads.
    RawInput,
    /// The compressed recording that the raw input is made from.
    Source,
    /// The raw samples that the conversion writes and the player plays.
    RawOutput,
}

/// The directory prefix of a location.
pub open spec fn location_prefix(location: Location) -> Seq<char> {
    match location {
        Location::Parent => "../"@,
        Location::Current => "./"@,
    }
}

/// The file name of an artifact.
pub open spec fn artifact_name(artifact: Artifact) -> Seq<char> {
    match artifact {
        Artifact::Converter => "convert"@,
        Artifact::RawInput => "input.raw"@,
        Artifact::Source => "BassForLinus.mp3"@,
        Artifact::RawOutput => "output.raw"@,
    }
}

/// The relative path of an artifact at a location.
pub open spec fn artifact_path(artifact: Artifact, location: Location) -> Seq<char> {
    location_prefix(location) + artifact_name(artifact)
}

/// A program and the arguments it is run with, as texts.
pub struct InvocationView {
    pub program: Seq<char>,
    pub arguments: Seq<Seq<char>>,
}

/// The texts of a sequence of strings.
pub open spec fn texts(strings: Seq<String>) -> Seq<Seq<char>> {
    Seq::new(strings.len(), |i: int| strings[i]@)
}

/// A program and the arguments it is run with.
#[derive(Debug, PartialEq, Eq)]
pub struct Invocation {
    pub program: String,
    pub arguments: Vec<String>,
}

impl View for Invocation {
    type V = InvocationView;

    open spec fn view(&self) -> InvocationView {
        InvocationView { program: self.program@, arguments: texts(self.arguments@) }
    }
}

/// The transcoder run: it reads the compressed recording at `source` and
/// writes the raw input beside the converter at `target`, overwriting it.
pub open spec fn transcode_invocation(source: Location, target: Location) -> InvocationView {
    InvocationView {
        program: "ffmpeg"@,
        arguments: seq![
            "-y"@,
            "-v"@,
            "fatal"@,
            "-i"@,
            artifact_path(Artifact::Source, source),
            "-f"@,
            "s32le"@,
            "-ar"@,
            "48000"@,
            "-ac"@,
            "1"@,
            artifact_path(Artifact::RawInput, target),
        ],
    }
}

/// The conversion run: the converter at `tool`, given the effect's name and
/// its four parameters with two decimals each.
pub open spec fn convert_invocation(
    tool: Location,
    effect: int,
    parameters: Seq<int>,
) -> InvocationView {
    InvocationView {
        program: artifact_path(Artifact::Converter, tool),
        arguments: seq![
            effect_name(effect),
            two_decimals(parameters[0]),
            two_decimals(parameters[1]),
            two_decimals(parameters[2]),
            two_decimals(parameters[3]),
        ],
    }
}

/// The player run: it plays the raw output at `recording` without a window
/// and ends with the recording.
pub open spec fn play_invocation(recording: Location) -> InvocationView {
    InvocationView {
        program: "ffplay"@,
        arguments: seq![
            "-v"@,
            "fatal"@,
            "-nodisp"@,
            "-autoexit"@,
            "-f"@,
            "s32le"@,
            "-ar"@,
            "48000"@,
            "-ch_layout"@,
            "mono"@,
            "-i"@,
            artifact_path(Artifact::RawOutput, recording),
        ],
    }
}

/// The relative path of an artifact at a location.
pub fn path_of(artifact: Artifact, location: Location) -> (path: String)
    ensures
        path@ == artifact_path(artifact, location),
{
    let mut path = match location {
        Location::Parent => String::from_str("../"),
        Location::Current => String::from_str("./"),
    };
    match artifact {
        Artifact::Converter => path.append("convert"),
        Artifact::RawInput => path.append("input.raw"),
        Artifact::Source => path.append("BassForLinus.mp3"),
        Artifact::RawOutput => path.append("output.raw"),
    }
    path
}

fn push_text(arguments: &mut Vec<String>, text: &str)
    ensures
        texts(final(arguments)@) == texts(old(arguments)@).push(text@),
{
    arguments.push(String::from_str(text));
    assert(texts(arguments@) =~= texts(old(arguments)@).push(text@));
}

fn push_string(arguments: &mut Vec<String>, text: String)
    ensures
        texts(final(arguments)@) == texts(old(arguments)@).push(text@),
{
    arguments.push(text);
    assert(texts(arguments@) =~= texts(old(arguments)@).push(text@));
}

/// The command line of the transcoder.
pub fn transcode_command(source: Location, target: Location) -> (invocation: Invocation)
    ensures
        invocation@ == transcode_invocation(source, target),
{
    let mut arguments: Vec<String> = Vec::new();
    assert(texts(arguments@) =~= Seq::<Seq<char>>::empty());
    push_text(&mut arguments, "-y");
    push_text(&mut arguments, "-v");
    push_text(&mut arguments, "fatal");
    push_text(&mut arguments, "-i");
    push_string(&mut arguments, path_of(Artifact::Source, source));
    push_text(&mut arguments, "-f");
    push_text(&mut arguments, "s32le");
    push_text(&mut arguments, "-ar");
    push_text(&mut arguments, "48000");
    push_text(&mut arguments, "-ac");
    push_text(&mut arguments, "1");
    push_string(&mut arguments, path_of(Artifact::RawInput, target));
    assert(texts(arguments@) =~= transcode_invocation(source, target).arguments);
    Invocation { program: String::from_str("ffmpeg"), arguments }
}

/// The command line of the converter.
pub fn convert_command(tool: Location, effect: usize, parameters: &ParameterVector) -> (invocation:
    Invocation)
    requires
        effect < EFFECT_COUNT,
    ensures
        invocation@ == convert_invocation(tool, effect as int, parameters@),
{
    let mut arguments: Vec<String> = Vec::new();
    assert(texts(arguments@) =~= Seq::<Seq<char>>::empty());
    push_text(&mut arguments, EffectCatalog::name(effect));
    let mut index: usize = 0;
    while index < PARAMETER_COUNT
        invariant
            index <= PARAMETER_COUNT,
            texts(arguments@).len() == 1 + index,
            texts(arguments@)[0] == effect_name(effect as int),
            forall|i: int|
                0 <= i < index ==> #[trigger] texts(arguments@)[1 + i] == two_decimals(
                    parameters@[i],
                ),
        decreases PARAMETER_COUNT - index,
    {
        push_string(&mut arguments, format_two_decimals(parameters.get(index)));
        index += 1;
    }
    proof {
        let built = texts(arguments@);
        assert(built[1] == built[1 + 0int]);
        assert(built[2] == built[1 + 1int]);
        assert(built[3] == built[1 + 2int]);
        assert(built[4] == built[1 + 3int]);
        assert(built =~= convert_invocation(tool, effect as int, parameters@).arguments);
    }
    Invocation { program: path_of(Artifact::Converter, tool), arguments }
}

/// The command line of the player.
pub fn play_command(recording: Location) -> (invocation: Invocation)
    ensures
        invocation@ == play_invocation(recording),
{
    let mut arguments: Vec<String> = Vec::new();
    assert(texts(arguments@) =~= Seq::<Seq<char>>::empty());
    push_text(&mut arguments, "-v");
    push_text(&mut arguments, "fatal");
    push_text(&mut arguments, "-nodisp");
    push_text(&mut arguments, "-autoexit");
    push_text(&mut arguments, "-f");
    push_text(&mut arguments, "s32le");
    push_text(&mut arguments, "-ar");
    push_text(&mut arguments, "48000");
    push_text(&mut arguments, "-ch_layout");
    push_text(&mut arguments, "mono");
    push_text(&mut arguments, "-i");
    push_string(&mut arguments, path_of(Artifact::RawOutput, recording));
    assert(texts(arguments@) =~= play_invocation(recording).arguments);
    Invocation { program: String::from_str("ffplay"), arguments }
}

} // verus!
