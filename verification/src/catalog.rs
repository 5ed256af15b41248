//! The fixed catalog of effects.
//!
//! An effect is a name that the conversion tool understands, four default
//! parameters, a label for each parameter and a line of description. The
//! catalog never changes while the program runs.

use vstd::prelude::*;
use crate::parameter::ParameterVector;

verus! {

/// Number of effects in the catalog.
pub const EFFECT_COUNT: usize = 6;

/// The name of the effect at `index`, as the conversion tool takes it.
pub open spec fn effect_name(index: int) -> Seq<char> {
    if index == 0 {
        "flanger"@
    } else if index == 1 {
        "echo"@
    } else if index == 2 {
        "fm"@
    } else if index == 3 {
        "am"@
    } else if index == 4 {
        "phaser"@
    } else {
        "discont"@
    }
}

/// The default parameters of the effect at `index`, in hundredths.
pub open spec fn effect_defaults(index: int) -> Seq<int> {
    if index == 0 {
        seq![60int, 60, 60, 60]
    } else if index == 1 {
        seq![30int, 30, 30, 30]
    } else if index == 2 {
        seq![25int, 25, 50, 50]
    } else if index == 3 {
        seq![50int, 50, 50, 50]
    } else if index == 4 {
        seq![30int, 30, 50, 50]
    } else {
        seq![80int, 10, 20, 20]
    }
}

/// The labels of the four parameters of the effect at `index`.
pub open spec fn effect_labels(index: int) -> Seq<Seq<char>> {
    if index == 0 {
        seq!["Depth"@, "Rate"@, "Feedback"@, "Mix"@]
    } else if index == 1 {
        seq!["Delay"@, "Feedback"@, "Mix"@, "Tone"@]
    } else if index == 2 {
        seq!["Mod Depth"@, "Mod Rate"@, "Carrier"@, "Mix"@]
    } else if index == 3 {
        seq!["Depth"@, "Rate"@, "Shape"@, "Mix"@]
    } else if index == 4 {
        seq!["Depth"@, "Rate"@, "Stages"@, "Feedback"@]
    } else {
        seq!["Pitch"@, "Rate"@, "Blend"@, "Mix"@]
    }
}

/// The description of the effect at `index`.
pub open spec fn effect_description(index: int) -> Seq<char> {
    if index == 0 {
        "Modulated delay - jet-plane swoosh"@
    } else if index == 1 {
        "Delay loop up to 1.25 seconds"@
    } else if index == 2 {
        "Frequency modulation synthesis"@
    } else if index == 3 {
        "Amplitude modulation"@
    } else if index == 4 {
        "All-pass filter sweep"@
    } else {
        "Pitch shift via crossfade"@
    }
}

/// One entry of the catalog.
#[derive(Clone, Copy, Debug)]
pub struct EffectDefinition {
    pub name: &'static str,
    pub defaults: ParameterVector,
    pub labels: [&'static str; 4],
    pub description: &'static str,
}

impl EffectDefinition {
    /// This entry is the one that the catalog holds at `index`.
    pub open spec fn is_entry(self, index: int) -> bool {
        &&& self.name@ == effect_name(index)
        &&& self.defaults@ == effect_defaults(index)
        &&& forall|p: int| 0 <= p < 4 ==> (#[trigger] self.labels[p])@ == effect_labels(index)[p]
        &&& self.description@ == effect_description(index)
    }
}

/// The registry of effects.
pub struct EffectCatalog;

impl EffectCatalog {
    /// Number of effects.
    pub fn count() -> (n: usize)
        ensures
            n == EFFECT_COUNT,
    {
        EFFECT_COUNT
    }

    /// The entry at `index`.
    pub fn get(index: usize) -> (entry: EffectDefinition)
        requires
            index < EFFECT_COUNT,
        ensures
            entry.is_entry(index as int),
    {
        if index == 0 {
            EffectDefinition {
                name: "flanger",
                defaults: ParameterVector::of(60, 60, 60, 60),
                labels: ["Depth", "Rate", "Feedback", "Mix"],
                description: "Modulated delay - jet-plane swoosh",
            }
        } else if index == 1 {
            EffectDefinition {
                name: "echo",
                defaults: ParameterVector::of(30, 30, 30, 30),
                labels: ["Delay", "Feedback", "Mix", "Tone"],
                description: "Delay loop up to 1.25 seconds",
            }
        } else if index == 2 {
            EffectDefinition {
                name: "fm",
                defaults: ParameterVector::of(25, 25, 50, 50),
                labels: ["Mod Depth", "Mod Rate", "Carrier", "Mix"],
                description: "Frequency modulation synthesis",
            }
        } else if index == 3 {
            EffectDefinition {
                name: "am",
                defaults: ParameterVector::of(50, 50, 50, 50),
                labels: ["Depth", "Rate", "Shape", "Mix"],
                description: "Amplitude modulation",
            }
        } else if index == 4 {
            EffectDefinition {
                name: "phaser",
                defaults: ParameterVector::of(30, 30, 50, 50),
                labels: ["Depth", "Rate", "Stages", "Feedback"],
                description: "All-pass filter sweep",
            }
        } else {
            EffectDefinition {
                name: "discont",
                defaults: ParameterVector::of(80, 10, 20, 20),
                labels: ["Pitch", "Rate", "Blend", "Mix"],
                description: "Pitch shift via crossfade",
            }
        }
    }

    /// The name of the effect at `index`.
    pub fn name(index: usize) -> (name: &'static str)
        requires
            index < EFFECT_COUNT,
        ensures
            name@ == effect_name(index as int),
    {
        EffectCatalog::get(index).name
    }

    /// The default parameters of the effect at `index`.
    pub fn defaults(index: usize) -> (defaults: ParameterVector)
        requires
            index < EFFECT_COUNT,
        ensures
            defaults@ == effect_defaults(index as int),
    {
        EffectCatalog::get(index).defaults
    }
}

/// Every default of the catalog lies between 0.00 and 1.00.
pub proof fn law_defaults_in_range(index: int)
    ensures
        crate::parameter::in_range(effect_defaults(index)),
{
}

} // verus!
