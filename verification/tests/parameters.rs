use audionoise_tui::catalog::{EffectCatalog, EFFECT_COUNT};
use audionoise_tui::parameter::{ParameterVector, FULL_SCALE, PARAMETER_COUNT, STEP};
use audionoise_tui::store::ParameterStore;

#[test]
fn vector_is_made_from_values_in_range() {
    let vector = ParameterVector::from_hundredths([0, 30, 55, 100]).unwrap();
    assert_eq!(vector.hundredths(), [0, 30, 55, 100]);
    assert_eq!(vector.get(0), 0);
    assert_eq!(vector.get(1), 30);
    assert_eq!(vector.get(2), 55);
    assert_eq!(vector.get(3), 100);
}

#[test]
fn vector_is_refused_above_full_scale() {
    assert_eq!(ParameterVector::from_hundredths([0, 0, 0, 101]), None);
    assert_eq!(ParameterVector::from_hundredths([255, 0, 0, 0]), None);
    assert_eq!(ParameterVector::from_hundredths([0, 200, 0, 0]), None);
    assert_eq!(ParameterVector::from_hundredths([0, 0, 150, 0]), None);
    assert!(ParameterVector::from_hundredths([100, 100, 100, 100]).is_some());
}

#[test]
fn step_is_five_hundredths() {
    assert_eq!(STEP, 5);
    assert_eq!(FULL_SCALE, 100);
    assert_eq!(PARAMETER_COUNT, 4);
}

#[test]
fn increase_adds_one_step_to_one_parameter() {
    let vector = ParameterVector::from_hundredths([30, 30, 30, 30]).unwrap();
    assert_eq!(vector.increased(2).hundredths(), [30, 30, 35, 30]);
    assert_eq!(vector.increased(0).hundredths(), [35, 30, 30, 30]);
}

#[test]
fn decrease_takes_one_step_from_one_parameter() {
    let vector = ParameterVector::from_hundredths([30, 30, 30, 30]).unwrap();
    assert_eq!(vector.decreased(1).hundredths(), [30, 25, 30, 30]);
    assert_eq!(vector.decreased(3).hundredths(), [30, 30, 30, 25]);
}

#[test]
fn twenty_increases_from_zero_reach_exactly_one() {
    let mut vector = ParameterVector::from_hundredths([0, 0, 0, 0]).unwrap();
    for count in 1..=19u8 {
        vector = vector.increased(0);
        assert_eq!(vector.get(0), 5 * count);
    }
    assert_eq!(vector.get(0), 95);
    vector = vector.increased(0);
    assert_eq!(vector.get(0), 100);
    assert_eq!(vector.hundredths(), [100, 0, 0, 0]);
}

#[test]
fn increase_is_idempotent_at_the_ceiling() {
    let vector = ParameterVector::from_hundredths([100, 98, 96, 95]).unwrap();
    assert_eq!(vector.increased(0).hundredths(), [100, 98, 96, 95]);
    assert_eq!(vector.increased(1).hundredths(), [100, 100, 96, 95]);
    assert_eq!(vector.increased(2).hundredths(), [100, 98, 100, 95]);
    assert_eq!(vector.increased(3).hundredths(), [100, 98, 96, 100]);
    assert_eq!(vector.increased(3).increased(3).hundredths(), [100, 98, 96, 100]);
}

#[test]
fn decrease_is_idempotent_at_the_floor() {
    let vector = ParameterVector::from_hundredths([0, 3, 5, 6]).unwrap();
    assert_eq!(vector.decreased(0).hundredths(), [0, 3, 5, 6]);
    assert_eq!(vector.decreased(1).hundredths(), [0, 0, 5, 6]);
    assert_eq!(vector.decreased(2).hundredths(), [0, 3, 0, 6]);
    assert_eq!(vector.decreased(3).hundredths(), [0, 3, 5, 1]);
    assert_eq!(vector.decreased(3).decreased(3).hundredths(), [0, 3, 5, 0]);
}

#[test]
fn any_sequence_of_steps_stays_in_range() {
    let mut vector = ParameterVector::from_hundredths([80, 10, 20, 20]).unwrap();
    let mut seed: u32 = 12345;
    for _ in 0..2000 {
        seed = seed.wrapping_mul(1103515245).wrapping_add(12345);
        let index = ((seed >> 16) % 4) as usize;
        let up = (seed >> 20) % 3 != 0;
        vector = if up { vector.increased(index) } else { vector.decreased(index) };
        for value in vector.hundredths() {
            assert!(value <= 100);
        }
    }
}

#[test]
fn steps_match_the_arithmetic_on_reals() {
    let mut vector = ParameterVector::from_hundredths([30, 30, 30, 30]).unwrap();
    let mut real: f64 = 0.30;
    for round in 0..40 {
        if round < 25 {
            vector = vector.increased(0);
            real = (real + 0.05).min(1.0);
        } else {
            vector = vector.decreased(0);
            real = (real - 0.05).max(0.0);
        }
        assert_eq!(vector.get(0) as i64, (real * 100.0).round() as i64);
    }
}

#[test]
fn store_starts_at_the_defaults_of_the_catalog() {
    let store = ParameterStore::new();
    for effect in 0..EFFECT_COUNT {
        assert_eq!(*store.get(effect), EffectCatalog::defaults(effect));
    }
    assert_eq!(store.get(1).hundredths(), [30, 30, 30, 30]);
    assert_eq!(store.get(5).hundredths(), [80, 10, 20, 20]);
}

#[test]
fn store_increase_touches_one_parameter_of_one_effect() {
    let mut store = ParameterStore::new();
    store.increase(2, 1);
    assert_eq!(store.get(2).hundredths(), [25, 30, 50, 50]);
    for effect in 0..EFFECT_COUNT {
        if effect != 2 {
            assert_eq!(*store.get(effect), EffectCatalog::defaults(effect));
        }
    }
}

#[test]
fn store_decrease_touches_one_parameter_of_one_effect() {
    let mut store = ParameterStore::new();
    store.decrease(5, 1);
    store.decrease(5, 1);
    store.decrease(5, 1);
    assert_eq!(store.get(5).hundredths(), [80, 0, 20, 20]);
    for effect in 0..5 {
        assert_eq!(*store.get(effect), EffectCatalog::defaults(effect));
    }
}

#[test]
fn reset_restores_exactly_the_defaults_of_every_effect() {
    for effect in 0..EFFECT_COUNT {
        let mut store = ParameterStore::new();
        for parameter in 0..PARAMETER_COUNT {
            for _ in 0..(3 + parameter) {
                store.increase(effect, parameter);
            }
            store.decrease(effect, parameter);
        }
        assert_ne!(*store.get(effect), EffectCatalog::defaults(effect));
        store.reset(effect);
        assert_eq!(*store.get(effect), EffectCatalog::defaults(effect));
        assert_eq!(store.get(effect).hundredths(), EffectCatalog::get(effect).defaults.hundredths());
    }
}

#[test]
fn reset_leaves_other_effects_alone() {
    let mut store = ParameterStore::new();
    store.increase(0, 0);
    store.increase(3, 2);
    store.reset(0);
    assert_eq!(store.get(0).hundredths(), [60, 60, 60, 60]);
    assert_eq!(store.get(3).hundredths(), [50, 50, 55, 50]);
}

#[test]
fn catalog_holds_six_effects() {
    assert_eq!(EffectCatalog::count(), 6);
    assert_eq!(EFFECT_COUNT, 6);
}

#[test]
fn catalog_entries_are_as_listed() {
    let names = ["flanger", "echo", "fm", "am", "phaser", "discont"];
    let defaults: [[u8; 4]; 6] = [
        [60, 60, 60, 60],
        [30, 30, 30, 30],
        [25, 25, 50, 50],
        [50, 50, 50, 50],
        [30, 30, 50, 50],
        [80, 10, 20, 20],
    ];
    let labels = [
        ["Depth", "Rate", "Feedback", "Mix"],
        ["Delay", "Feedback", "Mix", "Tone"],
        ["Mod Depth", "Mod Rate", "Carrier", "Mix"],
        ["Depth", "Rate", "Shape", "Mix"],
        ["Depth", "Rate", "Stages", "Feedback"],
        ["Pitch", "Rate", "Blend", "Mix"],
    ];
    let descriptions = [
        "Modulated delay - jet-plane swoosh",
        "Delay loop up to 1.25 seconds",
        "Frequency modulation synthesis",
        "Amplitude modulation",
        "All-pass filter sweep",
        "Pitch shift via crossfade",
    ];
    for index in 0..6 {
        let entry = EffectCatalog::get(index);
        assert_eq!(entry.name, names[index]);
        assert_eq!(EffectCatalog::name(index), names[index]);
        assert_eq!(entry.defaults.hundredths(), defaults[index]);
        assert_eq!(entry.labels, labels[index]);
        assert_eq!(entry.description, descriptions[index]);
    }
}

#[test]
fn catalog_defaults_are_the_listed_reals() {
    let reals: [[f32; 4]; 6] = [
        [0.6, 0.6, 0.6, 0.6],
        [0.3, 0.3, 0.3, 0.3],
        [0.25, 0.25, 0.5, 0.5],
        [0.5, 0.5, 0.5, 0.5],
        [0.3, 0.3, 0.5, 0.5],
        [0.8, 0.1, 0.2, 0.2],
    ];
    for index in 0..6 {
        let held = EffectCatalog::defaults(index).hundredths();
        for parameter in 0..4 {
            assert_eq!(held[parameter] as i32, (reals[index][parameter] * 100.0).round() as i32);
            assert!(reals[index][parameter] >= 0.0 && reals[index][parameter] <= 1.0);
        }
    }
}
