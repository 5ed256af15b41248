//! What the panel shows, as texts and flags for a terminal library to draw.

use vstd::prelude::*;
use vstd::string::*;
use crate::panel::{App, AppView};
use crate::catalog::{
    effect_description, effect_labels, effect_name, EffectCatalog, EFFECT_COUNT,
};
use crate::parameter::{FULL_SCALE, PARAMETER_COUNT};
use crate::status::StatusView;
use crate::text::{
    format_two_decimals, pad_right, padded, repeat, repeated, two_decimals, uppercase_of,
};

verus! {

/// Width of a parameter's bar, in characters between the brackets.
pub const BAR_WIDTH: usize = 20;

/// Width to which a parameter's label is padded.
pub const LABEL_WIDTH: usize = 12;

/// One line of the list of effects, as plain values.
pub struct EffectRowView {
    pub text: Seq<char>,
    pub selected: bool,
}

/// One line of the list of effects.
#[derive(Debug, PartialEq, Eq)]
pub struct EffectRow {
    pub text: String,
    pub selected: bool,
}

impl View for EffectRow {
    type V = EffectRowView;

    open spec fn view(&self) -> EffectRowView {
        EffectRowView { text: self.text@, selected: self.selected }
    }
}

/// One parameter's line, as plain values.
pub struct PotRowView {
    pub label: Seq<char>,
    pub bar: Seq<char>,
    pub value: Seq<char>,
    pub selected: bool,
}

/// One parameter's line: its label, its bar and its value.
#[derive(Debug, PartialEq, Eq)]
pub struct PotRow {
    pub label: String,
    pub bar: String,
    pub value: String,
    pub selected: bool,
}

impl View for PotRow {
    type V = PotRowView;

    open spec fn view(&self) -> PotRowView {
        PotRowView { label: self.label@, bar: self.bar@, value: self.value@, selected: self.selected }
    }
}

/// The whole screen, as plain values.
pub struct ScreenView {
    pub title: Seq<char>,
    pub list_title: Seq<char>,
    pub effects: Seq<EffectRowView>,
    pub pots_title: Seq<char>,
    pub description: Seq<char>,
    pub pots: Seq<PotRowView>,
    pub controls: Seq<char>,
    pub status: StatusView,
}

/// The whole screen.
#[derive(Debug, PartialEq, Eq)]
pub struct Screen {
    pub title: String,
    pub list_title: String,
    pub effects: Vec<EffectRow>,
    pub pots_title: String,
    pub description: String,
    pub pots: Vec<PotRow>,
    pub controls: String,
    pub status: String,
    pub status_ok: bool,
}

impl View for Screen {
    type V = ScreenView;

    open spec fn view(&self) -> ScreenView {
        ScreenView {
            title: self.title@,
            list_title: self.list_title@,
            effects: Seq::new(self.effects@.len(), |i: int| self.effects@[i]@),
            pots_title: self.pots_title@,
            description: self.description@,
            pots: Seq::new(self.pots@.len(), |i: int| self.pots@[i]@),
            controls: self.controls@,
            status: StatusView { text: self.status@, ok: self.status_ok },
        }
    }
}

/// The line of the effect at `index` when the effect at `current` is the
/// current one: a marker, then the effect's name in upper case.
pub open spec fn effect_row(index: int, current: int) -> EffectRowView {
    EffectRowView {
        text: (if index == current {
            "> "@
        } else {
            "  "@
        }) + uppercase_of(effect_name(index)),
        selected: index == current,
    }
}

/// How many characters of a bar are filled for a value: the value's share
/// of the bar's width, rounded down.
pub open spec fn bar_fill(value: int) -> int {
    value * BAR_WIDTH / (FULL_SCALE as int)
}

/// The bar of a value: filled characters, then empty ones, in brackets.
pub open spec fn bar_text(value: int) -> Seq<char> {
    "["@ + repeated("#"@, bar_fill(value) as nat) + repeated(
        "-"@,
        (BAR_WIDTH - bar_fill(value)) as nat,
    ) + "]"@
}

/// The line of one parameter of an effect.
pub open spec fn pot_row(effect: int, parameter: int, value: int, cursor: int) -> PotRowView {
    PotRowView {
        label: " "@ + padded(effect_labels(effect)[parameter], LABEL_WIDTH as nat),
        bar: bar_text(value),
        value: " "@ + two_decimals(value),
        selected: parameter == cursor,
    }
}

/// The screen of a panel.
pub open spec fn screen_of(app: AppView) -> ScreenView {
    ScreenView {
        title: "=== AUDIONOISE TUI ==="@,
        list_title: "EFFECTS"@,
        effects: Seq::new(EFFECT_COUNT as nat, |i: int| effect_row(i, app.selection.effect)),
        pots_title: "POTS - "@ + uppercase_of(effect_name(app.selection.effect)),
        description: effect_description(app.selection.effect),
        pots: Seq::new(
            PARAMETER_COUNT as nat,
            |p: int|
                pot_row(app.selection.effect, p, app.current_parameters()[p], app.selection.cursor),
        ),
        controls: "Up/Down: effect | Tab: pot | Left/Right: value | p: play | s: stop | r: reset | q: quit"@,
        status: app.status(),
    }
}

/// The line of the effect at `index` when the effect at `current` is the
/// current one.
pub fn render_effect_row(index: usize, current: usize) -> (row: EffectRow)
    requires
        index < EFFECT_COUNT,
    ensures
        row@ == effect_row(index as int, current as int),
{
    let selected = index == current;
    let mut text = if selected {
        String::from_str("> ")
    } else {
        String::from_str("  ")
    };
    let upper = EffectCatalog::name(index).to_uppercase();
    text.append(upper.as_str());
    EffectRow { text, selected }
}

/// The bar of a value.
pub fn render_bar(value: u8) -> (bar: String)
    requires
        value <= FULL_SCALE,
    ensures
        bar@ == bar_text(value as int),
{
    let filled: usize = (value as usize) * BAR_WIDTH / (FULL_SCALE as usize);
    let mut bar = String::from_str("[");
    bar.append(repeat("#", filled).as_str());
    bar.append(repeat("-", BAR_WIDTH - filled).as_str());
    bar.append("]");
    bar
}

/// The line of one parameter of an effect.
pub fn render_pot_row(effect: usize, parameter: usize, value: u8, cursor: usize) -> (row: PotRow)
    requires
        effect < EFFECT_COUNT,
        parameter < PARAMETER_COUNT,
        value <= FULL_SCALE,
    ensures
        row@ == pot_row(effect as int, parameter as int, value as int, cursor as int),
{
    let entry = EffectCatalog::get(effect);
    let mut label = String::from_str(" ");
    label.append(pad_right(entry.labels[parameter], LABEL_WIDTH).as_str());
    let mut text = String::from_str(" ");
    text.append(format_two_decimals(value).as_str());
    PotRow { label, bar: render_bar(value), value: text, selected: parameter == cursor }
}

/// The screen of the panel as it stands.
pub fn render(app: &App) -> (screen: Screen)
    ensures
        screen@ == screen_of(app@),
{
    let current = app.effect_index();
    let cursor = app.parameter_cursor();
    let mut effects: Vec<EffectRow> = Vec::new();
    let mut index: usize = 0;
    while index < EFFECT_COUNT
        invariant
            index <= EFFECT_COUNT,
            effects@.len() == index,
            forall|i: int| 0 <= i < index ==> (#[trigger] effects@[i])@ == effect_row(i, current as int),
        decreases EFFECT_COUNT - index,
    {
        effects.push(render_effect_row(index, current));
        index += 1;
    }
    let vector = app.current_parameters();
    let mut pots: Vec<PotRow> = Vec::new();
    let mut parameter: usize = 0;
    while parameter < PARAMETER_COUNT
        invariant
            parameter <= PARAMETER_COUNT,
            current < EFFECT_COUNT,
            pots@.len() == parameter,
            forall|p: int|
                0 <= p < parameter ==> (#[trigger] pots@[p])@ == pot_row(
                    current as int,
                    p,
                    vector@[p],
                    cursor as int,
                ),
        decreases PARAMETER_COUNT - parameter,
    {
        pots.push(render_pot_row(current, parameter, vector.get(parameter), cursor));
        parameter += 1;
    }
    let mut pots_title = String::from_str("POTS - ");
    pots_title.append(EffectCatalog::name(current).to_uppercase().as_str());
    let status = app.status();
    let screen = Screen {
        title: String::from_str("=== AUDIONOISE TUI ==="),
        list_title: String::from_str("EFFECTS"),
        effects,
        pots_title,
        description: String::from_str(EffectCatalog::get(current).description),
        pots,
        controls: String::from_str(
            "Up/Down: effect | Tab: pot | Left/Right: value | p: play | s: stop | r: reset | q: quit",
        ),
        status: status.text.clone(),
        status_ok: status.ok,
    };
    proof {
        assert(screen@.effects =~= screen_of(app@).effects);
        assert(screen@.pots =~= screen_of(app@).pots);
    }
    screen
}

/// A bar is always as wide as the bar's width, whatever the value, and is
/// full exactly at 1.00.
pub proof fn law_bar_fill_in_range(value: int)
    requires
        0 <= value <= FULL_SCALE,
    ensures
        0 <= bar_fill(value) <= BAR_WIDTH,
        bar_fill(value) == BAR_WIDTH <==> value == FULL_SCALE,
        bar_fill(value) == value / 5,
{
}

} // verus!
