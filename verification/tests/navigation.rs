use audionoise_tui::catalog::EFFECT_COUNT;
use audionoise_tui::input::{command_for, Command, Key, KeyKind};
use audionoise_tui::selection::SelectionState;

#[test]
fn selection_starts_at_the_first_effect_and_parameter() {
    let selection = SelectionState::new();
    assert_eq!(selection.effect_index(), 0);
    assert_eq!(selection.parameter_cursor(), 0);
    assert_eq!(selection.highlighted_effect(), Some(0));
    assert_eq!(selection.list_state().selected(), Some(0));
}

#[test]
fn next_effect_as_often_as_there_are_effects_returns_to_the_start() {
    for start in 0..EFFECT_COUNT {
        let mut selection = SelectionState::new();
        for _ in 0..start {
            selection.next_effect();
        }
        assert_eq!(selection.effect_index(), start);
        for step in 1..=EFFECT_COUNT {
            selection.next_effect();
            assert_eq!(selection.effect_index(), (start + step) % EFFECT_COUNT);
        }
        assert_eq!(selection.effect_index(), start);
    }
}

#[test]
fn prev_effect_from_the_first_yields_the_last() {
    let mut selection = SelectionState::new();
    selection.prev_effect();
    assert_eq!(selection.effect_index(), EFFECT_COUNT - 1);
    assert_eq!(selection.effect_index(), 5);
    selection.prev_effect();
    assert_eq!(selection.effect_index(), 4);
}

#[test]
fn prev_effect_undoes_next_effect() {
    let mut selection = SelectionState::new();
    for _ in 0..EFFECT_COUNT {
        let before = selection.effect_index();
        selection.next_effect();
        selection.prev_effect();
        assert_eq!(selection.effect_index(), before);
        selection.next_effect();
    }
}

#[test]
fn any_effect_switch_resets_the_parameter_cursor() {
    for cursor in 0..4 {
        let mut selection = SelectionState::new();
        for _ in 0..cursor {
            selection.next_parameter();
        }
        assert_eq!(selection.parameter_cursor(), cursor);
        selection.next_effect();
        assert_eq!(selection.parameter_cursor(), 0);

        for _ in 0..cursor {
            selection.next_parameter();
        }
        assert_eq!(selection.parameter_cursor(), cursor);
        selection.prev_effect();
        assert_eq!(selection.parameter_cursor(), 0);
    }
}

#[test]
fn parameter_cursor_cycles_forward() {
    let mut selection = SelectionState::new();
    let mut seen = Vec::new();
    for _ in 0..9 {
        selection.next_parameter();
        seen.push(selection.parameter_cursor());
    }
    assert_eq!(seen, vec![1, 2, 3, 0, 1, 2, 3, 0, 1]);
    assert_eq!(selection.effect_index(), 0);
}

#[test]
fn list_highlight_follows_the_current_effect() {
    let mut selection = SelectionState::new();
    selection.next_effect();
    assert_eq!(selection.list_state().selected(), Some(1));
    assert_eq!(selection.highlighted_effect(), Some(1));
    selection.next_effect();
    selection.next_effect();
    assert_eq!(selection.list_state().selected(), Some(3));
    selection.next_parameter();
    assert_eq!(selection.list_state().selected(), Some(3));
    selection.prev_effect();
    assert_eq!(selection.list_state().selected(), Some(2));
    assert_eq!(selection.highlighted_effect(), Some(2));
    for _ in 0..3 {
        selection.prev_effect();
    }
    assert_eq!(selection.list_state().selected(), Some(5));
    assert_eq!(selection.list_state().offset(), 0);
}

#[test]
fn keys_ask_for_their_commands() {
    let press = KeyKind::Press;
    assert_eq!(command_for(Key::Up, press), Some(Command::PreviousEffect));
    assert_eq!(command_for(Key::Char('k'), press), Some(Command::PreviousEffect));
    assert_eq!(command_for(Key::Down, press), Some(Command::NextEffect));
    assert_eq!(command_for(Key::Char('j'), press), Some(Command::NextEffect));
    assert_eq!(command_for(Key::Tab, press), Some(Command::NextParameter));
    assert_eq!(command_for(Key::Left, press), Some(Command::Decrease));
    assert_eq!(command_for(Key::Char('h'), press), Some(Command::Decrease));
    assert_eq!(command_for(Key::Right, press), Some(Command::Increase));
    assert_eq!(command_for(Key::Char('l'), press), Some(Command::Increase));
    assert_eq!(command_for(Key::Char('p'), press), Some(Command::ProcessAndPlay));
    assert_eq!(command_for(Key::Char('P'), press), Some(Command::ProcessAndPlay));
    assert_eq!(command_for(Key::Char('r'), press), Some(Command::Reset));
    assert_eq!(command_for(Key::Char('R'), press), Some(Command::Reset));
    assert_eq!(command_for(Key::Char('s'), press), Some(Command::StopPlayback));
    assert_eq!(command_for(Key::Char('S'), press), Some(Command::StopPlayback));
    assert_eq!(command_for(Key::Char('q'), press), Some(Command::Quit));
    assert_eq!(command_for(Key::Char('Q'), press), Some(Command::Quit));
}

#[test]
fn other_keys_ask_for_nothing() {
    let press = KeyKind::Press;
    assert_eq!(command_for(Key::Other, press), None);
    assert_eq!(command_for(Key::Char('x'), press), None);
    assert_eq!(command_for(Key::Char('K'), press), None);
    assert_eq!(command_for(Key::Char('J'), press), None);
    assert_eq!(command_for(Key::Char('H'), press), None);
    assert_eq!(command_for(Key::Char('L'), press), None);
    assert_eq!(command_for(Key::Char(' '), press), None);
}

#[test]
fn only_a_press_asks_for_a_command() {
    let keys = [Key::Up, Key::Down, Key::Tab, Key::Left, Key::Right, Key::Char('q'), Key::Char('p')];
    for key in keys {
        assert!(command_for(key, KeyKind::Press).is_some());
        assert_eq!(command_for(key, KeyKind::Release), None);
        assert_eq!(command_for(key, KeyKind::Repeat), None);
    }
}

#[test]
fn drawn_list_state_is_kept_when_it_highlights_the_current_effect() {
    let mut selection = SelectionState::new();
    selection.next_effect();
    selection.next_effect();
    let drawn = selection.list_state().clone().with_offset(1);
    selection.keep_list_state(drawn);
    assert_eq!(selection.list_state().offset(), 1);
    assert_eq!(selection.list_state().selected(), Some(2));
    assert_eq!(selection.effect_index(), 2);
    selection.next_effect();
    assert_eq!(selection.list_state().offset(), 1);
    assert_eq!(selection.list_state().selected(), Some(3));
}

#[test]
fn drawn_list_state_is_refused_when_it_highlights_another_row() {
    let mut selection = SelectionState::new();
    selection.next_effect();
    let elsewhere = selection.list_state().clone().with_selected(Some(4)).with_offset(3);
    selection.keep_list_state(elsewhere);
    assert_eq!(selection.list_state().selected(), Some(1));
    assert_eq!(selection.list_state().offset(), 0);
    let nowhere = selection.list_state().clone().with_selected(None);
    selection.keep_list_state(nowhere);
    assert_eq!(selection.list_state().selected(), Some(1));
    assert_eq!(selection.effect_index(), 1);
    assert_eq!(selection.parameter_cursor(), 0);
}
