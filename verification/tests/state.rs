use sprint_the_game::event::{ElementState, KeyEvent, MouseButton};
use sprint_the_game::logic::edit::EditLogic;
use sprint_the_game::logic::menu::{LevelButton, MenuLogic};
use sprint_the_game::logic::play::PlayLogic;
use sprint_the_game::logic::victory::VictoryLogic;
use sprint_the_game::logic::Logic;
use sprint_the_game::sprint_the_game::{State, StateTransition};

fn key(pressed: bool) -> KeyEvent {
    KeyEvent {
        physical_key: Some(57),
        state: if pressed { ElementState::Pressed } else { ElementState::Released },
        repeat: false,
    }
}

fn fresh_buttons() -> Vec<LevelButton> {
    vec![
        LevelButton { id: 0, position: (25, 25) },
        LevelButton { id: 1, position: (300, 300) },
    ]
}

#[test]
fn transition_starts_on_menu() {
    let transition = StateTransition::new();
    assert_eq!(transition.next_state(), State::Menu);
}

#[test]
fn transition_keeps_the_last_request() {
    let mut transition = StateTransition::new();
    transition.set_next_state(State::Play);
    assert_eq!(transition.next_state(), State::Play);
    transition.set_next_state(State::Edit);
    transition.set_next_state(State::Victory);
    assert_eq!(transition.next_state(), State::Victory);
    transition.set_next_state(State::Menu);
    assert_eq!(transition.next_state(), State::Menu);
}

#[test]
fn menu_starts_with_two_level_buttons() {
    let menu = MenuLogic::new();
    assert_eq!(menu.level_buttons, fresh_buttons());
}

#[test]
fn menu_ignores_input_and_updates() {
    let mut menu = MenuLogic::new();
    let mut play = PlayLogic::new();
    let mut edit = EditLogic::new();
    let mut transition = StateTransition::new();
    transition.set_next_state(State::Edit);

    menu.process_keyboard(key(true));
    menu.process_keyboard(key(false));
    menu.process_mouse(ElementState::Pressed, MouseButton::Left);
    menu.update(16_000_000, &mut transition, &mut play, &mut edit);

    assert_eq!(menu.level_buttons, fresh_buttons());
    assert_eq!(transition.next_state(), State::Edit);
}

#[test]
fn current_level_is_always_zero() {
    let mut play = PlayLogic::new();
    assert_eq!(play.get_current_level_id(), 0);
    play.set_current_level_id(7);
    assert_eq!(play.get_current_level_id(), 0);
    play.move_to_next_level();
    assert_eq!(play.get_current_level_id(), 0);
    play.reload_current_level();
    assert_eq!(play.get_current_level_id(), 0);
}

#[test]
fn play_victory_and_edit_ask_for_no_screen() {
    let mut menu = MenuLogic::new();
    let mut play = PlayLogic::new();
    let mut victory = VictoryLogic::new();
    let mut edit = EditLogic::new();
    let mut transition = StateTransition::new();
    transition.set_next_state(State::Play);

    play.process_keyboard(key(true));
    play.process_mouse(ElementState::Released, MouseButton::Other(9));
    play.update(1, &mut transition, &mut victory);
    victory.process_keyboard(key(true));
    victory.process_mouse(ElementState::Pressed, MouseButton::Right);
    victory.update(2, &mut transition, &mut play);
    edit.process_keyboard(key(false));
    edit.process_mouse(ElementState::Pressed, MouseButton::Middle);
    edit.update(u64::MAX, &mut transition, &mut menu);

    assert_eq!(transition.next_state(), State::Play);
    assert_eq!(menu.level_buttons, fresh_buttons());
    assert_eq!(play.get_current_level_id(), 0);
}

#[test]
fn logic_dispatch_changes_nothing_on_any_screen() {
    let states = [State::Menu, State::Play, State::Victory, State::Edit];
    for state in states.iter() {
        let mut logic = Logic::new();
        let mut transition = StateTransition::new();
        transition.set_next_state(State::Victory);

        logic.process_keyboard(state, key(true));
        logic.process_mouse(state, ElementState::Pressed, MouseButton::Forward);
        logic.process_mouse(state, ElementState::Released, MouseButton::Back);
        logic.update(state, &mut transition, 33_000_000);

        assert_eq!(logic.menu.level_buttons, fresh_buttons());
        assert_eq!(logic.play.get_current_level_id(), 0);
        assert_eq!(transition.next_state(), State::Victory);
    }
}
