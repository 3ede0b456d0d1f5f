use undivey::components::{AppState, Keys};
use undivey::modes::{pause, pause_handler, ModeError, Modes};

fn escape() -> Keys {
    Keys { left: false, right: false, up: false, down: false, fire: false, pause: true }
}

#[test]
fn a_new_machine_rests() {
    let m = Modes::new(AppState::Menu);
    assert_eq!(m.current, AppState::Menu);
    assert_eq!(m.scheduled, None);
}

#[test]
fn a_change_waits_until_it_is_taken() {
    let mut m = Modes::new(AppState::InGame);
    assert_eq!(m.set(AppState::Paused), Ok(()));
    assert_eq!(m.current, AppState::InGame);
    assert_eq!(m.scheduled, Some(AppState::Paused));
    assert_eq!(m.take(), Some((AppState::InGame, AppState::Paused)));
    assert_eq!(m, Modes::new(AppState::Paused));
    assert_eq!(m.take(), None);
    assert_eq!(m, Modes::new(AppState::Paused));
}

#[test]
fn a_second_change_is_turned_down_while_one_waits() {
    let mut m = Modes::new(AppState::InGame);
    assert_eq!(m.set(AppState::Paused), Ok(()));
    let before = m;
    assert_eq!(m.set(AppState::GameOver), Err(ModeError::TransitionInFlight));
    assert_eq!(m, before);
    assert_eq!(m.set(AppState::Paused), Err(ModeError::TransitionInFlight));
    assert_eq!(m, before);
    assert_eq!(m.take(), Some((AppState::InGame, AppState::Paused)));
}

#[test]
fn a_change_to_the_current_mode_is_turned_down() {
    let mut m = Modes::new(AppState::InGame);
    assert_eq!(m.set(AppState::InGame), Err(ModeError::AlreadyInState));
    assert_eq!(m, Modes::new(AppState::InGame));
    assert_eq!(m.set(AppState::Paused), Ok(()));
    assert_eq!(m.set(AppState::InGame), Err(ModeError::AlreadyInState));
}

#[test]
fn the_pause_key_asks_for_the_pause() {
    let mut m = Modes::new(AppState::InGame);
    assert_eq!(pause_handler(&mut m, Keys::none()), Ok(()));
    assert_eq!(m, Modes::new(AppState::InGame));
    assert_eq!(pause_handler(&mut m, escape()), Ok(()));
    assert_eq!(m.scheduled, Some(AppState::Paused));
    assert_eq!(pause_handler(&mut m, escape()), Err(ModeError::TransitionInFlight));
}

#[test]
fn the_pause_key_asks_for_the_game_to_go_on() {
    let mut m = Modes::new(AppState::Paused);
    assert_eq!(pause(&mut m, Keys::none()), Ok(()));
    assert_eq!(m, Modes::new(AppState::Paused));
    assert_eq!(pause(&mut m, escape()), Ok(()));
    assert_eq!(m.scheduled, Some(AppState::InGame));
    assert_eq!(m.take(), Some((AppState::Paused, AppState::InGame)));
}

#[test]
fn the_handlers_are_turned_down_in_the_mode_they_ask_for() {
    let mut m = Modes::new(AppState::Paused);
    assert_eq!(pause_handler(&mut m, escape()), Err(ModeError::AlreadyInState));
    let mut m = Modes::new(AppState::InGame);
    assert_eq!(pause(&mut m, escape()), Err(ModeError::AlreadyInState));
}

#[test]
fn escape_twice_leads_back_to_the_game() {
    let mut m = Modes::new(AppState::InGame);
    pause_handler(&mut m, escape()).unwrap();
    m.take();
    assert_eq!(m.current, AppState::Paused);
    pause(&mut m, escape()).unwrap();
    m.take();
    assert_eq!(m, Modes::new(AppState::InGame));
}
