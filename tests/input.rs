use gametank::input::{InputCommand, ControllerButton, KeyState};

#[test]
fn key_state_edges() {
    let k = KeyState::new(true);
    assert!(k == KeyState::JustPressed);
    assert!(k.is_pressed());
    assert!(k.update() == KeyState::Held);
    assert!(KeyState::Held.update_state(false) == KeyState::JustReleased);
    assert!(!KeyState::JustReleased.is_pressed());
    assert!(KeyState::JustReleased.update() == KeyState::Released);
    assert!(KeyState::Released.update_state(true) == KeyState::JustPressed);
    assert!(KeyState::JustReleased.update_state(false) == KeyState::Released);
    assert!(KeyState::new(false) == KeyState::Released);
    assert!(InputCommand::Controller1(ControllerButton::A) != InputCommand::Controller2(ControllerButton::A));
}
