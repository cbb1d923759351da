use rust_fps::input::input_config::{
    KEY_A, KEY_D, KEY_ESCAPE, KEY_G, KEY_LEFT_CONTROL, KEY_LEFT_SHIFT, KEY_S, KEY_SPACE, KEY_TAB,
    KEY_W, KEY_X, KEY_Y,
};
use rust_fps::input::{Action, InputConfig, InputState, SerdeKeyCode};

fn key(code: u16) -> SerdeKeyCode {
    SerdeKeyCode { code }
}

#[test]
fn default_keys_match_the_layout() {
    let expected = [
        (Action::ToggleMenu, KEY_TAB),
        (Action::ToggleGrid, KEY_G),
        (Action::InvertX, KEY_X),
        (Action::InvertY, KEY_Y),
        (Action::MoveForward, KEY_W),
        (Action::MoveBackward, KEY_S),
        (Action::MoveLeft, KEY_A),
        (Action::MoveRight, KEY_D),
        (Action::MoveUp, KEY_SPACE),
        (Action::MoveDown, KEY_LEFT_CONTROL),
        (Action::Sprint, KEY_LEFT_SHIFT),
        (Action::Jump, KEY_SPACE),
    ];
    for (action, code) in expected {
        assert_eq!(action.default_key(), key(code));
    }
}

#[test]
fn key_codes_are_those_of_the_platform() {
    assert_eq!(KEY_SPACE, 0x0020);
    assert_eq!(KEY_W, 0x0057);
    assert_eq!(KEY_TAB, 0xff09);
    assert_eq!(KEY_ESCAPE, 0xff1b);
    assert_eq!(KEY_LEFT_SHIFT, 0xffe1);
    assert_eq!(KEY_LEFT_CONTROL, 0xffe3);
}

#[test]
fn move_up_and_jump_share_space_by_default() {
    assert_eq!(Action::MoveUp.default_key(), Action::Jump.default_key());
}

#[test]
fn display_names() {
    assert_eq!(Action::ToggleMenu.display_name(), "Toggle Menu");
    assert_eq!(Action::ToggleGrid.display_name(), "Toggle Grid");
    assert_eq!(Action::InvertX.display_name(), "Invert X Axis");
    assert_eq!(Action::InvertY.display_name(), "Invert Y Axis");
    assert_eq!(Action::MoveForward.display_name(), "Move Forward");
    assert_eq!(Action::MoveBackward.display_name(), "Move Backward");
    assert_eq!(Action::MoveLeft.display_name(), "Move Left");
    assert_eq!(Action::MoveRight.display_name(), "Move Right");
    assert_eq!(Action::MoveUp.display_name(), "Move Up");
    assert_eq!(Action::MoveDown.display_name(), "Move Down");
    assert_eq!(Action::Sprint.display_name(), "Sprint");
    assert_eq!(Action::Jump.display_name(), "Jump");
}

#[test]
fn all_lists_every_action_once_in_menu_order() {
    let all = Action::all();
    assert_eq!(all.len(), 12);
    assert_eq!(all[0], Action::ToggleMenu);
    assert_eq!(all[4], Action::MoveForward);
    assert_eq!(all[11], Action::Jump);
    for i in 0..all.len() {
        for j in 0..all.len() {
            if i != j {
                assert_ne!(all[i], all[j]);
            }
        }
    }
}

#[test]
fn default_config_binds_every_action_to_its_default() {
    let config = InputConfig::default();
    for action in Action::all() {
        assert_eq!(config.get_key(*action), action.default_key());
        assert_eq!(config.binding(*action), Some(action.default_key()));
    }
}

#[test]
fn empty_config_falls_back_to_defaults() {
    let config = InputConfig::empty();
    for action in Action::all() {
        assert_eq!(config.binding(*action), None);
        assert_eq!(config.get_key(*action), action.default_key());
    }
}

#[test]
fn set_key_is_read_back_and_touches_nothing_else() {
    let mut config = InputConfig::default();
    config.set_key(Action::Jump, key(KEY_G));
    assert_eq!(config.get_key(Action::Jump), key(KEY_G));
    assert_eq!(config.get_key(Action::MoveUp), key(KEY_SPACE));
    assert_eq!(config.get_key(Action::ToggleGrid), key(KEY_G));
    config.set_key(Action::Jump, key(KEY_W));
    assert_eq!(config.get_key(Action::Jump), key(KEY_W));
}

#[test]
fn set_key_on_empty_config_adds_one_entry() {
    let mut config = InputConfig::empty();
    config.set_key(Action::Sprint, key(KEY_A));
    assert_eq!(config.binding(Action::Sprint), Some(key(KEY_A)));
    assert_eq!(config.binding(Action::Jump), None);
}

#[test]
fn reset_to_defaults_restores_every_binding() {
    let mut config = InputConfig::empty();
    config.set_key(Action::MoveForward, key(KEY_Y));
    config.set_key(Action::ToggleMenu, key(KEY_ESCAPE));
    config.reset_to_defaults();
    for action in Action::all() {
        assert_eq!(config.binding(*action), Some(action.default_key()));
    }
    config.reset_to_defaults();
    assert_eq!(config.get_key(Action::MoveForward), key(KEY_W));
}

#[test]
fn clone_keeps_the_entries() {
    let mut config = InputConfig::empty();
    config.set_key(Action::InvertX, key(KEY_D));
    let copy = config.clone();
    assert_eq!(copy.binding(Action::InvertX), Some(key(KEY_D)));
    assert_eq!(copy.binding(Action::InvertY), None);
}

#[test]
fn pressed_checks_look_up_the_bound_key() {
    let mut config = InputConfig::default();
    let down = vec![key(KEY_W), key(KEY_LEFT_SHIFT)];
    assert!(config.is_action_pressed(Action::MoveForward, &down));
    assert!(config.is_action_pressed(Action::Sprint, &down));
    assert!(!config.is_action_pressed(Action::MoveBackward, &down));
    config.set_key(Action::MoveBackward, key(KEY_W));
    assert!(config.is_action_pressed(Action::MoveBackward, &down));
    assert!(config.is_action_just_pressed(Action::MoveBackward, &down));
    assert!(!config.is_action_just_pressed(Action::Jump, &[]));
}

#[test]
fn input_state_new_and_default() {
    let fresh = InputState::new();
    assert!(fresh.cursor_captured);
    assert!(!fresh.move_forward && !fresh.jump && !fresh.sprint);
    let idle = InputState::default();
    assert!(!idle.cursor_captured);
    assert!(!idle.move_up && !idle.move_down);
}

#[test]
fn input_state_reads_bound_keys() {
    let mut config = InputConfig::default();
    let mut state = InputState::new();
    let down = vec![key(KEY_W), key(KEY_D), key(KEY_SPACE)];
    let pressed = vec![key(KEY_SPACE)];
    state.update(&config, &down, &pressed);
    assert!(state.move_forward && state.move_right && state.move_up && state.jump);
    assert!(!state.move_backward && !state.move_left && !state.move_down && !state.sprint);
    assert!(state.cursor_captured);

    config.set_key(Action::Jump, key(KEY_X));
    state.update(&config, &down, &pressed);
    assert!(!state.jump);
    assert!(state.move_up);
}
