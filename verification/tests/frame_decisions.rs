use rust_fps::world::HitEnemies;
use rust_fps::game::game as overlay_frame;
use rust_fps::game::ui::{GameUI as Overlay, MenuClick};
use rust_fps::game::{update_frame, FrameInput, FrameOutcome, FrameStep, HandStep, Hands};
use rust_fps::input::input_config::{KEY_ESCAPE, KEY_G, KEY_TAB, KEY_W};
use rust_fps::input::{Action, InputConfig, InputState, SerdeKeyCode};
use rust_fps::menu::{GameUI, MenuPointer, MenuResponse};

fn key(code: u16) -> SerdeKeyCode {
    SerdeKeyCode { code }
}

fn idle_pointer() -> MenuPointer {
    MenuPointer {
        pressed: false,
        released: false,
        section_hit: None,
        action_hit: None,
        reset_hit: false,
        slider_handle_hit: false,
    }
}

fn quiet_frame() -> FrameInput {
    FrameInput {
        debug_key_pressed: false,
        escape_pressed: false,
        last_key: None,
        keys_down: vec![],
        keys_pressed: vec![],
        pointer: idle_pointer(),
    }
}

#[test]
fn quiet_frame_runs_gameplay_and_reads_keys() {
    let mut ui = GameUI::new();
    let mut input = InputState::new();
    let mut config = InputConfig::default();
    let frame = FrameInput { keys_down: vec![key(KEY_W)], ..quiet_frame() };
    let outcome = update_frame(&mut ui, &mut input, &mut config, &frame);
    assert_eq!(outcome, FrameOutcome { menu_toggled: false, step: FrameStep::Gameplay });
    assert!(input.move_forward);
    assert!(input.cursor_captured);
}

#[test]
fn debug_key_toggles_overlay() {
    let mut ui = GameUI::new();
    let mut input = InputState::new();
    let mut config = InputConfig::default();
    let frame = FrameInput { debug_key_pressed: true, ..quiet_frame() };
    update_frame(&mut ui, &mut input, &mut config, &frame);
    assert!(ui.show_debug);
}

#[test]
fn escape_opens_menu_and_menu_handles_pointer_the_same_frame() {
    let mut ui = GameUI::new();
    let mut input = InputState::new();
    let mut config = InputConfig::default();
    let frame = FrameInput {
        escape_pressed: true,
        pointer: MenuPointer { pressed: true, action_hit: Some(Action::Jump), ..idle_pointer() },
        ..quiet_frame()
    };
    let outcome = update_frame(&mut ui, &mut input, &mut config, &frame);
    assert!(outcome.menu_toggled);
    assert_eq!(outcome.step, FrameStep::Menu(MenuResponse { bindings_reset: false, drag_slider: false }));
    assert!(ui.show_menu);
    assert!(!input.cursor_captured);
    assert_eq!(ui.rebinding_action, Some(Action::Jump));
}

#[test]
fn rebinding_frame_ignores_escape_and_takes_key() {
    let mut ui = GameUI::new();
    let mut input = InputState::new();
    let mut config = InputConfig::default();
    ui.toggle_menu(&mut input);
    ui.rebinding_action = Some(Action::Jump);
    let frame = FrameInput {
        escape_pressed: true,
        last_key: Some(key(KEY_ESCAPE)),
        keys_down: vec![key(KEY_W)],
        ..quiet_frame()
    };
    let before_input = input;
    let outcome = update_frame(&mut ui, &mut input, &mut config, &frame);
    assert_eq!(outcome, FrameOutcome { menu_toggled: false, step: FrameStep::Rebinding { bindings_changed: false } });
    assert!(ui.show_menu);
    assert!(!ui.is_rebinding());
    assert_eq!(input, before_input);

    ui.rebinding_action = Some(Action::Jump);
    let frame = FrameInput { last_key: Some(key(KEY_G)), ..quiet_frame() };
    let outcome = update_frame(&mut ui, &mut input, &mut config, &frame);
    assert_eq!(outcome.step, FrameStep::Rebinding { bindings_changed: true });
    assert_eq!(config.get_key(Action::Jump), key(KEY_G));
}

#[test]
fn escape_closes_open_menu() {
    let mut ui = GameUI::new();
    let mut input = InputState::new();
    let mut config = InputConfig::default();
    ui.toggle_menu(&mut input);
    let frame = FrameInput { escape_pressed: true, ..quiet_frame() };
    let outcome = update_frame(&mut ui, &mut input, &mut config, &frame);
    assert_eq!(outcome, FrameOutcome { menu_toggled: true, step: FrameStep::Gameplay });
    assert!(!ui.show_menu);
    assert!(input.cursor_captured);
}

fn quiet_overlay_frame() -> overlay_frame::FrameInput {
    overlay_frame::FrameInput {
        debug_key_pressed: false,
        last_key: None,
        keys_down: vec![],
        keys_pressed: vec![],
        click: MenuClick { pressed: false, action_hit: None, reset_hit: false },
    }
}

#[test]
fn overlay_frame_tab_toggles_overlay() {
    let mut ui = Overlay::new();
    let mut input = InputState::new();
    let mut config = InputConfig::default();
    let frame = overlay_frame::FrameInput { keys_pressed: vec![key(KEY_TAB)], ..quiet_overlay_frame() };
    let outcome = overlay_frame::update_frame(&mut ui, &mut input, &mut config, &frame);
    assert_eq!(outcome, overlay_frame::FrameOutcome {
        menu_toggled: true,
        step: overlay_frame::FrameStep::Menu { bindings_reset: false },
    });
    assert!(ui.show_menu);
    assert!(!input.cursor_captured);

    let outcome = overlay_frame::update_frame(&mut ui, &mut input, &mut config, &quiet_overlay_frame());
    assert_eq!(outcome.step, overlay_frame::FrameStep::Menu { bindings_reset: false });

    let outcome = overlay_frame::update_frame(&mut ui, &mut input, &mut config, &frame);
    assert_eq!(outcome.step, overlay_frame::FrameStep::Gameplay);
    assert!(input.cursor_captured);
}

#[test]
fn overlay_frame_rebinding_and_reset() {
    let mut ui = Overlay::new();
    let mut input = InputState::new();
    let mut config = InputConfig::default();
    ui.toggle_menu(&mut input);
    let click = overlay_frame::FrameInput {
        click: MenuClick { pressed: true, action_hit: Some(Action::Sprint), reset_hit: false },
        ..quiet_overlay_frame()
    };
    overlay_frame::update_frame(&mut ui, &mut input, &mut config, &click);
    assert_eq!(ui.rebinding_action, Some(Action::Sprint));

    let key_frame = overlay_frame::FrameInput { last_key: Some(key(KEY_W)), ..quiet_overlay_frame() };
    let outcome = overlay_frame::update_frame(&mut ui, &mut input, &mut config, &key_frame);
    assert_eq!(outcome.step, overlay_frame::FrameStep::Rebinding { bindings_changed: true });
    assert_eq!(config.get_key(Action::Sprint), key(KEY_W));

    let reset = overlay_frame::FrameInput {
        click: MenuClick { pressed: true, action_hit: None, reset_hit: true },
        ..quiet_overlay_frame()
    };
    let outcome = overlay_frame::update_frame(&mut ui, &mut input, &mut config, &reset);
    assert_eq!(outcome.step, overlay_frame::FrameStep::Menu { bindings_reset: true });
    assert_eq!(config.get_key(Action::Sprint), Action::Sprint.default_key());
}

#[test]
fn overlay_frame_overlay_operations() {
    let mut ui = Overlay::new();
    let mut input = InputState::new();
    let mut config = InputConfig::default();
    assert_eq!(ui, Overlay { show_menu: false, rebinding_action: None, show_debug: false });
    let press = MenuClick { pressed: true, action_hit: Some(Action::Jump), reset_hit: true };
    assert!(!ui.handle_menu_click(&mut config, &press));
    assert_eq!(ui, Overlay::new());

    ui.toggle_menu(&mut input);
    let unpressed = MenuClick { pressed: false, ..press };
    assert!(!ui.handle_menu_click(&mut config, &unpressed));
    assert!(!ui.is_rebinding());
    assert!(ui.handle_menu_click(&mut config, &press));
    assert_eq!(ui.rebinding_action, Some(Action::Jump));
    assert!(!ui.update_rebinding(&mut config, Some(key(KEY_ESCAPE))));
    assert!(!ui.is_rebinding());

    ui.rebinding_action = Some(Action::Jump);
    ui.toggle_menu(&mut input);
    assert!(!ui.show_menu && !ui.is_rebinding() && input.cursor_captured);
    ui.toggle_debug();
    ui.toggle_debug();
    assert!(!ui.show_debug);
}

fn holding(left: Option<usize>, right: Option<usize>) -> Hands {
    Hands { left, right, is_charging_left: false, is_charging_right: false }
}

#[test]
fn hands_pickup_and_throw() {
    let mut hands = Hands::new();
    assert_eq!(hands, holding(None, None));
    assert_eq!(hands.try_pickup(true, None), None);
    assert_eq!(hands.try_pickup(true, Some(2)), Some(2));
    assert_eq!(hands, holding(Some(2), None));
    assert_eq!(hands.try_pickup(true, Some(1)), None);
    assert_eq!(hands.try_pickup(false, Some(2)), None);
    assert_eq!(hands.try_pickup(false, Some(0)), Some(0));
    assert_eq!(hands, holding(Some(2), Some(0)));
    assert_eq!(hands.throw_object(true), Some(2));
    assert_eq!(hands.throw_object(true), None);
    assert_eq!(hands, holding(None, Some(0)));
    assert_eq!(hands.throw_object(false), Some(0));
    assert_eq!(hands, Hands::new());
}

#[test]
fn pickup_then_throw_restores_hands() {
    let mut hands = holding(None, Some(4));
    let before = hands;
    let taken = hands.try_pickup(true, Some(1));
    assert_eq!(taken, Some(1));
    assert_eq!(hands.throw_object(true), Some(1));
    assert_eq!(hands, before);
}

#[test]
fn button_charges_then_throws() {
    let mut hands = holding(Some(3), None);
    let step = hands.update_hand(true, true, false, None);
    assert_eq!(step, HandStep { charging: true, thrown: None, picked: None });
    assert!(hands.is_charging_left);
    let step = hands.update_hand(true, false, true, Some(7));
    assert_eq!(step, HandStep { charging: false, thrown: Some(3), picked: None });
    assert_eq!(hands, holding(None, None));
}

#[test]
fn click_on_full_hand_throws_at_once() {
    let mut hands = holding(None, Some(5));
    let step = hands.update_hand(false, true, true, Some(1));
    assert_eq!(step, HandStep { charging: true, thrown: Some(5), picked: None });
    assert_eq!(hands, Hands::new());
}

#[test]
fn release_on_empty_hand_picks_up() {
    let mut hands = holding(None, Some(5));
    let step = hands.update_hand(true, false, true, Some(5));
    assert_eq!(step, HandStep { charging: false, thrown: None, picked: None });
    let step = hands.update_hand(true, false, true, Some(6));
    assert_eq!(step, HandStep { charging: false, thrown: None, picked: Some(6) });
    assert_eq!(hands, holding(Some(6), Some(5)));
    let step = hands.update_hand(true, false, false, Some(1));
    assert_eq!(step, HandStep { charging: false, thrown: None, picked: None });
    assert_eq!(hands, holding(Some(6), Some(5)));
}

#[test]
fn release_on_full_hand_without_charge_keeps_it() {
    let mut hands = holding(Some(2), None);
    let step = hands.update_hand(true, false, true, Some(1));
    assert_eq!(step, HandStep { charging: false, thrown: None, picked: None });
    assert_eq!(hands, holding(Some(2), None));
}

#[test]
fn enemy_hits_are_recorded_once() {
    let mut hits = HitEnemies::new();
    assert!(!hits.contains(3));
    assert!(hits.record_hit(3));
    assert!(hits.contains(3));
    assert!(!hits.record_hit(3));
    assert!(hits.record_hit(0));
    assert!(hits.contains(0) && hits.contains(3) && !hits.contains(1));
    hits.clear();
    assert!(!hits.contains(3));
    assert!(hits.record_hit(3));
}
