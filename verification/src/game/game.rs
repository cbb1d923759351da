use vstd::prelude::*;

use crate::game::ui::{GameUI, MenuClick};
use crate::input::input_config::{bound_key, default_bindings, Action, InputConfig, SerdeKeyCode, KEY_ESCAPE};
use crate::input::state::InputState;

verus! {

/// What the caller read from the window this frame.
pub struct FrameInput {
    /// The debug key (F3) was pressed.
    pub debug_key_pressed: bool,
    /// The key pressed last, if any.
    pub last_key: Option<SerdeKeyCode>,
    pub keys_down: Vec<SerdeKeyCode>,
    pub keys_pressed: Vec<SerdeKeyCode>,
    pub click: MenuClick,
}

/// Where the rest of the frame goes.
#[derive(Debug, Clone, Copy, PartialEq, Eq, Structural)]
pub enum FrameStep {
    /// An action waited for a key; the bindings changed if the flag says so.
    Rebinding { bindings_changed: bool },
    /// The overlay is open and handled the click; the bindings were reset
    /// if the flag says so.
    Menu { bindings_reset: bool },
    /// The overlay is closed: the caller runs the gameplay of the frame.
    Gameplay,
}

/// The outcome of the frame's decisions. When the overlay was toggled the
/// caller hands the cursor flag of the input state on to the window.
#[derive(Debug, Clone, Copy, PartialEq, Eq, Structural)]
pub struct FrameOutcome {
    pub menu_toggled: bool,
    pub step: FrameStep,
}

/// The effect of a frame on the overlay, the input state and the bindings,
/// and its outcome.
pub open spec fn frame_result(
    ui: GameUI,
    input: InputState,
    bindings: Map<Action, SerdeKeyCode>,
    f: FrameInput,
) -> (GameUI, InputState, Map<Action, SerdeKeyCode>, FrameOutcome) {
    let ui1 = if f.debug_key_pressed {
        ui.debug_toggled()
    } else {
        ui
    };
    if ui1.rebinding_action is Some {
        let commit = ui1.rebinding_commit(f.last_key);
        let bindings2 = match commit {
            Some((action, key)) => bindings.insert(action, key),
            None => bindings,
        };
        (
            ui1.rebinding_updated(f.last_key),
            input,
            bindings2,
            FrameOutcome {
                menu_toggled: false,
                step: FrameStep::Rebinding { bindings_changed: commit is Some },
            },
        )
    } else {
        let input1 = input.read_from(bindings, f.keys_down@, f.keys_pressed@);
        let toggles = f.keys_pressed@.contains(
            crate::input::input_config::bound_key(bindings, Action::ToggleMenu),
        );
        let ui2 = if toggles {
            ui1.menu_toggled()
        } else {
            ui1
        };
        let input2 = if toggles {
            InputState { cursor_captured: !ui2.show_menu, ..input1 }
        } else {
            input1
        };
        if ui2.show_menu {
            let reset = ui2.click_resets(f.click);
            (
                ui2.clicked(f.click),
                input2,
                if reset {
                    default_bindings()
                } else {
                    bindings
                },
                FrameOutcome { menu_toggled: toggles, step: FrameStep::Menu { bindings_reset: reset } },
            )
        } else {
            (ui2, input2, bindings, FrameOutcome { menu_toggled: toggles, step: FrameStep::Gameplay })
        }
    }
}

/// Takes the decisions of a frame: the debug key toggles the overlay;
/// then either the waiting action takes the last key, or the bound keys
/// are read, the key of `ToggleMenu` opens or closes the overlay, and the
/// open overlay handles the click or gameplay runs.
pub fn update_frame(ui: &mut GameUI, input: &mut InputState, config: &mut InputConfig, frame: &FrameInput) -> (outcome: FrameOutcome)
    ensures
        (*final(ui), *final(input), final(config)@, outcome) == frame_result(
            *old(ui),
            *old(input),
            old(config)@,
            *frame,
        ),
        old(ui).wf() ==> final(ui).wf(),
        !(outcome.step is Rebinding) ==> {
            &&& final(input).move_forward == frame.keys_down@.contains(old(config).key_of(Action::MoveForward))
            &&& final(input).move_backward == frame.keys_down@.contains(old(config).key_of(Action::MoveBackward))
            &&& final(input).move_left == frame.keys_down@.contains(old(config).key_of(Action::MoveLeft))
            &&& final(input).move_right == frame.keys_down@.contains(old(config).key_of(Action::MoveRight))
            &&& final(input).move_up == frame.keys_down@.contains(old(config).key_of(Action::MoveUp))
            &&& final(input).move_down == frame.keys_down@.contains(old(config).key_of(Action::MoveDown))
            &&& final(input).sprint == frame.keys_down@.contains(old(config).key_of(Action::Sprint))
            &&& final(input).jump == frame.keys_pressed@.contains(old(config).key_of(Action::Jump))
        },
{
    proof {
        crate::input::state::lemma_read_keys_of_config(*input, *config, frame.keys_down@, frame.keys_pressed@);
    }
    if frame.debug_key_pressed {
        ui.toggle_debug();
    }
    if ui.is_rebinding() {
        let changed = ui.update_rebinding(config, frame.last_key);
        return FrameOutcome { menu_toggled: false, step: FrameStep::Rebinding { bindings_changed: changed } };
    }
    input.update(config, frame.keys_down.as_slice(), frame.keys_pressed.as_slice());
    let toggles = config.is_action_just_pressed(Action::ToggleMenu, frame.keys_pressed.as_slice());
    if toggles {
        ui.toggle_menu(input);
    }
    if ui.show_menu {
        let reset = ui.handle_menu_click(config, &frame.click);
        FrameOutcome { menu_toggled: toggles, step: FrameStep::Menu { bindings_reset: reset } }
    } else {
        FrameOutcome { menu_toggled: toggles, step: FrameStep::Gameplay }
    }
}

/// What a frame does, in terms of what was read: the debug key flips the
/// debug overlay. While an action waits, the frame only takes the last key
/// (Escape cancels, another key is bound to the action) and leaves the
/// input state and the overlay's visibility alone. Otherwise the bound keys
/// are read under the bindings the frame started with, the key bound to
/// `ToggleMenu` flips the overlay, and an open overlay handles the click (a
/// press on a row starts rebinding it, a press on reset gives the default
/// bindings) while a closed one lets gameplay run with the bindings
/// unchanged.
pub proof fn law_frame_behaviour(
    ui: GameUI,
    input: InputState,
    bindings: Map<Action, SerdeKeyCode>,
    f: FrameInput,
    a: Action,
)
    ensures
        ({
            let (ui2, input2, bindings2, outcome) = frame_result(ui, input, bindings, f);
            let toggles = ui.rebinding_action is None && f.keys_pressed@.contains(
                bound_key(bindings, Action::ToggleMenu),
            );
            &&& outcome.menu_toggled == toggles
            &&& ui2.show_debug == (ui.show_debug != f.debug_key_pressed)
            &&& ui.rebinding_action is Some ==> {
                let action = ui.rebinding_action->0;
                &&& ui2.show_menu == ui.show_menu
                &&& input2 == input
                &&& outcome.step == FrameStep::Rebinding {
                    bindings_changed: f.last_key is Some && f.last_key->0.code != KEY_ESCAPE,
                }
                &&& (f.last_key is Some && f.last_key->0.code != KEY_ESCAPE) ==> bindings2
                    == bindings.insert(action, f.last_key->0)
                &&& !(f.last_key is Some && f.last_key->0.code != KEY_ESCAPE) ==> bindings2 == bindings
                &&& ui2.rebinding_action == (if f.last_key is Some {
                    None
                } else {
                    Some(action)
                })
            }
            &&& ui.rebinding_action is None ==> {
                &&& !(outcome.step is Rebinding)
                &&& ui2.show_menu == (ui.show_menu != toggles)
                &&& input2.move_forward == f.keys_down@.contains(bound_key(bindings, Action::MoveForward))
                &&& input2.move_backward == f.keys_down@.contains(bound_key(bindings, Action::MoveBackward))
                &&& input2.move_left == f.keys_down@.contains(bound_key(bindings, Action::MoveLeft))
                &&& input2.move_right == f.keys_down@.contains(bound_key(bindings, Action::MoveRight))
                &&& input2.move_up == f.keys_down@.contains(bound_key(bindings, Action::MoveUp))
                &&& input2.move_down == f.keys_down@.contains(bound_key(bindings, Action::MoveDown))
                &&& input2.sprint == f.keys_down@.contains(bound_key(bindings, Action::Sprint))
                &&& input2.jump == f.keys_pressed@.contains(bound_key(bindings, Action::Jump))
                &&& input2.cursor_captured == (if toggles {
                    !ui2.show_menu
                } else {
                    input.cursor_captured
                })
                &&& ui2.show_menu ==> {
                    &&& outcome.step == FrameStep::Menu {
                        bindings_reset: f.click.pressed && f.click.reset_hit,
                    }
                    &&& (f.click.pressed && f.click.reset_hit) ==> bindings2 == default_bindings()
                    &&& !(f.click.pressed && f.click.reset_hit) ==> bindings2 == bindings
                    &&& f.click.pressed && f.click.action_hit == Some(a) ==> ui2.rebinding_action == Some(a)
                    &&& !(f.click.pressed && f.click.action_hit is Some) ==> ui2.rebinding_action is None
                }
                &&& !ui2.show_menu ==> outcome.step == FrameStep::Gameplay && bindings2 == bindings
                    && ui2.rebinding_action is None
            }
        }),
{
}

/// A frame in which an action waits for a key neither toggles the overlay
/// nor reads the input nor runs gameplay, and leaves the overlay open.
pub proof fn law_rebinding_frame(ui: GameUI, input: InputState, bindings: Map<Action, SerdeKeyCode>, f: FrameInput)
    requires
        ui.wf(),
        ui.rebinding_action is Some,
    ensures
        ({
            let (ui2, input2, _b, outcome) = frame_result(ui, input, bindings, f);
            &&& !outcome.menu_toggled
            &&& outcome.step is Rebinding
            &&& input2 == input
            &&& ui2.show_menu
        }),
{
}

/// Gameplay runs only in a frame that ends with the overlay closed and the
/// bindings unchanged.
pub proof fn law_gameplay_frame(ui: GameUI, input: InputState, bindings: Map<Action, SerdeKeyCode>, f: FrameInput)
    ensures
        ({
            let (ui2, input2, bindings2, outcome) = frame_result(ui, input, bindings, f);
            outcome.step is Gameplay ==> {
                &&& !ui2.show_menu
                &&& ui2.rebinding_action is None
                &&& bindings2 == bindings
                &&& outcome.menu_toggled ==> input2.cursor_captured
            }
        }),
{
}

} // verus!
