use vstd::prelude::*;

use crate::input::input_config::{bound_key, Action, InputConfig, SerdeKeyCode};

verus! {

/// What the player asks for in the current frame. The mouse movement of
/// the frame is kept beside it by the caller, which owns the window.
#[derive(Debug, Clone, Copy, PartialEq, Eq, Structural)]
pub struct InputState {
    pub move_forward: bool,
    pub move_backward: bool,
    pub move_left: bool,
    pub move_right: bool,
    pub move_up: bool,
    pub move_down: bool,
    pub sprint: bool,
    pub jump: bool,
    pub cursor_captured: bool,
}

impl Default for InputState {
    /// Nothing held, cursor free.
    fn default() -> (state: Self)
        ensures
            !state.move_forward && !state.move_backward && !state.move_left && !state.move_right,
            !state.move_up && !state.move_down && !state.sprint && !state.jump,
            !state.cursor_captured,
    {
        InputState {
            move_forward: false,
            move_backward: false,
            move_left: false,
            move_right: false,
            move_up: false,
            move_down: false,
            sprint: false,
            jump: false,
            cursor_captured: false,
        }
    }
}

impl InputState {
    /// The state after reading the keys held down and pressed this frame
    /// under the given bindings; the cursor flag is kept.
    pub open spec fn read_from(
        self,
        bindings: Map<Action, SerdeKeyCode>,
        keys_down: Seq<SerdeKeyCode>,
        keys_pressed: Seq<SerdeKeyCode>,
    ) -> InputState {
        InputState {
            move_forward: keys_down.contains(bound_key(bindings, Action::MoveForward)),
            move_backward: keys_down.contains(bound_key(bindings, Action::MoveBackward)),
            move_left: keys_down.contains(bound_key(bindings, Action::MoveLeft)),
            move_right: keys_down.contains(bound_key(bindings, Action::MoveRight)),
            move_up: keys_down.contains(bound_key(bindings, Action::MoveUp)),
            move_down: keys_down.contains(bound_key(bindings, Action::MoveDown)),
            sprint: keys_down.contains(bound_key(bindings, Action::Sprint)),
            jump: keys_pressed.contains(bound_key(bindings, Action::Jump)),
            cursor_captured: self.cursor_captured,
        }
    }

    /// Nothing held, cursor captured by the window.
    pub fn new() -> (state: Self)
        ensures
            !state.move_forward && !state.move_backward && !state.move_left && !state.move_right,
            !state.move_up && !state.move_down && !state.sprint && !state.jump,
            state.cursor_captured,
    {
        let mut state = Self::default();
        state.cursor_captured = true;
        state
    }

    /// Reads the bound keys: each movement flag and sprint is set when the
    /// key of its action is held down, jump when the key of `Jump` was
    /// pressed this frame. The cursor flag is left as it is.
    pub fn update(&mut self, config: &InputConfig, keys_down: &[SerdeKeyCode], keys_pressed: &[SerdeKeyCode])
        ensures
            *final(self) == old(self).read_from(config@, keys_down@, keys_pressed@),
            final(self).move_forward == keys_down@.contains(config.key_of(Action::MoveForward)),
            final(self).move_backward == keys_down@.contains(config.key_of(Action::MoveBackward)),
            final(self).move_left == keys_down@.contains(config.key_of(Action::MoveLeft)),
            final(self).move_right == keys_down@.contains(config.key_of(Action::MoveRight)),
            final(self).move_up == keys_down@.contains(config.key_of(Action::MoveUp)),
            final(self).move_down == keys_down@.contains(config.key_of(Action::MoveDown)),
            final(self).sprint == keys_down@.contains(config.key_of(Action::Sprint)),
            final(self).jump == keys_pressed@.contains(config.key_of(Action::Jump)),
            final(self).cursor_captured == old(self).cursor_captured,
    {
        self.move_forward = config.is_action_pressed(Action::MoveForward, keys_down);
        self.move_backward = config.is_action_pressed(Action::MoveBackward, keys_down);
        self.move_left = config.is_action_pressed(Action::MoveLeft, keys_down);
        self.move_right = config.is_action_pressed(Action::MoveRight, keys_down);
        self.move_up = config.is_action_pressed(Action::MoveUp, keys_down);
        self.move_down = config.is_action_pressed(Action::MoveDown, keys_down);
        self.sprint = config.is_action_pressed(Action::Sprint, keys_down);
        self.jump = config.is_action_just_pressed(Action::Jump, keys_pressed);
    }
}

/// Reading under a configuration's bindings looks up each action's key in
/// effect in that configuration.
pub proof fn lemma_read_keys_of_config(
    state: InputState,
    config: InputConfig,
    keys_down: Seq<SerdeKeyCode>,
    keys_pressed: Seq<SerdeKeyCode>,
)
    ensures
        forall|a: Action| #[trigger] bound_key(config@, a) == config.key_of(a),
{
}

/// Reading the keys sets every held action (movement and sprint) from the
/// keys held down alone, and jump from the keys pressed this frame alone:
/// holding a key keeps its flag set on every frame, and a key held since an
/// earlier frame does not jump again. The cursor flag is never touched.
pub proof fn law_read_keys(
    state: InputState,
    bindings: Map<Action, SerdeKeyCode>,
    keys_down: Seq<SerdeKeyCode>,
    keys_pressed: Seq<SerdeKeyCode>,
    other_pressed: Seq<SerdeKeyCode>,
    other_down: Seq<SerdeKeyCode>,
)
    ensures
        ({
            let r = state.read_from(bindings, keys_down, keys_pressed);
            &&& r.move_forward == keys_down.contains(bound_key(bindings, Action::MoveForward))
            &&& r.move_backward == keys_down.contains(bound_key(bindings, Action::MoveBackward))
            &&& r.move_left == keys_down.contains(bound_key(bindings, Action::MoveLeft))
            &&& r.move_right == keys_down.contains(bound_key(bindings, Action::MoveRight))
            &&& r.move_up == keys_down.contains(bound_key(bindings, Action::MoveUp))
            &&& r.move_down == keys_down.contains(bound_key(bindings, Action::MoveDown))
            &&& r.sprint == keys_down.contains(bound_key(bindings, Action::Sprint))
            &&& r.jump == keys_pressed.contains(bound_key(bindings, Action::Jump))
            &&& r.cursor_captured == state.cursor_captured
        }),
        ({
            let r = state.read_from(bindings, keys_down, keys_pressed);
            let held_only = state.read_from(bindings, keys_down, other_pressed);
            let pressed_only = state.read_from(bindings, other_down, keys_pressed);
            &&& held_only.sprint == r.sprint
            &&& held_only.move_forward == r.move_forward
            &&& pressed_only.jump == r.jump
        }),
{
}

} // verus!
