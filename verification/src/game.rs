//! Decisions of a frame of the game: whether the frame goes to rebinding a
//! key, to the settings menu or to gameplay, and which objects the
//! player's hands hold. The window work around them (polling the keyboard
//! and the pointer, physics, drawing) is done by the caller.

pub mod game;
pub mod ui;

use vstd::prelude::*;

use crate::input::input_config::{bound_key, default_bindings, Action, InputConfig, SerdeKeyCode, KEY_ESCAPE};
use crate::input::state::InputState;
use crate::menu::{GameUI, MenuPointer, MenuResponse, MenuSection};

verus! {

/// What the caller read from the window this frame.
pub struct FrameInput {
    /// The debug key (F3) was pressed.
    pub debug_key_pressed: bool,
    /// Escape was pressed.
    pub escape_pressed: bool,
    /// The key pressed last, if any.
    pub last_key: Option<SerdeKeyCode>,
    pub keys_down: Vec<SerdeKeyCode>,
    pub keys_pressed: Vec<SerdeKeyCode>,
    pub pointer: MenuPointer,
}

/// Where the rest of the frame goes.
#[derive(Debug, Clone, Copy, PartialEq, Eq, Structural)]
pub enum FrameStep {
    /// An action waited for a key; the bindings changed if the flag says so.
    Rebinding { bindings_changed: bool },
    /// The menu is open and handled the pointer.
    Menu(MenuResponse),
    /// The menu is closed: the caller runs the gameplay of the frame.
    Gameplay,
}

/// The outcome of the frame's decisions. When the menu was toggled the
/// caller hands the cursor flag of the input state on to the window.
#[derive(Debug, Clone, Copy, PartialEq, Eq, Structural)]
pub struct FrameOutcome {
    pub menu_toggled: bool,
    pub step: FrameStep,
}

/// The menu once the debug key has been taken into account.
pub open spec fn debug_applied(ui: GameUI, f: FrameInput) -> GameUI {
    if f.debug_key_pressed {
        ui.debug_toggled()
    } else {
        ui
    }
}

/// Whether Escape toggles the menu this frame: it does unless an action
/// waits for a key.
pub open spec fn menu_key_toggles(ui: GameUI, f: FrameInput) -> bool {
    f.escape_pressed && debug_applied(ui, f).rebinding_action is None
}

/// The effect of a frame on the menu, the input state and the bindings,
/// and its outcome.
pub open spec fn frame_result(
    ui: GameUI,
    input: InputState,
    bindings: Map<Action, SerdeKeyCode>,
    f: FrameInput,
) -> (GameUI, InputState, Map<Action, SerdeKeyCode>, FrameOutcome) {
    let ui1 = debug_applied(ui, f);
    let toggles = menu_key_toggles(ui, f);
    let ui2 = if toggles {
        ui1.menu_toggled()
    } else {
        ui1
    };
    let input1 = if toggles {
        InputState { cursor_captured: !ui2.show_menu, ..input }
    } else {
        input
    };
    if ui2.rebinding_action is Some {
        let commit = ui2.rebinding_commit(f.last_key);
        let bindings2 = match commit {
            Some((action, key)) => bindings.insert(action, key),
            None => bindings,
        };
        (
            ui2.rebinding_updated(f.last_key),
            input1,
            bindings2,
            FrameOutcome {
                menu_toggled: toggles,
                step: FrameStep::Rebinding { bindings_changed: commit is Some },
            },
        )
    } else {
        let input2 = input1.read_from(bindings, f.keys_down@, f.keys_pressed@);
        if ui2.show_menu {
            let response = ui2.click_response(f.pointer);
            (
                ui2.clicked(f.pointer),
                input2,
                if response.bindings_reset {
                    default_bindings()
                } else {
                    bindings
                },
                FrameOutcome { menu_toggled: toggles, step: FrameStep::Menu(response) },
            )
        } else {
            (ui2, input2, bindings, FrameOutcome { menu_toggled: toggles, step: FrameStep::Gameplay })
        }
    }
}

/// Takes the decisions of a frame: the debug key toggles the overlay,
/// Escape toggles the menu unless an action waits for a key; then either
/// the waiting action takes the last key, or the bound keys are read and
/// the open menu handles the pointer, or gameplay runs.
pub fn update_frame(ui: &mut GameUI, input: &mut InputState, config: &mut InputConfig, frame: &FrameInput) -> (outcome: FrameOutcome)
    ensures
        (*final(ui), *final(input), final(config)@, outcome) == frame_result(
            *old(ui),
            *old(input),
            old(config)@,
            *frame,
        ),
        old(ui).wf() ==> final(ui).wf(),
        outcome.step matches FrameStep::Menu(r) ==> r.drag_slider == final(ui).slider_dragging
            && final(ui).show_menu,
        !(outcome.step is Rebinding) ==> {
            &&& final(input).move_forward == frame.keys_down@.contains(old(config).key_of(Action::MoveForward))
            &&& final(input).move_backward == frame.keys_down@.contains(old(config).key_of(Action::MoveBackward))
            &&& final(input).move_left == frame.keys_down@.contains(old(config).key_of(Action::MoveLeft))
            &&& final(input).move_right == frame.keys_down@.contains(old(config).key_of(Action::MoveRight))
            &&& final(input).move_up == frame.keys_down@.contains(old(config).key_of(Action::MoveUp))
            &&& final(input).move_down == frame.keys_down@.contains(old(config).key_of(Action::MoveDown))
            &&& final(input).sprint == frame.keys_down@.contains(old(config).key_of(Action::Sprint))
            &&& final(input).jump == frame.keys_pressed@.contains(old(config).key_of(Action::Jump))
        },
{
    proof {
        crate::input::state::lemma_read_keys_of_config(*input, *config, frame.keys_down@, frame.keys_pressed@);
    }
    if frame.debug_key_pressed {
        ui.toggle_debug();
    }
    let toggles = frame.escape_pressed && !ui.is_rebinding();
    if toggles {
        ui.toggle_menu(input);
    }
    if ui.is_rebinding() {
        let changed = ui.update_rebinding(config, frame.last_key);
        FrameOutcome { menu_toggled: toggles, step: FrameStep::Rebinding { bindings_changed: changed } }
    } else {
        input.update(config, frame.keys_down.as_slice(), frame.keys_pressed.as_slice());
        if ui.show_menu {
            let response = ui.handle_menu_click(config, &frame.pointer);
            FrameOutcome { menu_toggled: toggles, step: FrameStep::Menu(response) }
        } else {
            FrameOutcome { menu_toggled: toggles, step: FrameStep::Gameplay }
        }
    }
}

/// The world indices of the objects in the player's left and right hand,
/// and whether each hand is charging a throw.
#[derive(Debug, Clone, Copy, PartialEq, Eq, Structural)]
pub struct Hands {
    pub left: Option<usize>,
    pub right: Option<usize>,
    pub is_charging_left: bool,
    pub is_charging_right: bool,
}

/// What a mouse button did to its hand this frame: whether the throw's
/// charge grows, and the object thrown or picked up, which the caller
/// moves in or out of the world.
#[derive(Debug, Clone, Copy, PartialEq, Eq, Structural)]
pub struct HandStep {
    pub charging: bool,
    pub thrown: Option<usize>,
    pub picked: Option<usize>,
}

impl Hands {
    /// No object is in both hands, and only a full hand charges.
    pub open spec fn wf(self) -> bool {
        &&& !(self.left is Some && self.left == self.right)
        &&& self.is_charging_left ==> self.left is Some
        &&& self.is_charging_right ==> self.right is Some
    }

    /// The object in the chosen hand.
    pub open spec fn held(self, is_left: bool) -> Option<usize> {
        if is_left {
            self.left
        } else {
            self.right
        }
    }

    /// Whether the chosen hand charges a throw.
    pub open spec fn charging(self, is_left: bool) -> bool {
        if is_left {
            self.is_charging_left
        } else {
            self.is_charging_right
        }
    }

    /// Whether either hand holds the object.
    pub open spec fn holds(self, index: usize) -> bool {
        self.left == Some(index) || self.right == Some(index)
    }

    /// The hands with the chosen one holding `object`.
    pub open spec fn with_hand(self, is_left: bool, object: Option<usize>) -> Hands {
        if is_left {
            Hands { left: object, ..self }
        } else {
            Hands { right: object, ..self }
        }
    }

    /// The hands with the chosen one's charging flag set to `on`.
    pub open spec fn with_charging(self, is_left: bool, on: bool) -> Hands {
        if is_left {
            Hands { is_charging_left: on, ..self }
        } else {
            Hands { is_charging_right: on, ..self }
        }
    }

    /// The object a pickup takes: the one the ray hit, if the chosen hand
    /// is empty and no hand holds it already.
    pub open spec fn pickup_target(self, is_left: bool, hit: Option<usize>) -> Option<usize> {
        match hit {
            Some(index) => if self.held(is_left) is None && !self.holds(index) {
                Some(index)
            } else {
                None
            },
            None => None,
        }
    }

    /// The hands after a pickup attempt.
    pub open spec fn picked_up(self, is_left: bool, hit: Option<usize>) -> Hands {
        match self.pickup_target(is_left, hit) {
            Some(index) => self.with_hand(is_left, Some(index)),
            None => self,
        }
    }

    /// The effect of a frame of one mouse button on its hand: holding the
    /// button over a full hand charges a throw; releasing it throws what
    /// was charged, or else tries to pick up what the ray hit.
    pub open spec fn button_result(self, is_left: bool, down: bool, released: bool, hit: Option<usize>) -> (Hands, HandStep) {
        let charges = down && self.held(is_left) is Some;
        let h1 = if charges {
            self.with_charging(is_left, true)
        } else {
            self
        };
        if released {
            if h1.charging(is_left) {
                (
                    h1.with_hand(is_left, None).with_charging(is_left, false),
                    HandStep { charging: charges, thrown: h1.held(is_left), picked: None },
                )
            } else if h1.held(is_left) is None {
                (
                    h1.picked_up(is_left, hit),
                    HandStep { charging: charges, thrown: None, picked: h1.pickup_target(is_left, hit) },
                )
            } else {
                (h1, HandStep { charging: charges, thrown: None, picked: None })
            }
        } else {
            (h1, HandStep { charging: charges, thrown: None, picked: None })
        }
    }

    /// Both hands empty, nothing charging.
    pub fn new() -> (hands: Self)
        ensures
            hands == (Hands { left: None, right: None, is_charging_left: false, is_charging_right: false }),
            hands.wf(),
    {
        Hands { left: None, right: None, is_charging_left: false, is_charging_right: false }
    }

    /// Puts the object that the caller's ray hit into the chosen hand,
    /// unless that hand is full or a hand already holds the object.
    /// Returns the object taken, which the caller takes out of the world.
    pub fn try_pickup(&mut self, is_left: bool, hit: Option<usize>) -> (taken: Option<usize>)
        ensures
            taken == old(self).pickup_target(is_left, hit),
            *final(self) == old(self).picked_up(is_left, hit),
            old(self).wf() ==> final(self).wf(),
    {
        let current = if is_left {
            self.left
        } else {
            self.right
        };
        if current.is_some() {
            return None;
        }
        match hit {
            Some(index) => {
                let in_left = match self.left {
                    Some(i) => i == index,
                    None => false,
                };
                let in_right = match self.right {
                    Some(i) => i == index,
                    None => false,
                };
                if in_left || in_right {
                    return None;
                }
                if is_left {
                    self.left = Some(index);
                } else {
                    self.right = Some(index);
                }
                Some(index)
            },
            None => None,
        }
    }

    /// Empties the chosen hand and returns the object it held, which the
    /// caller throws back into the world.
    pub fn throw_object(&mut self, is_left: bool) -> (thrown: Option<usize>)
        ensures
            thrown == old(self).held(is_left),
            *final(self) == old(self).with_hand(is_left, None),
    {
        if is_left {
            let thrown = self.left;
            self.left = None;
            thrown
        } else {
            let thrown = self.right;
            self.right = None;
            thrown
        }
    }

    /// Takes a frame of the chosen hand's mouse button: whether it is held
    /// down, whether it was released, and what the caller's ray hit.
    pub fn update_hand(&mut self, is_left: bool, down: bool, released: bool, hit: Option<usize>) -> (step: HandStep)
        ensures
            (*final(self), step) == old(self).button_result(is_left, down, released, hit),
            old(self).wf() ==> final(self).wf(),
            (old(self).charging(is_left) || (down && old(self).held(is_left) is Some)) && released
                ==> step.thrown == old(self).held(is_left) && final(self).held(is_left) is None
                && !final(self).charging(is_left),
    {
        let held = if is_left {
            self.left.is_some()
        } else {
            self.right.is_some()
        };
        let charges = down && held;
        if charges {
            if is_left {
                self.is_charging_left = true;
            } else {
                self.is_charging_right = true;
            }
        }
        if !released {
            return HandStep { charging: charges, thrown: None, picked: None };
        }
        let charging = if is_left {
            self.is_charging_left
        } else {
            self.is_charging_right
        };
        if charging {
            let thrown = self.throw_object(is_left);
            if is_left {
                self.is_charging_left = false;
            } else {
                self.is_charging_right = false;
            }
            HandStep { charging: charges, thrown, picked: None }
        } else if !held {
            let picked = self.try_pickup(is_left, hit);
            HandStep { charging: charges, thrown: None, picked }
        } else {
            HandStep { charging: charges, thrown: None, picked: None }
        }
    }
}

/// What a frame does, in terms of what was read: the debug key flips the
/// debug overlay; Escape flips the menu exactly when no action waits for a
/// key. While an action waits, the frame only takes the last key (Escape
/// cancels, another key is bound to the action) and leaves the input state
/// alone. Otherwise the bound keys are read under the bindings the frame
/// started with; an open menu then handles the pointer (a press on a tab
/// shows it, the response's drag flag is the menu's drag state, a reset
/// gives the default bindings), and a closed menu lets gameplay run with
/// the bindings unchanged.
pub proof fn law_frame_behaviour(
    ui: GameUI,
    input: InputState,
    bindings: Map<Action, SerdeKeyCode>,
    f: FrameInput,
    s: MenuSection,
)
    ensures
        ({
            let (ui2, input2, bindings2, outcome) = frame_result(ui, input, bindings, f);
            let toggles = f.escape_pressed && ui.rebinding_action is None;
            &&& outcome.menu_toggled == toggles
            &&& ui2.show_debug == (ui.show_debug != f.debug_key_pressed)
            &&& ui.rebinding_action is Some ==> {
                let action = ui.rebinding_action->0;
                &&& ui2.show_menu == ui.show_menu
                &&& input2 == input
                &&& outcome.step == FrameStep::Rebinding {
                    bindings_changed: f.last_key is Some && f.last_key->0.code != KEY_ESCAPE,
                }
                &&& (f.last_key is Some && f.last_key->0.code != KEY_ESCAPE) ==> bindings2
                    == bindings.insert(action, f.last_key->0)
                &&& !(f.last_key is Some && f.last_key->0.code != KEY_ESCAPE) ==> bindings2 == bindings
                &&& ui2.rebinding_action == (if f.last_key is Some {
                    None
                } else {
                    Some(action)
                })
            }
            &&& ui.rebinding_action is None ==> {
                &&& !(outcome.step is Rebinding)
                &&& ui2.show_menu == (ui.show_menu != toggles)
                &&& input2.move_forward == f.keys_down@.contains(bound_key(bindings, Action::MoveForward))
                &&& input2.move_backward == f.keys_down@.contains(bound_key(bindings, Action::MoveBackward))
                &&& input2.move_left == f.keys_down@.contains(bound_key(bindings, Action::MoveLeft))
                &&& input2.move_right == f.keys_down@.contains(bound_key(bindings, Action::MoveRight))
                &&& input2.move_up == f.keys_down@.contains(bound_key(bindings, Action::MoveUp))
                &&& input2.move_down == f.keys_down@.contains(bound_key(bindings, Action::MoveDown))
                &&& input2.sprint == f.keys_down@.contains(bound_key(bindings, Action::Sprint))
                &&& input2.jump == f.keys_pressed@.contains(bound_key(bindings, Action::Jump))
                &&& input2.cursor_captured == (if toggles {
                    !ui2.show_menu
                } else {
                    input.cursor_captured
                })
                &&& ui2.show_menu ==> (outcome.step matches FrameStep::Menu(r) && {
                    &&& r.drag_slider == ui2.slider_dragging
                    &&& r.bindings_reset ==> bindings2 == default_bindings()
                    &&& !r.bindings_reset ==> bindings2 == bindings
                    &&& f.pointer.pressed && f.pointer.section_hit == Some(s) ==> ui2.current_section == s
                    &&& f.pointer.pressed && !f.pointer.released && f.pointer.slider_handle_hit
                        && (f.pointer.section_hit == Some(MenuSection::Graphics) || (f.pointer.section_hit is None
                        && (if toggles { MenuSection::Controls } else { ui.current_section })
                        == MenuSection::Graphics)) ==> r == (MenuResponse {
                        bindings_reset: false,
                        drag_slider: true,
                    }) && ui2.slider_dragging
                })
                &&& !ui2.show_menu ==> outcome.step == FrameStep::Gameplay && bindings2 == bindings
                    && ui2.rebinding_action is None
            }
        }),
{
    let ui1 = debug_applied(ui, f);
    let toggles = f.escape_pressed && ui.rebinding_action is None;
    let ui_mid = if toggles { ui1.menu_toggled() } else { ui1 };
    if ui.rebinding_action is None && ui_mid.show_menu {
        crate::menu::law_click_behaviour(ui_mid, f.pointer, s, Action::Jump);
    }
}

/// A pickup puts the hit object into the chosen hand when that hand is
/// empty and no hand holds the object; otherwise nothing changes. A throw
/// empties only the chosen hand.
pub proof fn law_pickup_and_throw_behaviour(hands: Hands, is_left: bool, hit: Option<usize>)
    ensures
        ({
            let after = hands.picked_up(is_left, hit);
            &&& after.held(!is_left) == hands.held(!is_left)
            &&& after.is_charging_left == hands.is_charging_left
            &&& after.is_charging_right == hands.is_charging_right
            &&& (match hit {
                Some(i) => if hands.held(is_left) is None && !hands.holds(i) {
                    after.held(is_left) == Some(i) && hands.pickup_target(is_left, hit) == Some(i)
                } else {
                    after == hands && hands.pickup_target(is_left, hit) is None
                },
                None => after == hands && hands.pickup_target(is_left, hit) is None,
            })
        }),
        hands.with_hand(is_left, None).held(is_left) is None,
        hands.with_hand(is_left, None).held(!is_left) == hands.held(!is_left),
        hands.with_hand(is_left, None).is_charging_left == hands.is_charging_left,
        hands.with_hand(is_left, None).is_charging_right == hands.is_charging_right,
{
}

/// What a frame of a mouse button does to its hand, in terms of the
/// button and the ray: holding the button over a full hand charges it;
/// releasing a charging hand throws its object and leaves it empty and
/// not charging, whatever the button did before; releasing an empty hand
/// picks up the object the ray hit unless a hand holds it already;
/// releasing a full hand that does not charge changes nothing. Nothing is
/// thrown or picked up without a release, and the other hand is never
/// touched.
pub proof fn law_hand_behaviour(hands: Hands, is_left: bool, down: bool, released: bool, hit: Option<usize>)
    ensures
        ({
            let (after, step) = hands.button_result(is_left, down, released, hit);
            let charges = down && hands.held(is_left) is Some;
            let was_charging = hands.charging(is_left) || charges;
            &&& step.charging == charges
            &&& after.held(!is_left) == hands.held(!is_left)
            &&& after.charging(!is_left) == hands.charging(!is_left)
            &&& !released ==> step.thrown is None && step.picked is None && after.held(is_left)
                == hands.held(is_left) && after.charging(is_left) == was_charging
            &&& released && was_charging ==> step.thrown == hands.held(is_left) && step.picked is None
                && after.held(is_left) is None && !after.charging(is_left)
            &&& released && !was_charging && hands.held(is_left) is None ==> step.thrown is None
                && !after.charging(is_left) && (match hit {
                Some(i) => if hands.holds(i) {
                    step.picked is None && after.held(is_left) is None
                } else {
                    step.picked == Some(i) && after.held(is_left) == Some(i)
                },
                None => step.picked is None && after.held(is_left) is None,
            })
            &&& released && !was_charging && hands.held(is_left) is Some ==> step.thrown is None
                && step.picked is None && after == hands
        }),
{
}

/// A frame in which an action waits for a key neither toggles the menu
/// nor reads the input nor runs gameplay, and leaves the menu open.
pub proof fn law_rebinding_frame(ui: GameUI, input: InputState, bindings: Map<Action, SerdeKeyCode>, f: FrameInput)
    requires
        ui.wf(),
        ui.rebinding_action is Some,
    ensures
        ({
            let (ui2, input2, _b, outcome) = frame_result(ui, input, bindings, f);
            &&& !outcome.menu_toggled
            &&& outcome.step is Rebinding
            &&& input2 == input
            &&& ui2.show_menu
        }),
{
}

/// Gameplay runs only in a frame that ends with the menu closed; it then
/// sees the bound keys read under unchanged bindings and a captured
/// cursor when the frame started well formed or toggled the menu.
pub proof fn law_gameplay_frame(ui: GameUI, input: InputState, bindings: Map<Action, SerdeKeyCode>, f: FrameInput)
    ensures
        ({
            let (ui2, input2, bindings2, outcome) = frame_result(ui, input, bindings, f);
            outcome.step is Gameplay ==> {
                &&& !ui2.show_menu
                &&& ui2.rebinding_action is None
                &&& bindings2 == bindings
                &&& input2.move_forward == f.keys_down@.contains(bound_key(bindings, Action::MoveForward))
                &&& input2.jump == f.keys_pressed@.contains(bound_key(bindings, Action::Jump))
                &&& outcome.menu_toggled ==> input2.cursor_captured
            }
        }),
{
}

/// A pickup followed by a throw from the same hand gives back the hands
/// as they were; a pickup never takes an object that a hand already holds.
pub proof fn law_pickup_then_throw(hands: Hands, is_left: bool, hit: Option<usize>)
    ensures
        hands.pickup_target(is_left, hit) is Some ==> hands.picked_up(is_left, hit).with_hand(is_left, None) == hands,
        hands.pickup_target(is_left, hit) matches Some(index) ==> !hands.holds(index),
{
}

/// A click (press and release in one frame) on a full hand throws its
/// object and leaves the hand empty and not charging; on an empty hand it
/// picks up what the ray hit, unless the other hand holds it.
pub proof fn law_click_throws_or_picks(hands: Hands, is_left: bool, hit: Option<usize>)
    requires
        hands.wf(),
    ensures
        ({
            let (after, step) = hands.button_result(is_left, true, true, hit);
            &&& hands.held(is_left) is Some ==> step.thrown == hands.held(is_left) && after.held(is_left) is None
                && !after.charging(is_left)
            &&& hands.held(is_left) is None ==> step.picked == hands.pickup_target(is_left, hit)
                && after.held(is_left) == step.picked
            &&& after.wf()
        }),
{
}

} // verus!
