//! The single-page controls overlay of the plain game mode: one page
//! that lists the bindings, lets one of them be rebound and restores the
//! defaults. Drawing and hit-testing the pointer against the text are the
//! caller's part.

use vstd::prelude::*;

use crate::input::input_config::{default_bindings, Action, InputConfig, SerdeKeyCode, KEY_ESCAPE};
use crate::input::state::InputState;

verus! {

/// What the pointer did this frame, as hit-tested by the caller: whether
/// the left button was pressed, the first control row under the pointer,
/// and whether the pointer is over the reset button.
#[derive(Debug, Clone, Copy, PartialEq, Eq, Structural)]
pub struct MenuClick {
    pub pressed: bool,
    pub action_hit: Option<Action>,
    pub reset_hit: bool,
}

/// State of the controls overlay.
#[derive(Debug, Clone, Copy, PartialEq, Eq, Structural)]
pub struct GameUI {
    pub show_menu: bool,
    pub rebinding_action: Option<Action>,
    pub show_debug: bool,
}

impl GameUI {
    /// Nothing is rebound unless the overlay is open.
    pub open spec fn wf(self) -> bool {
        self.rebinding_action is Some ==> self.show_menu
    }

    /// The overlay after `toggle_menu`: closing it ends any rebinding.
    pub open spec fn menu_toggled(self) -> GameUI {
        if !self.show_menu {
            GameUI { show_menu: true, ..self }
        } else {
            GameUI { show_menu: false, rebinding_action: None, ..self }
        }
    }

    /// The overlay after `toggle_debug`.
    pub open spec fn debug_toggled(self) -> GameUI {
        GameUI { show_debug: !self.show_debug, ..self }
    }

    /// The binding that a key pressed while waiting for one commits: none
    /// when nothing waits, no key came, or the key is Escape.
    pub open spec fn rebinding_commit(self, last_key: Option<SerdeKeyCode>) -> Option<(Action, SerdeKeyCode)> {
        match (self.rebinding_action, last_key) {
            (Some(action), Some(key)) => if key.code == KEY_ESCAPE {
                None
            } else {
                Some((action, key))
            },
            _ => None,
        }
    }

    /// The overlay after `update_rebinding`: any key ends the wait.
    pub open spec fn rebinding_updated(self, last_key: Option<SerdeKeyCode>) -> GameUI {
        if self.rebinding_action is Some && last_key is Some {
            GameUI { rebinding_action: None, ..self }
        } else {
            self
        }
    }

    /// Whether a click is taken into account: the overlay is open, nothing
    /// waits for a key and the button was pressed.
    pub open spec fn click_counts(self, click: MenuClick) -> bool {
        self.show_menu && self.rebinding_action is None && click.pressed
    }

    /// The overlay after `handle_menu_click`.
    pub open spec fn clicked(self, click: MenuClick) -> GameUI {
        if self.click_counts(click) && click.action_hit is Some {
            GameUI { rebinding_action: click.action_hit, ..self }
        } else {
            self
        }
    }

    /// Whether the click pressed the reset button.
    pub open spec fn click_resets(self, click: MenuClick) -> bool {
        self.click_counts(click) && click.reset_hit
    }

    /// A closed overlay with nothing rebound and the debug overlay off.
    pub fn new() -> (ui: Self)
        ensures
            ui == (GameUI { show_menu: false, rebinding_action: None, show_debug: false }),
            ui.wf(),
    {
        GameUI { show_menu: false, rebinding_action: None, show_debug: false }
    }

    /// Opens or closes the overlay; the cursor is released while it is
    /// open and captured while it is closed.
    pub fn toggle_menu(&mut self, input: &mut InputState)
        ensures
            *final(self) == old(self).menu_toggled(),
            *final(input) == (InputState { cursor_captured: !final(self).show_menu, ..*old(input) }),
            old(self).wf() ==> final(self).wf(),
    {
        self.show_menu = !self.show_menu;
        if self.show_menu {
            input.cursor_captured = false;
        } else {
            input.cursor_captured = true;
            self.rebinding_action = None;
        }
    }

    /// Shows or hides the debug overlay.
    pub fn toggle_debug(&mut self)
        ensures
            *final(self) == old(self).debug_toggled(),
            old(self).wf() ==> final(self).wf(),
    {
        self.show_debug = !self.show_debug;
    }

    /// While an action waits for a key, takes the key pressed last this
    /// frame: Escape cancels, any other key becomes the action's binding.
    /// Returns whether the bindings changed, so that the caller saves them.
    pub fn update_rebinding(&mut self, config: &mut InputConfig, last_key: Option<SerdeKeyCode>) -> (changed: bool)
        ensures
            *final(self) == old(self).rebinding_updated(last_key),
            changed == old(self).rebinding_commit(last_key) is Some,
            final(config)@ == (match old(self).rebinding_commit(last_key) {
                Some((action, key)) => old(config)@.insert(action, key),
                None => old(config)@,
            }),
            old(self).wf() ==> final(self).wf(),
    {
        if let Some(action) = self.rebinding_action {
            if let Some(key) = last_key {
                if key.code == KEY_ESCAPE {
                    self.rebinding_action = None;
                    return false;
                }
                config.set_key(action, key);
                self.rebinding_action = None;
                return true;
            }
        }
        false
    }

    /// Handles a press while the overlay is open and nothing waits for a
    /// key: a press on a row starts rebinding its action, a press on the
    /// reset button restores the default bindings. Returns whether the
    /// bindings were reset, so that the caller saves them.
    pub fn handle_menu_click(&mut self, config: &mut InputConfig, click: &MenuClick) -> (reset: bool)
        ensures
            *final(self) == old(self).clicked(*click),
            reset == old(self).click_resets(*click),
            final(config)@ == (if reset {
                default_bindings()
            } else {
                old(config)@
            }),
            old(self).wf() ==> final(self).wf(),
    {
        if !self.show_menu || self.rebinding_action.is_some() {
            return false;
        }
        if !click.pressed {
            return false;
        }
        if let Some(action) = click.action_hit {
            self.rebinding_action = Some(action);
        }
        if click.reset_hit {
            config.reset_to_defaults();
            return true;
        }
        false
    }

    /// Whether an action waits for a new key.
    pub fn is_rebinding(&self) -> (waiting: bool)
        ensures
            waiting == self.rebinding_action is Some,
    {
        self.rebinding_action.is_some()
    }
}

/// Toggling the overlay twice gives back a well-formed overlay, except
/// that closing and reopening ends any rebinding.
pub proof fn law_toggle_menu_twice(ui: GameUI)
    requires
        ui.wf(),
    ensures
        !ui.show_menu ==> ui.menu_toggled().menu_toggled() == ui,
        ui.show_menu ==> ui.menu_toggled().menu_toggled() == (GameUI { rebinding_action: None, ..ui }),
{
}

/// What a click on the open overlay does, in terms of the click: a press
/// on a row starts rebinding that row's action, a press on the reset
/// button resets the bindings, anything else changes nothing; visibility
/// and the debug overlay never change.
pub proof fn law_click_behaviour(ui: GameUI, click: MenuClick, a: Action)
    requires
        ui.show_menu,
        ui.rebinding_action is None,
    ensures
        ui.clicked(click).show_menu && ui.clicked(click).show_debug == ui.show_debug,
        click.pressed && click.action_hit == Some(a) ==> ui.clicked(click).rebinding_action == Some(a),
        !(click.pressed && click.action_hit is Some) ==> ui.clicked(click).rebinding_action is None,
        ui.click_resets(click) == (click.pressed && click.reset_hit),
{
}

/// Opening the overlay keeps the rebinding as it was; closing it ends the
/// rebinding. Only the visibility flips. Toggling the debug overlay flips
/// only that flag.
pub proof fn law_toggle_behaviour(ui: GameUI)
    ensures
        ui.menu_toggled().show_menu == !ui.show_menu,
        ui.menu_toggled().show_debug == ui.show_debug,
        !ui.show_menu ==> ui.menu_toggled().rebinding_action == ui.rebinding_action,
        ui.show_menu ==> ui.menu_toggled().rebinding_action is None,
        ui.debug_toggled().show_debug == !ui.show_debug,
        ui.debug_toggled().show_menu == ui.show_menu,
        ui.debug_toggled().rebinding_action == ui.rebinding_action,
{
}

/// A key pressed while an action waits ends the wait; no key keeps it;
/// with nothing waiting a key does nothing. Only the rebinding changes.
pub proof fn law_rebinding_update_behaviour(ui: GameUI, last_key: Option<SerdeKeyCode>)
    ensures
        ui.rebinding_action is Some && last_key is Some ==> ui.rebinding_updated(last_key) == (GameUI {
            rebinding_action: None,
            ..ui
        }),
        ui.rebinding_action is None || last_key is None ==> ui.rebinding_updated(last_key) == ui
            && ui.rebinding_commit(last_key) is None,
{
}

/// Toggling the debug overlay twice changes nothing.
pub proof fn law_toggle_debug_twice(ui: GameUI)
    ensures
        ui.debug_toggled().debug_toggled() == ui,
{
}

/// A hidden overlay, or one that waits for a key, ignores clicks.
pub proof fn law_click_ignored(ui: GameUI, click: MenuClick)
    requires
        !ui.show_menu || ui.rebinding_action is Some,
    ensures
        ui.clicked(click) == ui,
        !ui.click_resets(click),
{
}

/// While an action waits for a key, Escape ends the wait without binding
/// anything, and any other key becomes the key of that action.
pub proof fn law_rebinding_outcome(ui: GameUI, key: SerdeKeyCode, before: InputConfig, after: InputConfig)
    requires
        ui.rebinding_action is Some,
        key.code != KEY_ESCAPE ==> after@ == before@.insert(ui.rebinding_action->0, key),
    ensures
        ui.rebinding_updated(Some(key)).rebinding_action is None,
        key.code == KEY_ESCAPE ==> ui.rebinding_commit(Some(key)) is None,
        key.code != KEY_ESCAPE ==> ui.rebinding_commit(Some(key)) == Some((ui.rebinding_action->0, key))
            && after.key_of(ui.rebinding_action->0) == key,
{
}

} // verus!
