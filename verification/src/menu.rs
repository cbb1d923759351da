//! The settings menu: which section is shown, which action waits for a new
//! key, and whether the sensitivity slider is being dragged. The window
//! work (drawing, hit-testing the pointer against the laid-out text,
//! grabbing the cursor) is done by the caller; this module decides what
//! the menu does with what the caller saw.

use vstd::prelude::*;

use crate::input::input_config::{default_bindings, Action, InputConfig, SerdeKeyCode, KEY_ESCAPE};
use crate::input::state::InputState;

verus! {

/// A page of the settings menu.
#[derive(Debug, Clone, Copy, PartialEq, Eq, Structural)]
pub enum MenuSection {
    Controls,
    Graphics,
    Audio,
}

/// Every section, in the order of the tabs.
pub open spec fn all_sections() -> Seq<MenuSection> {
    seq![MenuSection::Controls, MenuSection::Graphics, MenuSection::Audio]
}

impl MenuSection {
    /// The title of a section's tab.
    pub open spec fn label(self) -> Seq<char> {
        match self {
            MenuSection::Controls => "Controls"@,
            MenuSection::Graphics => "Graphics"@,
            MenuSection::Audio => "Audio"@,
        }
    }

    /// Returns every section, in the order of the tabs.
    pub fn all() -> (sections: &'static [MenuSection])
        ensures
            sections@ == all_sections(),
    {
        &[MenuSection::Controls, MenuSection::Graphics, MenuSection::Audio]
    }

    /// Returns the title of the section's tab.
    pub fn display_name(self) -> (name: &'static str)
        ensures
            name@ == self.label(),
    {
        match self {
            MenuSection::Controls => "Controls",
            MenuSection::Graphics => "Graphics",
            MenuSection::Audio => "Audio",
        }
    }
}

/// What the pointer did this frame, as hit-tested by the caller against
/// the menu layout: the first tab and the first control row under the
/// pointer, whether it is over the reset button and over the slider handle.
#[derive(Debug, Clone, Copy, PartialEq, Eq, Structural)]
pub struct MenuPointer {
    pub pressed: bool,
    pub released: bool,
    pub section_hit: Option<MenuSection>,
    pub action_hit: Option<Action>,
    pub reset_hit: bool,
    pub slider_handle_hit: bool,
}

/// What the caller has to do after a click was handled: save the bindings
/// that were reset, and move the sensitivity to the pointer while the
/// slider is dragged.
#[derive(Debug, Clone, Copy, PartialEq, Eq, Structural)]
pub struct MenuResponse {
    pub bindings_reset: bool,
    pub drag_slider: bool,
}

/// State of the settings menu.
#[derive(Debug, Clone, Copy, PartialEq, Eq, Structural)]
pub struct GameUI {
    pub show_menu: bool,
    pub rebinding_action: Option<Action>,
    pub show_debug: bool,
    pub current_section: MenuSection,
    pub slider_dragging: bool,
}

impl GameUI {
    /// Nothing is rebound and the slider is not held unless the menu is
    /// open.
    pub open spec fn wf(self) -> bool {
        &&& self.rebinding_action is Some ==> self.show_menu
        &&& self.slider_dragging ==> self.show_menu
    }

    /// The menu after `toggle_menu`: opening shows the controls page,
    /// closing ends any rebinding and any drag.
    pub open spec fn menu_toggled(self) -> GameUI {
        if !self.show_menu {
            GameUI { show_menu: true, current_section: MenuSection::Controls, ..self }
        } else {
            GameUI { show_menu: false, rebinding_action: None, slider_dragging: false, ..self }
        }
    }

    /// The menu after `toggle_debug`.
    pub open spec fn debug_toggled(self) -> GameUI {
        GameUI { show_debug: !self.show_debug, ..self }
    }

    /// The binding that a key pressed while waiting for one commits: none
    /// when nothing waits, no key came, or the key is Escape.
    pub open spec fn rebinding_commit(self, last_key: Option<SerdeKeyCode>) -> Option<(Action, SerdeKeyCode)> {
        match (self.rebinding_action, last_key) {
            (Some(action), Some(key)) => if key.code == KEY_ESCAPE {
                None
            } else {
                Some((action, key))
            },
            _ => None,
        }
    }

    /// The menu after `update_rebinding`: any key ends the wait.
    pub open spec fn rebinding_updated(self, last_key: Option<SerdeKeyCode>) -> GameUI {
        if self.rebinding_action is Some && last_key is Some {
            GameUI { rebinding_action: None, ..self }
        } else {
            self
        }
    }

    /// Whether a click is ignored: the menu is hidden or waits for a key.
    pub open spec fn click_ignored(self) -> bool {
        !self.show_menu || self.rebinding_action is Some
    }

    /// The section shown once the pointer's press has been taken into
    /// account.
    pub open spec fn clicked_section(self, p: MenuPointer) -> MenuSection {
        match p.section_hit {
            Some(section) => if p.pressed {
                section
            } else {
                self.current_section
            },
            None => self.current_section,
        }
    }

    /// The menu after `handle_menu_click`.
    pub open spec fn clicked(self, p: MenuPointer) -> GameUI {
        if self.click_ignored() {
            self
        } else {
            let section = self.clicked_section(p);
            let rebinding = if p.pressed && section == MenuSection::Controls && p.action_hit is Some {
                p.action_hit
            } else {
                self.rebinding_action
            };
            let grabbed = self.slider_dragging || (p.pressed && section == MenuSection::Graphics
                && p.slider_handle_hit);
            GameUI {
                current_section: section,
                rebinding_action: rebinding,
                slider_dragging: grabbed && !p.released,
                ..self
            }
        }
    }

    /// Whether the click pressed the reset button of the controls page.
    pub open spec fn click_resets(self, p: MenuPointer) -> bool {
        !self.click_ignored() && p.pressed && self.clicked_section(p) == MenuSection::Controls
            && p.reset_hit
    }

    /// The response that `handle_menu_click` returns.
    pub open spec fn click_response(self, p: MenuPointer) -> MenuResponse {
        MenuResponse {
            bindings_reset: self.click_resets(p),
            drag_slider: !self.click_ignored() && self.clicked(p).slider_dragging,
        }
    }

    /// A closed menu on the controls page, with nothing rebound or
    /// dragged and the debug overlay off.
    pub fn new() -> (ui: Self)
        ensures
            ui == (GameUI {
                show_menu: false,
                rebinding_action: None,
                show_debug: false,
                current_section: MenuSection::Controls,
                slider_dragging: false,
            }),
            ui.wf(),
    {
        GameUI {
            show_menu: false,
            rebinding_action: None,
            show_debug: false,
            current_section: MenuSection::Controls,
            slider_dragging: false,
        }
    }

    /// Opens or closes the menu. The cursor is released while the menu is
    /// open and captured while it is closed; the caller hands that flag on
    /// to the window.
    pub fn toggle_menu(&mut self, input: &mut InputState)
        ensures
            *final(self) == old(self).menu_toggled(),
            *final(input) == (InputState { cursor_captured: !final(self).show_menu, ..*old(input) }),
            old(self).wf() ==> final(self).wf(),
    {
        self.show_menu = !self.show_menu;
        if self.show_menu {
            input.cursor_captured = false;
            self.current_section = MenuSection::Controls;
        } else {
            input.cursor_captured = true;
            self.rebinding_action = None;
            self.slider_dragging = false;
        }
    }

    /// Shows or hides the debug overlay.
    pub fn toggle_debug(&mut self)
        ensures
            *final(self) == old(self).debug_toggled(),
            old(self).wf() ==> final(self).wf(),
    {
        self.show_debug = !self.show_debug;
    }

    /// While an action waits for a key, takes the key pressed last this
    /// frame: Escape cancels, any other key becomes the action's binding.
    /// Returns whether the bindings changed, so that the caller saves them.
    pub fn update_rebinding(&mut self, config: &mut InputConfig, last_key: Option<SerdeKeyCode>) -> (changed: bool)
        ensures
            *final(self) == old(self).rebinding_updated(last_key),
            changed == old(self).rebinding_commit(last_key) is Some,
            final(config)@ == (match old(self).rebinding_commit(last_key) {
                Some((action, key)) => old(config)@.insert(action, key),
                None => old(config)@,
            }),
            old(self).wf() ==> final(self).wf(),
    {
        if let Some(action) = self.rebinding_action {
            if let Some(key) = last_key {
                if key.code == KEY_ESCAPE {
                    self.rebinding_action = None;
                    return false;
                }
                config.set_key(action, key);
                self.rebinding_action = None;
                return true;
            }
        }
        false
    }

    /// Handles the pointer while the menu is open and no action waits for
    /// a key: a press on a tab switches the page; on the controls page a
    /// press on a row starts rebinding that action and a press on the reset
    /// button restores the default bindings; on the graphics page a press
    /// on the handle starts a drag, which a release ends.
    pub fn handle_menu_click(&mut self, config: &mut InputConfig, pointer: &MenuPointer) -> (response: MenuResponse)
        ensures
            *final(self) == old(self).clicked(*pointer),
            response == old(self).click_response(*pointer),
            final(config)@ == (if response.bindings_reset {
                default_bindings()
            } else {
                old(config)@
            }),
            old(self).wf() ==> final(self).wf(),
            old(self).show_menu && old(self).rebinding_action is None && pointer.pressed
                && pointer.section_hit is Some ==> final(self).current_section == pointer.section_hit->0,
            old(self).show_menu && old(self).rebinding_action is None ==> response.drag_slider
                == final(self).slider_dragging,
    {
        if !self.show_menu || self.rebinding_action.is_some() {
            return MenuResponse { bindings_reset: false, drag_slider: false };
        }
        let mut reset = false;
        if pointer.pressed {
            if let Some(section) = pointer.section_hit {
                self.current_section = section;
            }
            match self.current_section {
                MenuSection::Controls => {
                    if let Some(action) = pointer.action_hit {
                        self.rebinding_action = Some(action);
                    }
                    if pointer.reset_hit {
                        config.reset_to_defaults();
                        reset = true;
                    }
                },
                MenuSection::Graphics => {
                    if pointer.slider_handle_hit {
                        self.slider_dragging = true;
                    }
                },
                MenuSection::Audio => {},
            }
        }
        if pointer.released {
            self.slider_dragging = false;
        }
        MenuResponse { bindings_reset: reset, drag_slider: self.slider_dragging }
    }

    /// Whether an action waits for a new key.
    pub fn is_rebinding(&self) -> (waiting: bool)
        ensures
            waiting == self.rebinding_action is Some,
    {
        self.rebinding_action.is_some()
    }
}

/// Every section is listed by `MenuSection::all` exactly once.
pub proof fn law_all_sections_lists_each_once()
    ensures
        forall|s: MenuSection| #[trigger] all_sections().contains(s),
        forall|i: int, j: int|
            0 <= i < all_sections().len() && 0 <= j < all_sections().len() && i != j
                ==> #[trigger] all_sections()[i] != #[trigger] all_sections()[j],
{
    assert forall|s: MenuSection| #[trigger] all_sections().contains(s) by {
        match s {
            MenuSection::Controls => assert(all_sections()[0] == s),
            MenuSection::Graphics => assert(all_sections()[1] == s),
            MenuSection::Audio => assert(all_sections()[2] == s),
        }
    }
}

/// Toggling the menu twice gives back its visibility and the debug
/// overlay. Closing and reopening leaves nothing rebound or dragged on the
/// controls page; opening and closing a well-formed closed menu only turns
/// it to the controls page.
pub proof fn law_toggle_menu_twice(ui: GameUI)
    requires
        ui.wf(),
    ensures
        ui.menu_toggled().menu_toggled().show_menu == ui.show_menu,
        ui.menu_toggled().menu_toggled().show_debug == ui.show_debug,
        ui.show_menu ==> ui.menu_toggled().menu_toggled() == (GameUI {
            current_section: MenuSection::Controls,
            rebinding_action: None,
            slider_dragging: false,
            ..ui
        }),
        !ui.show_menu ==> ui.menu_toggled().menu_toggled() == (GameUI {
            current_section: MenuSection::Controls,
            ..ui
        }),
{
}

/// Closing the menu ends any rebinding and any drag.
pub proof fn law_closing_menu_clears(ui: GameUI)
    requires
        ui.show_menu,
    ensures
        !ui.menu_toggled().show_menu,
        ui.menu_toggled().rebinding_action is None,
        !ui.menu_toggled().slider_dragging,
{
}

/// What a click on the open menu does, in terms of the pointer: a press
/// on a tab shows that tab's page (any tab); otherwise the page stays. A
/// press on a row of the controls page starts rebinding that row's action,
/// a press on its reset button resets the bindings. The slider is dragged
/// from a press on its handle on the graphics page, or from before, until
/// a release, and the response says so. The visibility of the menu and of
/// the debug overlay never change.
pub proof fn law_click_behaviour(ui: GameUI, p: MenuPointer, s: MenuSection, a: Action)
    requires
        ui.show_menu,
        ui.rebinding_action is None,
    ensures
        ({
            let after = ui.clicked(p);
            let response = ui.click_response(p);
            &&& after.show_menu && after.show_debug == ui.show_debug
            &&& p.pressed && p.section_hit == Some(s) ==> after.current_section == s
            &&& (!p.pressed || p.section_hit is None) ==> after.current_section == ui.current_section
            &&& p.pressed && after.current_section == MenuSection::Controls && p.action_hit == Some(a)
                ==> after.rebinding_action == Some(a)
            &&& !(p.pressed && after.current_section == MenuSection::Controls && p.action_hit is Some)
                ==> after.rebinding_action is None
            &&& response.bindings_reset == (p.pressed && after.current_section == MenuSection::Controls
                && p.reset_hit)
            &&& after.slider_dragging == (!p.released && (ui.slider_dragging || (p.pressed
                && after.current_section == MenuSection::Graphics && p.slider_handle_hit)))
            &&& response.drag_slider == after.slider_dragging
            &&& p.pressed && !p.released && p.slider_handle_hit && (p.section_hit == Some(
                MenuSection::Graphics) || (p.section_hit is None && ui.current_section
                == MenuSection::Graphics)) ==> response == (MenuResponse {
                bindings_reset: false,
                drag_slider: true,
            })
        }),
{
}

/// Opening the menu shows the controls page and keeps rebinding and drag
/// as they were; closing it ends both and keeps the page. Only the menu's
/// visibility flips; the debug overlay is untouched.
pub proof fn law_toggle_behaviour(ui: GameUI)
    ensures
        ui.menu_toggled().show_menu == !ui.show_menu,
        ui.menu_toggled().show_debug == ui.show_debug,
        !ui.show_menu ==> ui.menu_toggled().current_section == MenuSection::Controls
            && ui.menu_toggled().rebinding_action == ui.rebinding_action
            && ui.menu_toggled().slider_dragging == ui.slider_dragging,
        ui.show_menu ==> ui.menu_toggled().current_section == ui.current_section
            && ui.menu_toggled().rebinding_action is None && !ui.menu_toggled().slider_dragging,
        ui.debug_toggled().show_debug == !ui.show_debug,
        ui.debug_toggled().show_menu == ui.show_menu,
        ui.debug_toggled().rebinding_action == ui.rebinding_action,
        ui.debug_toggled().current_section == ui.current_section,
        ui.debug_toggled().slider_dragging == ui.slider_dragging,
{
}

/// A key pressed while an action waits ends the wait; no key keeps it;
/// with nothing waiting a key does nothing. Only the rebinding changes.
pub proof fn law_rebinding_update_behaviour(ui: GameUI, last_key: Option<SerdeKeyCode>)
    ensures
        ui.rebinding_action is Some && last_key is Some ==> ui.rebinding_updated(last_key) == (GameUI {
            rebinding_action: None,
            ..ui
        }),
        ui.rebinding_action is None || last_key is None ==> ui.rebinding_updated(last_key) == ui
            && ui.rebinding_commit(last_key) is None,
{
}

/// Toggling the debug overlay twice changes nothing.
pub proof fn law_toggle_debug_twice(ui: GameUI)
    ensures
        ui.debug_toggled().debug_toggled() == ui,
{
}

/// A hidden menu, or one that waits for a key, ignores the pointer.
pub proof fn law_click_ignored(ui: GameUI, p: MenuPointer)
    requires
        !ui.show_menu || ui.rebinding_action is Some,
    ensures
        ui.clicked(p) == ui,
        ui.click_response(p) == (MenuResponse { bindings_reset: false, drag_slider: false }),
{
}

/// While an action waits for a key, Escape ends the wait without binding
/// anything, and any other key becomes the key of that action.
pub proof fn law_rebinding_outcome(ui: GameUI, key: SerdeKeyCode, before: InputConfig, after: InputConfig)
    requires
        ui.rebinding_action is Some,
        key.code != KEY_ESCAPE ==> after@ == before@.insert(ui.rebinding_action->0, key),
    ensures
        ui.rebinding_updated(Some(key)).rebinding_action is None,
        key.code == KEY_ESCAPE ==> ui.rebinding_commit(Some(key)) is None,
        key.code != KEY_ESCAPE ==> ui.rebinding_commit(Some(key)) == Some((ui.rebinding_action->0, key))
            && after.key_of(ui.rebinding_action->0) == key,
{
}

} // verus!
