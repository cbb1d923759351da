use std::collections::HashMap;
use vstd::prelude::*;

verus! {

broadcast use vstd::std_specs::hash::group_hash_axioms;

/// Numeric codes of the keys the game binds by default, and of Escape,
/// which cancels a rebinding. The numbers are
/// those of the platform layer's `KeyCode` enum (X11 keysym values).
pub const KEY_SPACE: u16 = 0x0020;
pub const KEY_A: u16 = 0x0041;
pub const KEY_D: u16 = 0x0044;
pub const KEY_G: u16 = 0x0047;
pub const KEY_S: u16 = 0x0053;
pub const KEY_W: u16 = 0x0057;
pub const KEY_X: u16 = 0x0058;
pub const KEY_Y: u16 = 0x0059;
pub const KEY_ESCAPE: u16 = 0xff1b;
pub const KEY_TAB: u16 = 0xff09;
pub const KEY_LEFT_SHIFT: u16 = 0xffe1;
pub const KEY_LEFT_CONTROL: u16 = 0xffe3;

/// A game action that can be bound to a key.
#[derive(Debug, Clone, Copy, PartialEq, Eq, Hash, Structural)]
pub enum Action {
    ToggleMenu,
    ToggleGrid,
    InvertX,
    InvertY,
    MoveForward,
    MoveBackward,
    MoveLeft,
    MoveRight,
    MoveUp,
    MoveDown,
    Sprint,
    Jump,
}

/// Every action, in menu order.
pub open spec fn all_actions() -> Seq<Action> {
    seq![
        Action::ToggleMenu,
        Action::ToggleGrid,
        Action::InvertX,
        Action::InvertY,
        Action::MoveForward,
        Action::MoveBackward,
        Action::MoveLeft,
        Action::MoveRight,
        Action::MoveUp,
        Action::MoveDown,
        Action::Sprint,
        Action::Jump,
    ]
}

impl Action {
    /// The code of the key an action is bound to when nothing else is set.
    pub open spec fn default_code(self) -> u16 {
        match self {
            Action::ToggleMenu => KEY_TAB,
            Action::ToggleGrid => KEY_G,
            Action::InvertX => KEY_X,
            Action::InvertY => KEY_Y,
            Action::MoveForward => KEY_W,
            Action::MoveBackward => KEY_S,
            Action::MoveLeft => KEY_A,
            Action::MoveRight => KEY_D,
            Action::MoveUp => KEY_SPACE,
            Action::MoveDown => KEY_LEFT_CONTROL,
            Action::Sprint => KEY_LEFT_SHIFT,
            Action::Jump => KEY_SPACE,
        }
    }

    /// The label the menu shows for an action.
    pub open spec fn label(self) -> Seq<char> {
        match self {
            Action::ToggleMenu => "Toggle Menu"@,
            Action::ToggleGrid => "Toggle Grid"@,
            Action::InvertX => "Invert X Axis"@,
            Action::InvertY => "Invert Y Axis"@,
            Action::MoveForward => "Move Forward"@,
            Action::MoveBackward => "Move Backward"@,
            Action::MoveLeft => "Move Left"@,
            Action::MoveRight => "Move Right"@,
            Action::MoveUp => "Move Up"@,
            Action::MoveDown => "Move Down"@,
            Action::Sprint => "Sprint"@,
            Action::Jump => "Jump"@,
        }
    }

    /// The position of the action in `all_actions()`; bindings are stored
    /// under it.
    pub open spec fn slot_spec(self) -> u8 {
        match self {
            Action::ToggleMenu => 0,
            Action::ToggleGrid => 1,
            Action::InvertX => 2,
            Action::InvertY => 3,
            Action::MoveForward => 4,
            Action::MoveBackward => 5,
            Action::MoveLeft => 6,
            Action::MoveRight => 7,
            Action::MoveUp => 8,
            Action::MoveDown => 9,
            Action::Sprint => 10,
            Action::Jump => 11,
        }
    }

    fn slot(self) -> (s: u8)
        ensures
            s == self.slot_spec(),
    {
        match self {
            Action::ToggleMenu => 0,
            Action::ToggleGrid => 1,
            Action::InvertX => 2,
            Action::InvertY => 3,
            Action::MoveForward => 4,
            Action::MoveBackward => 5,
            Action::MoveLeft => 6,
            Action::MoveRight => 7,
            Action::MoveUp => 8,
            Action::MoveDown => 9,
            Action::Sprint => 10,
            Action::Jump => 11,
        }
    }

    /// Returns the default key of the action.
    pub fn default_key(self) -> (key: SerdeKeyCode)
        ensures
            key.code == self.default_code(),
    {
        let code: u16 = match self {
            Action::ToggleMenu => KEY_TAB,
            Action::ToggleGrid => KEY_G,
            Action::InvertX => KEY_X,
            Action::InvertY => KEY_Y,
            Action::MoveForward => KEY_W,
            Action::MoveBackward => KEY_S,
            Action::MoveLeft => KEY_A,
            Action::MoveRight => KEY_D,
            Action::MoveUp => KEY_SPACE,
            Action::MoveDown => KEY_LEFT_CONTROL,
            Action::Sprint => KEY_LEFT_SHIFT,
            Action::Jump => KEY_SPACE,
        };
        SerdeKeyCode { code }
    }

    /// Returns the human-readable name of the action for the menu.
    pub fn display_name(self) -> (name: &'static str)
        ensures
            name@ == self.label(),
    {
        match self {
            Action::ToggleMenu => "Toggle Menu",
            Action::ToggleGrid => "Toggle Grid",
            Action::InvertX => "Invert X Axis",
            Action::InvertY => "Invert Y Axis",
            Action::MoveForward => "Move Forward",
            Action::MoveBackward => "Move Backward",
            Action::MoveLeft => "Move Left",
            Action::MoveRight => "Move Right",
            Action::MoveUp => "Move Up",
            Action::MoveDown => "Move Down",
            Action::Sprint => "Sprint",
            Action::Jump => "Jump",
        }
    }

    /// Returns every action, in the order the menu lists them.
    pub fn all() -> (actions: &'static [Action])
        ensures
            actions@ == all_actions(),
    {
        &[
            Action::ToggleMenu,
            Action::ToggleGrid,
            Action::InvertX,
            Action::InvertY,
            Action::MoveForward,
            Action::MoveBackward,
            Action::MoveLeft,
            Action::MoveRight,
            Action::MoveUp,
            Action::MoveDown,
            Action::Sprint,
            Action::Jump,
        ]
    }
}

/// A key, held by the numeric code of the platform's `KeyCode`; this is
/// also the form in which bindings are stored on disk.
#[derive(Debug, Clone, Copy, PartialEq, Eq, Hash, Structural)]
pub struct SerdeKeyCode {
    pub code: u16,
}

/// The binding of every action to its default key.
pub open spec fn default_bindings() -> Map<Action, SerdeKeyCode> {
    Map::new(|a: Action| true, |a: Action| SerdeKeyCode { code: a.default_code() })
}

/// The key in effect for an action under a map of bindings: its entry,
/// or its default key when it has none.
pub open spec fn bound_key(bindings: Map<Action, SerdeKeyCode>, action: Action) -> SerdeKeyCode {
    if bindings.contains_key(action) {
        bindings[action]
    } else {
        SerdeKeyCode { code: action.default_code() }
    }
}

/// Each action stands in `all_actions()` exactly once, at its slot.
pub proof fn lemma_all_actions_slots()
    ensures
        all_actions().len() == 12,
        forall|j: int| 0 <= j < 12 ==> (#[trigger] all_actions()[j]).slot_spec() == j,
        forall|a: Action| #![trigger a.slot_spec()] a.slot_spec() < 12 && all_actions()[a.slot_spec() as int] == a,
{
}

/// The key bindings of the game: a partial map from actions to keys. An
/// action without an entry falls back to its default key.
#[derive(Debug)]
pub struct InputConfig {
    bindings: HashMap<u8, SerdeKeyCode>,
}

impl View for InputConfig {
    type V = Map<Action, SerdeKeyCode>;

    closed spec fn view(&self) -> Map<Action, SerdeKeyCode> {
        Map::new(
            |a: Action| self.bindings@.contains_key(a.slot_spec()),
            |a: Action| self.bindings@[a.slot_spec()],
        )
    }
}

impl InputConfig {
    /// The key in effect for an action: its entry, or its default key.
    pub open spec fn key_of(self, action: Action) -> SerdeKeyCode {
        bound_key(self@, action)
    }

    /// Binds every action to its default key, keeping nothing else
    /// visible.
    fn fill_defaults(bindings: &mut HashMap<u8, SerdeKeyCode>)
        ensures
            forall|a: Action| #![trigger a.slot_spec()]
                final(bindings)@.contains_key(a.slot_spec())
                && final(bindings)@[a.slot_spec()] == (SerdeKeyCode { code: a.default_code() }),
    {
        let actions = Action::all();
        proof { lemma_all_actions_slots(); }
        let mut i: usize = 0;
        while i < actions.len()
            invariant
                actions@ == all_actions(),
                0 <= i <= actions.len(),
                actions.len() == 12,
                forall|a: Action| #![trigger a.slot_spec()]
                    a.slot_spec() < i ==> bindings@.contains_key(a.slot_spec())
                    && bindings@[a.slot_spec()] == (SerdeKeyCode { code: a.default_code() }),
            decreases actions.len() - i,
        {
            let action = actions[i];
            proof { lemma_all_actions_slots(); }
            bindings.insert(action.slot(), action.default_key());
            i = i + 1;
        }
    }

    /// A configuration with no entries: every action uses its default key.
    pub fn empty() -> (config: Self)
        ensures
            config@ == Map::<Action, SerdeKeyCode>::empty(),
    {
        let config = InputConfig { bindings: HashMap::new() };
        assert(config@ =~= Map::<Action, SerdeKeyCode>::empty());
        config
    }

    /// Returns the key assigned to the action, or its default key when the
    /// configuration has no entry for it.
    pub fn get_key(&self, action: Action) -> (key: SerdeKeyCode)
        ensures
            key == self.key_of(action),
    {
        match self.bindings.get(&action.slot()) {
            Some(k) => *k,
            None => action.default_key(),
        }
    }

    /// Returns the entry of the action, if the configuration has one.
    pub fn binding(&self, action: Action) -> (entry: Option<SerdeKeyCode>)
        ensures
            entry == (if self@.contains_key(action) { Some(self@[action]) } else { None }),
    {
        match self.bindings.get(&action.slot()) {
            Some(k) => Some(*k),
            None => None,
        }
    }

    /// Assigns a key to the action; the other entries stay as they are.
    pub fn set_key(&mut self, action: Action, key: SerdeKeyCode)
        ensures
            final(self)@ == old(self)@.insert(action, key),
    {
        let ghost before = self@;
        self.bindings.insert(action.slot(), key);
        proof {
            lemma_all_actions_slots();
            assert(self@ =~= before.insert(action, key));
        }
    }

    /// Drops every entry and binds every action to its default key.
    pub fn reset_to_defaults(&mut self)
        ensures
            final(self)@ == default_bindings(),
    {
        self.bindings.clear();
        Self::fill_defaults(&mut self.bindings);
        proof { lemma_all_actions_slots(); }
        assert(self@ =~= default_bindings());
    }

    /// Whether the key of the action is among the keys held down.
    pub fn is_action_pressed(&self, action: Action, keys_down: &[SerdeKeyCode]) -> (pressed: bool)
        ensures
            pressed == keys_down@.contains(self.key_of(action)),
    {
        let key = self.get_key(action);
        key_in(key, keys_down)
    }

    /// Whether the key of the action is among the keys pressed this frame.
    pub fn is_action_just_pressed(&self, action: Action, keys_pressed: &[SerdeKeyCode]) -> (pressed: bool)
        ensures
            pressed == keys_pressed@.contains(self.key_of(action)),
    {
        let key = self.get_key(action);
        key_in(key, keys_pressed)
    }
}

impl Clone for InputConfig {
    /// A copy with the same entries.
    fn clone(&self) -> (copy: Self)
        ensures
            copy@ == self@,
    {
        InputConfig { bindings: self.bindings.clone() }
    }
}

impl Default for InputConfig {
    /// Binds every action to its default key.
    fn default() -> (config: Self)
        ensures
            config@ == default_bindings(),
    {
        let mut bindings = HashMap::new();
        Self::fill_defaults(&mut bindings);
        let config = InputConfig { bindings };
        proof { lemma_all_actions_slots(); }
        assert(config@ =~= default_bindings());
        config
    }
}

/// Every action is listed by `Action::all` exactly once.
pub proof fn law_all_actions_lists_each_once()
    ensures
        forall|a: Action| #[trigger] all_actions().contains(a),
        forall|i: int, j: int|
            0 <= i < all_actions().len() && 0 <= j < all_actions().len() && i != j
                ==> #[trigger] all_actions()[i] != #[trigger] all_actions()[j],
{
    lemma_all_actions_slots();
    assert forall|a: Action| #[trigger] all_actions().contains(a) by {
        assert(all_actions()[a.slot_spec() as int] == a);
    }
}

/// Distinct actions have distinct default keys and distinct labels, save
/// that moving up and jumping share the space bar by default.
pub proof fn law_defaults_distinct(a: Action, b: Action)
    requires
        a != b,
    ensures
        a.default_code() != b.default_code() <==> !((a == Action::MoveUp && b == Action::Jump) || (a
            == Action::Jump && b == Action::MoveUp)),
        a.label() != b.label(),
{
    reveal_strlit("Toggle Menu");
    reveal_strlit("Toggle Grid");
    reveal_strlit("Invert X Axis");
    reveal_strlit("Invert Y Axis");
    reveal_strlit("Move Forward");
    reveal_strlit("Move Backward");
    reveal_strlit("Move Left");
    reveal_strlit("Move Right");
    reveal_strlit("Move Up");
    reveal_strlit("Move Down");
    reveal_strlit("Sprint");
    reveal_strlit("Jump");
    assert(a.label().len() != b.label().len() || a.label()[5] != b.label()[5] || a.label()[7]
        != b.label()[7]);
}

/// Setting a key is read back by `get_key`, and leaves the key of every
/// other action as it was.
pub proof fn law_get_after_set(
    before: InputConfig,
    after: InputConfig,
    action: Action,
    other: Action,
    key: SerdeKeyCode,
)
    requires
        after@ == before@.insert(action, key),
    ensures
        after.key_of(action) == key,
        other != action ==> after.key_of(other) == before.key_of(other),
{
}

/// Under the default bindings, and under no bindings at all, every action
/// has its default key: a missing entry means the default key.
pub proof fn law_defaults_everywhere(config: InputConfig, action: Action)
    requires
        config@ == default_bindings() || config@ == Map::<Action, SerdeKeyCode>::empty(),
    ensures
        config.key_of(action).code == action.default_code(),
{
}

/// Whether `key` occurs in `keys`.
fn key_in(key: SerdeKeyCode, keys: &[SerdeKeyCode]) -> (found: bool)
    ensures
        found == keys@.contains(key),
{
    let mut i: usize = 0;
    while i < keys.len()
        invariant
            0 <= i <= keys.len(),
            forall|j: int| 0 <= j < i ==> keys@[j] != key,
        decreases keys.len() - i,
    {
        if keys[i].code == key.code {
            assert(keys@[i as int] == key);
            return true;
        }
        i = i + 1;
    }
    false
}

} // verus!
