//! Gameplay actions and what the player does with them on one tick.
use vstd::prelude::*;

verus! {

/// The actions that the keyboard drives.
#[derive(Clone, Copy, Debug, PartialEq, Eq, Structural)]
pub enum GameAction {
    Jump,
    Left,
    Right,
    Up,
    Down,
    Object,
}

/// The state of one action on one tick.
#[derive(Clone, Copy, Debug, PartialEq, Eq, Structural)]
pub struct ActionState {
    /// Some key bound to the action is held.
    pub held: bool,
    /// Some key bound to the action went down this tick.
    pub just_pressed: bool,
    /// Some key bound to the action went up this tick.
    pub just_released: bool,
}

impl ActionState {
    /// No key bound to the action is involved.
    pub open spec fn is_idle(self) -> bool {
        !self.held && !self.just_pressed && !self.just_released
    }

    pub fn idle() -> (r: ActionState)
        ensures
            r.is_idle(),
    {
        ActionState { held: false, just_pressed: false, just_released: false }
    }
}

/// The state of every action on one tick.
#[derive(Clone, Copy, Debug, PartialEq, Eq, Structural)]
pub struct PlayerInput {
    pub jump: ActionState,
    pub left: ActionState,
    pub right: ActionState,
    pub up: ActionState,
    pub down: ActionState,
    pub object: ActionState,
}

impl PlayerInput {
    /// Nothing is pressed, held or released.
    pub open spec fn is_idle(self) -> bool {
        self.jump.is_idle() && self.left.is_idle() && self.right.is_idle() && self.up.is_idle()
            && self.down.is_idle() && self.object.is_idle()
    }

    pub fn idle() -> (r: PlayerInput)
        ensures
            r.is_idle(),
    {
        PlayerInput {
            jump: ActionState::idle(),
            left: ActionState::idle(),
            right: ActionState::idle(),
            up: ActionState::idle(),
            down: ActionState::idle(),
            object: ActionState::idle(),
        }
    }

    /// The state of `action` on this tick.
    pub open spec fn state_of(self, action: GameAction) -> ActionState {
        match action {
            GameAction::Jump => self.jump,
            GameAction::Left => self.left,
            GameAction::Right => self.right,
            GameAction::Up => self.up,
            GameAction::Down => self.down,
            GameAction::Object => self.object,
        }
    }
}

/// A keyboard key.
#[derive(Clone, Copy, Debug, PartialEq, Eq, Structural)]
pub enum Key {
    ArrowUp,
    ArrowDown,
    ArrowLeft,
    ArrowRight,
    Space,
    KeyZ,
    KeyS,
    KeyQ,
    KeyD,
    KeyE,
    /// Any other key, by a code of the caller's choice.
    Other(u32),
}

/// The keys involved on one tick.
pub struct KeyboardState {
    /// Keys held down.
    pub pressed: Vec<Key>,
    /// Keys that went down this tick.
    pub just_pressed: Vec<Key>,
    /// Keys that went up this tick.
    pub just_released: Vec<Key>,
}

/// Whether some key of `bound` is in `keys`.
pub open spec fn any_of(bound: Seq<Key>, keys: Seq<Key>) -> bool {
    exists|i: int| 0 <= i < bound.len() && keys.contains(#[trigger] bound[i])
}

fn contains_key(keys: &Vec<Key>, k: Key) -> (r: bool)
    ensures
        r == keys@.contains(k),
{
    let mut i: usize = 0;
    while i < keys.len()
        invariant
            0 <= i <= keys@.len(),
            forall|j: int| 0 <= j < i ==> keys@[j] != k,
        decreases keys@.len() - i,
    {
        if keys[i] == k {
            return true;
        }
        i = i + 1;
    }
    false
}

fn any_key(bound: &Vec<Key>, keys: &Vec<Key>) -> (r: bool)
    ensures
        r == any_of(bound@, keys@),
{
    let mut i: usize = 0;
    while i < bound.len()
        invariant
            0 <= i <= bound@.len(),
            forall|j: int| 0 <= j < i ==> !keys@.contains(#[trigger] bound@[j]),
        decreases bound@.len() - i,
    {
        if contains_key(keys, bound[i]) {
            return true;
        }
        i = i + 1;
    }
    false
}

/// Which keys drive each action.
pub struct ActionMap {
    jump: Vec<Key>,
    left: Vec<Key>,
    right: Vec<Key>,
    up: Vec<Key>,
    down: Vec<Key>,
    object: Vec<Key>,
}

impl ActionMap {
    /// The keys bound to `action`.
    pub closed spec fn keys_of(self, action: GameAction) -> Seq<Key> {
        match action {
            GameAction::Jump => self.jump@,
            GameAction::Left => self.left@,
            GameAction::Right => self.right@,
            GameAction::Up => self.up@,
            GameAction::Down => self.down@,
            GameAction::Object => self.object@,
        }
    }

    /// A map binding each action to the keys given for it.
    pub fn new(
        jump: Vec<Key>,
        left: Vec<Key>,
        right: Vec<Key>,
        up: Vec<Key>,
        down: Vec<Key>,
        object: Vec<Key>,
    ) -> (r: ActionMap)
        ensures
            r.keys_of(GameAction::Jump) == jump@,
            r.keys_of(GameAction::Left) == left@,
            r.keys_of(GameAction::Right) == right@,
            r.keys_of(GameAction::Up) == up@,
            r.keys_of(GameAction::Down) == down@,
            r.keys_of(GameAction::Object) == object@,
    {
        ActionMap { jump, left, right, up, down, object }
    }

    fn bound(&self, action: GameAction) -> (r: &Vec<Key>)
        ensures
            r@ == self.keys_of(action),
    {
        match action {
            GameAction::Jump => &self.jump,
            GameAction::Left => &self.left,
            GameAction::Right => &self.right,
            GameAction::Up => &self.up,
            GameAction::Down => &self.down,
            GameAction::Object => &self.object,
        }
    }

    /// Whether a key bound to `action` is held.
    pub fn pressed(&self, action: GameAction, inputs: &KeyboardState) -> (r: bool)
        ensures
            r == any_of(self.keys_of(action), inputs.pressed@),
    {
        any_key(self.bound(action), &inputs.pressed)
    }

    /// Whether a key bound to `action` went down this tick.
    pub fn just_pressed(&self, action: GameAction, inputs: &KeyboardState) -> (r: bool)
        ensures
            r == any_of(self.keys_of(action), inputs.just_pressed@),
    {
        any_key(self.bound(action), &inputs.just_pressed)
    }

    /// Whether a key bound to `action` went up this tick.
    pub fn just_released(&self, action: GameAction, inputs: &KeyboardState) -> (r: bool)
        ensures
            r == any_of(self.keys_of(action), inputs.just_released@),
    {
        any_key(self.bound(action), &inputs.just_released)
    }

    /// The state of `action` on this tick.
    pub fn state(&self, action: GameAction, inputs: &KeyboardState) -> (r: ActionState)
        ensures
            r.held == any_of(self.keys_of(action), inputs.pressed@),
            r.just_pressed == any_of(self.keys_of(action), inputs.just_pressed@),
            r.just_released == any_of(self.keys_of(action), inputs.just_released@),
    {
        ActionState {
            held: self.pressed(action, inputs),
            just_pressed: self.just_pressed(action, inputs),
            just_released: self.just_released(action, inputs),
        }
    }

    /// The state of every action on this tick.
    pub fn resolve(&self, inputs: &KeyboardState) -> (r: PlayerInput)
        ensures
            forall|a: GameAction|
                #![trigger r.state_of(a)]
                {
                    &&& r.state_of(a).held == any_of(self.keys_of(a), inputs.pressed@)
                    &&& r.state_of(a).just_pressed == any_of(self.keys_of(a), inputs.just_pressed@)
                    &&& r.state_of(a).just_released == any_of(self.keys_of(a), inputs.just_released@)
                },
    {
        PlayerInput {
            jump: self.state(GameAction::Jump, inputs),
            left: self.state(GameAction::Left, inputs),
            right: self.state(GameAction::Right, inputs),
            up: self.state(GameAction::Up, inputs),
            down: self.state(GameAction::Down, inputs),
            object: self.state(GameAction::Object, inputs),
        }
    }
}

impl Default for ActionMap {
    /// The standard bindings: arrows or Z, Q, S, D to move, Space to jump, E
    /// for the object.
    fn default() -> (r: ActionMap)
        ensures
            r.keys_of(GameAction::Up) == seq![Key::ArrowUp, Key::KeyZ],
            r.keys_of(GameAction::Down) == seq![Key::ArrowDown, Key::KeyS],
            r.keys_of(GameAction::Left) == seq![Key::ArrowLeft, Key::KeyQ],
            r.keys_of(GameAction::Right) == seq![Key::ArrowRight, Key::KeyD],
            r.keys_of(GameAction::Jump) == seq![Key::Space],
            r.keys_of(GameAction::Object) == seq![Key::KeyE],
    {
        let r = ActionMap {
            jump: vec![Key::Space],
            left: vec![Key::ArrowLeft, Key::KeyQ],
            right: vec![Key::ArrowRight, Key::KeyD],
            up: vec![Key::ArrowUp, Key::KeyZ],
            down: vec![Key::ArrowDown, Key::KeyS],
            object: vec![Key::KeyE],
        };
        assert(r.jump@ =~= seq![Key::Space]);
        assert(r.left@ =~= seq![Key::ArrowLeft, Key::KeyQ]);
        assert(r.right@ =~= seq![Key::ArrowRight, Key::KeyD]);
        assert(r.up@ =~= seq![Key::ArrowUp, Key::KeyZ]);
        assert(r.down@ =~= seq![Key::ArrowDown, Key::KeyS]);
        assert(r.object@ =~= seq![Key::KeyE]);
        r
    }
}

} // verus!
