//! Abstract input actions, the fixed key bindings, and the per-key
//! falling-edge detector that the keyboard-polling thread evaluates.
//!
//! The polling thread itself (raw key states, the channel that carries
//! actions to the frame loop) is an outside collaborator; this module holds
//! the decisions it makes: which key maps to which action, which key counts
//! as freshly pressed, and which single action a scan of the keys produces.
use vstd::prelude::*;

verus! {

/// One abstract input action per frame, from a closed set. `NoInput` means
/// no new input arrived this frame, which is the common case and not an
/// error.
#[derive(Clone, Copy, PartialEq, Eq, Structural, Debug)]
pub enum GameAction {
    Up,
    Down,
    Mute,
    PauseResume,
    Quit,
    NoInput,
}

/// The physical keys the game is bound to. The surrounding binary translates
/// its windowing library's key codes into these before calling the core.
#[derive(Clone, Copy, PartialEq, Eq, Structural, Debug)]
pub enum GameKey {
    Z,
    S,
    Space,
    Escape,
    M,
}

/// The fixed key bindings: which action each key triggers.
pub open spec fn spec_action_of_key(key: GameKey) -> GameAction {
    match key {
        GameKey::Z => GameAction::Up,
        GameKey::S => GameAction::Down,
        GameKey::Space => GameAction::PauseResume,
        GameKey::Escape => GameAction::Quit,
        GameKey::M => GameAction::Mute,
    }
}

/// The key bound to each action, where one is: `Mute` and the four movement
/// and flow actions each have a key, `NoInput` has none.
pub open spec fn spec_key_of_action(action: GameAction) -> Option<GameKey> {
    match action {
        GameAction::Up => Some(GameKey::Z),
        GameAction::Down => Some(GameKey::S),
        GameAction::PauseResume => Some(GameKey::Space),
        GameAction::Quit => Some(GameKey::Escape),
        GameAction::Mute => Some(GameKey::M),
        GameAction::NoInput => None,
    }
}

/// Looks up the action a key is bound to.
pub fn get_game_action_from_key_code(key_code: GameKey) -> (r: Option<GameAction>)
    ensures
        r == Some(spec_action_of_key(key_code)),
{
    match key_code {
        GameKey::Z => Some(GameAction::Up),
        GameKey::S => Some(GameAction::Down),
        GameKey::Space => Some(GameAction::PauseResume),
        GameKey::Escape => Some(GameAction::Quit),
        GameKey::M => Some(GameAction::Mute),
    }
}

/// Looks up the key an action is bound to.
pub fn get_key_code_from_game_action(game_action: GameAction) -> (r: Option<GameKey>)
    ensures
        r == spec_key_of_action(game_action),
{
    match game_action {
        GameAction::Up => Some(GameKey::Z),
        GameAction::Down => Some(GameKey::S),
        GameAction::PauseResume => Some(GameKey::Space),
        GameAction::Quit => Some(GameKey::Escape),
        GameAction::Mute => Some(GameKey::M),
        GameAction::NoInput => None,
    }
}

/// The label of each key, as shown on the key-binding screen.
pub open spec fn spec_key_label(key: GameKey) -> Seq<char> {
    match key {
        GameKey::Z => "Z"@,
        GameKey::S => "S"@,
        GameKey::Space => "Space"@,
        GameKey::Escape => "Escape"@,
        GameKey::M => "M"@,
    }
}

/// Renders a key's label.
pub fn get_str_from_key_code(key_code: GameKey) -> (r: String)
    ensures
        r@ == spec_key_label(key_code),
{
    match key_code {
        GameKey::Z => "Z".to_string(),
        GameKey::S => "S".to_string(),
        GameKey::Space => "Space".to_string(),
        GameKey::Escape => "Escape".to_string(),
        GameKey::M => "M".to_string(),
    }
}

/// The caption that precedes each action's key on the key-binding screen;
/// `NoInput` has no caption.
pub open spec fn spec_action_description(action: GameAction) -> Option<Seq<char>> {
    match action {
        GameAction::Up => Some("Go Up: "@),
        GameAction::Down => Some("Go Down: "@),
        GameAction::Mute => Some("Mute: "@),
        GameAction::PauseResume => Some("Pause and resume: "@),
        GameAction::Quit => Some("Quit: "@),
        GameAction::NoInput => None,
    }
}

/// Renders the caption of an action, or `None` for the empty action.
pub fn get_action_description_from_game_action(game_action: GameAction) -> (r: Option<String>)
    ensures
        r is Some <==> game_action != GameAction::NoInput,
        r matches Some(s) ==> Some(s@) == spec_action_description(game_action),
{
    match game_action {
        GameAction::Up => Some("Go Up: ".to_string()),
        GameAction::Down => Some("Go Down: ".to_string()),
        GameAction::Mute => Some("Mute: ".to_string()),
        GameAction::PauseResume => Some("Pause and resume: ".to_string()),
        GameAction::Quit => Some("Quit: ".to_string()),
        GameAction::NoInput => None,
    }
}

/// Falling-edge detector for one key: `pressed` is true on exactly the scan
/// where the key went from up to down.
#[derive(Clone, Copy, PartialEq, Eq, Structural, Debug)]
pub struct KeyGame {
    pub key: GameKey,
    pub pressed: bool,
    pub down: bool,
}

impl KeyGame {
    /// A detector for `key`, with the key initially up.
    pub fn new(key: GameKey) -> (r: KeyGame)
        ensures
            r == (KeyGame { key, pressed: false, down: false }),
    {
        KeyGame { key, pressed: false, down: false }
    }

    /// Feeds one scan of the key's raw state into the detector.
    pub fn update(&mut self, is_down: bool)
        ensures
            *final(self) == (KeyGame {
                key: old(self).key,
                pressed: is_down && !old(self).down,
                down: is_down,
            }),
    {
        self.pressed = is_down && !self.down;
        self.down = is_down;
    }

    /// Whether the key was freshly pressed on the last scan.
    pub fn is_key_pressed(&self) -> (r: bool)
        ensures
            r == self.pressed,
    {
        self.pressed
    }
}

/// One detector per bound key, in the fixed binding order.
pub fn new_key_games() -> (r: Vec<KeyGame>)
    ensures
        r@ =~= seq![
            KeyGame { key: GameKey::Z, pressed: false, down: false },
            KeyGame { key: GameKey::S, pressed: false, down: false },
            KeyGame { key: GameKey::Space, pressed: false, down: false },
            KeyGame { key: GameKey::Escape, pressed: false, down: false },
            KeyGame { key: GameKey::M, pressed: false, down: false },
        ],
{
    let mut keys_games: Vec<KeyGame> = Vec::new();
    keys_games.push(KeyGame::new(GameKey::Z));
    keys_games.push(KeyGame::new(GameKey::S));
    keys_games.push(KeyGame::new(GameKey::Space));
    keys_games.push(KeyGame::new(GameKey::Escape));
    keys_games.push(KeyGame::new(GameKey::M));
    keys_games
}

/// The action produced by one scan of the detectors: the action bound to the
/// first freshly pressed key, or `NoInput` if no key was freshly pressed.
pub open spec fn spec_observed_action(keys: Seq<KeyGame>) -> GameAction
    decreases keys.len(),
{
    if keys.len() == 0 {
        GameAction::NoInput
    } else if keys[0].pressed {
        spec_action_of_key(keys[0].key)
    } else {
        spec_observed_action(keys.drop_first())
    }
}

/// Scans the detectors and picks the single action to hand to the frame
/// loop: the one bound to the first freshly pressed key.
pub fn observer(keys_games: &Vec<KeyGame>) -> (r: Option<GameAction>)
    ensures
        match r {
            Some(action) => action == spec_observed_action(keys_games@),
            None => spec_observed_action(keys_games@) == GameAction::NoInput,
        },
{
    let mut i: usize = 0;
    assert(keys_games@.skip(0) =~= keys_games@);
    while i < keys_games.len()
        invariant
            i <= keys_games@.len(),
            spec_observed_action(keys_games@) == spec_observed_action(keys_games@.skip(i as int)),
            forall|j: int| 0 <= j < i ==> !keys_games@[j].pressed,
        decreases keys_games@.len() - i,
    {
        assert(keys_games@.skip(i as int).drop_first() =~= keys_games@.skip(i as int + 1));
        if keys_games[i].is_key_pressed() {
            return get_game_action_from_key_code(keys_games[i].key);
        }
        i = i + 1;
    }
    None
}

} // verus!
