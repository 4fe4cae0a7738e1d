use rusty_corks::keyboard::{get_action_description_from_game_action,
    get_game_action_from_key_code, get_key_code_from_game_action, get_str_from_key_code,
    new_key_games, observer, GameAction, GameKey, KeyGame};

#[test]
fn key_bindings_both_ways() {
    assert_eq!(get_game_action_from_key_code(GameKey::Z), Some(GameAction::Up));
    assert_eq!(get_game_action_from_key_code(GameKey::S), Some(GameAction::Down));
    assert_eq!(get_game_action_from_key_code(GameKey::Space), Some(GameAction::PauseResume));
    assert_eq!(get_game_action_from_key_code(GameKey::Escape), Some(GameAction::Quit));
    assert_eq!(get_game_action_from_key_code(GameKey::M), Some(GameAction::Mute));

    assert_eq!(get_key_code_from_game_action(GameAction::Up), Some(GameKey::Z));
    assert_eq!(get_key_code_from_game_action(GameAction::Down), Some(GameKey::S));
    assert_eq!(get_key_code_from_game_action(GameAction::PauseResume), Some(GameKey::Space));
    assert_eq!(get_key_code_from_game_action(GameAction::Quit), Some(GameKey::Escape));
    assert_eq!(get_key_code_from_game_action(GameAction::Mute), Some(GameKey::M));
    assert_eq!(get_key_code_from_game_action(GameAction::NoInput), None);
}

#[test]
fn key_labels() {
    assert_eq!(get_str_from_key_code(GameKey::Z), "Z");
    assert_eq!(get_str_from_key_code(GameKey::S), "S");
    assert_eq!(get_str_from_key_code(GameKey::Space), "Space");
    assert_eq!(get_str_from_key_code(GameKey::Escape), "Escape");
    assert_eq!(get_str_from_key_code(GameKey::M), "M");
}

#[test]
fn action_descriptions() {
    assert_eq!(
        get_action_description_from_game_action(GameAction::Up),
        Some("Go Up: ".to_string())
    );
    assert_eq!(
        get_action_description_from_game_action(GameAction::Down),
        Some("Go Down: ".to_string())
    );
    assert_eq!(
        get_action_description_from_game_action(GameAction::Mute),
        Some("Mute: ".to_string())
    );
    assert_eq!(
        get_action_description_from_game_action(GameAction::PauseResume),
        Some("Pause and resume: ".to_string())
    );
    assert_eq!(
        get_action_description_from_game_action(GameAction::Quit),
        Some("Quit: ".to_string())
    );
    assert_eq!(get_action_description_from_game_action(GameAction::NoInput), None);
}

#[test]
fn key_press_is_a_falling_edge() {
    let mut key = KeyGame::new(GameKey::Space);
    assert!(!key.is_key_pressed());
    // Held down: pressed only on the first scan.
    key.update(true);
    assert!(key.is_key_pressed());
    key.update(true);
    assert!(!key.is_key_pressed());
    // Released, then pressed again.
    key.update(false);
    assert!(!key.is_key_pressed());
    key.update(true);
    assert!(key.is_key_pressed());
}

#[test]
fn observer_reports_first_freshly_pressed_key() {
    let mut keys = new_key_games();
    assert_eq!(keys.len(), 5);
    assert_eq!(observer(&keys), None);

    // S (Down) and M (Mute) go down in the same scan: the first in binding
    // order wins.
    keys[1].update(true);
    keys[4].update(true);
    assert_eq!(observer(&keys), Some(GameAction::Down));

    // Next scan, both still held: no fresh press, no action.
    keys[1].update(true);
    keys[4].update(true);
    assert_eq!(observer(&keys), None);
}
