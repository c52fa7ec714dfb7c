use gomoku::console::ConfigError;
use gomoku::console::Player;

#[test]
fn from_str_recognizes_ia() {
    assert_eq!(Player::from_str("ia"), Ok(Player::Ia));
}

#[test]
fn from_str_recognizes_human() {
    assert_eq!(Player::from_str("human"), Ok(Player::Human));
}

#[test]
fn from_str_rejects_robot() {
    // An unrecognized control-mode token is a fatal configuration error:
    // no session can be built from it.
    assert_eq!(Player::from_str("robot"), Err(ConfigError::UnknownControlToken));
}

#[test]
fn from_str_rejects_empty() {
    assert!(Player::from_str("").is_err());
}

#[test]
fn from_str_is_case_sensitive() {
    assert!(Player::from_str("Ia").is_err());
    assert!(Player::from_str("HUMAN").is_err());
    assert!(Player::from_str("solo").is_err());
}
