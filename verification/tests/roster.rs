use undercover::player::{GameError, Player, Role};

#[test]
fn role_labels() {
    assert_eq!(Role::Citizen.to_string(), "CIVIL");
    assert_eq!(Role::Undercover.to_string(), "UNDERCOVER");
    assert_eq!(Role::White.to_string(), "MR. WHITE");
}

#[test]
fn new_player_starts_alive() {
    let p = Player::new("Alice".to_string(), Role::Citizen).unwrap();
    assert_eq!(p.name().as_str(), "Alice");
    assert_eq!(p.role(), Role::Citizen);
    assert!(p.alive());
}

#[test]
fn empty_name_is_rejected() {
    assert!(matches!(
        Player::new(String::new(), Role::Citizen),
        Err(GameError::InvalidName)
    ));
}

#[test]
fn over_long_name_is_rejected() {
    let long = "x".repeat(31);
    assert!(matches!(
        Player::new(long, Role::Citizen),
        Err(GameError::InvalidName)
    ));
}

#[test]
fn thirty_byte_name_is_accepted() {
    let edge = "y".repeat(30);
    let p = Player::new(edge.clone(), Role::Undercover).unwrap();
    assert_eq!(p.name(), &edge);
}

#[test]
fn name_length_counts_bytes_not_chars() {
    // Sixteen two-byte characters exceed the 30-byte cap.
    let wide = "é".repeat(16);
    assert_eq!(wide.chars().count(), 16);
    assert!(matches!(
        Player::new(wide, Role::Citizen),
        Err(GameError::InvalidName)
    ));
    let narrow = "é".repeat(15);
    assert!(Player::new(narrow, Role::Citizen).is_ok());
}

#[test]
fn rejected_rename_keeps_the_old_name() {
    let mut p = Player::new("Bob".to_string(), Role::White).unwrap();
    assert!(matches!(
        p.set_name(String::new()),
        Err(GameError::InvalidName)
    ));
    assert_eq!(p.name().as_str(), "Bob");
    assert!(p.set_name("Robert".to_string()).is_ok());
    assert_eq!(p.name().as_str(), "Robert");
}

#[test]
fn role_and_alive_flags_mutate_independently() {
    let mut p = Player::new("Eve".to_string(), Role::Citizen).unwrap();
    p.set_role(Role::Undercover);
    assert_eq!(p.role(), Role::Undercover);
    assert_eq!(p.name().as_str(), "Eve");
    assert!(p.alive());
    p.set_alive(false);
    assert!(!p.alive());
    assert_eq!(p.role(), Role::Undercover);
}
