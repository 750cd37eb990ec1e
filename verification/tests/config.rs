use undercover::game::{GameMessage, GameState};
use undercover::menu::{Menu, MenuMessage};
use undercover::player::Role;
use undercover::session::{AppMessage, AppState, Application};

fn names(n: usize) -> Vec<String> {
    let mut v: Vec<String> = Vec::new();
    for i in 0..n {
        v.push(format!("Player{}", i + 1));
    }
    v
}

fn fresh_menu() -> Menu {
    Menu::new(names(4))
}

#[test]
fn new_menu_defaults() {
    let m = fresh_menu();
    assert_eq!(m.citizen(), 3);
    assert_eq!(m.undercover(), 1);
    assert!(!m.white());
    assert_eq!(m.names(), &names(4));
}

#[test]
fn undercover_quota_moves_a_citizen_seat() {
    let mut m = fresh_menu();
    m.update(MenuMessage::IncrementUndercover);
    assert_eq!(m.citizen(), 2);
    assert_eq!(m.undercover(), 2);
    m.update(MenuMessage::DecrementUndercover);
    assert_eq!(m.citizen(), 3);
    assert_eq!(m.undercover(), 1);
}

#[test]
fn undercover_quota_respects_its_bounds() {
    let mut m = Menu::new(names(3));
    // Two citizens only: no seat is free for another undercover.
    m.update(MenuMessage::IncrementUndercover);
    assert_eq!(m.citizen(), 2);
    assert_eq!(m.undercover(), 1);
    // The last undercover seat cannot be removed.
    m.update(MenuMessage::DecrementUndercover);
    assert_eq!(m.undercover(), 1);
    assert_eq!(m.citizen(), 2);
}

#[test]
fn white_seat_toggles_against_a_citizen_seat() {
    let mut m = fresh_menu();
    m.update(MenuMessage::EnableWhite(true));
    assert!(m.white());
    assert_eq!(m.citizen(), 2);
    // Enabling twice changes nothing.
    m.update(MenuMessage::EnableWhite(true));
    assert!(m.white());
    assert_eq!(m.citizen(), 2);
    m.update(MenuMessage::EnableWhite(false));
    assert!(!m.white());
    assert_eq!(m.citizen(), 3);
    // Disabling an absent White seat changes nothing.
    m.update(MenuMessage::EnableWhite(false));
    assert!(!m.white());
    assert_eq!(m.citizen(), 3);
}

#[test]
fn white_needs_a_spare_citizen_seat() {
    let mut m = Menu::new(names(3));
    m.update(MenuMessage::EnableWhite(true));
    assert!(!m.white());
    assert_eq!(m.citizen(), 2);
}

#[test]
fn added_player_becomes_a_citizen() {
    let mut m = fresh_menu();
    m.update(MenuMessage::AddName);
    assert_eq!(m.citizen(), 4);
    assert_eq!(m.names().len(), 5);
    assert_eq!(m.names()[4], "New Player");
    assert_eq!(m.index, 4);
}

#[test]
fn removing_a_player_frees_a_citizen_seat_first() {
    let mut m = fresh_menu();
    m.update(MenuMessage::RemoveName(0));
    assert_eq!(m.names().len(), 3);
    assert_eq!(m.citizen(), 2);
    assert_eq!(m.undercover(), 1);
    assert_eq!(m.names()[0], "Player2");
    // A three-name roster cannot shrink further.
    m.update(MenuMessage::RemoveName(0));
    assert_eq!(m.names().len(), 3);
}

#[test]
fn removing_a_player_can_free_an_undercover_seat() {
    let mut m = Menu::new(names(5));
    m.update(MenuMessage::IncrementUndercover);
    m.update(MenuMessage::IncrementUndercover);
    assert_eq!(m.citizen(), 2);
    assert_eq!(m.undercover(), 3);
    m.update(MenuMessage::RemoveName(4));
    assert_eq!(m.citizen(), 1);
    assert_eq!(m.undercover(), 3);
    m.update(MenuMessage::RemoveName(3));
    assert_eq!(m.citizen(), 1);
    assert_eq!(m.undercover(), 2);
    assert_eq!(m.names().len(), 3);
}

#[test]
fn name_edits_target_the_selected_entry() {
    let mut m = fresh_menu();
    m.update(MenuMessage::EditIndex(2));
    m.update(MenuMessage::EditName("Zoe".to_string()));
    assert_eq!(m.names()[2], "Zoe");
    m.update(MenuMessage::EditIndex(99));
    m.update(MenuMessage::EditName("Lost".to_string()));
    assert!(!m.names().iter().any(|n| n == "Lost"));
}

#[test]
fn menu_done_starts_a_matching_game() {
    let mut app = seed_app();
    app.update(AppMessage::InteractMenu(MenuMessage::EnableWhite(true)));
    app.update(AppMessage::InteractMenu(MenuMessage::Done));
    assert_eq!(app.state, AppState::StateGame);
    assert_eq!(app.game.players.len(), 4);
    let whites = app
        .game
        .players
        .iter()
        .filter(|p| p.role == Role::White)
        .count();
    assert_eq!(whites, 1);
    assert_eq!(app.game.players_names(), names(4));
}

fn seed_app() -> Application {
    let menu = Menu::new(names(4));
    let game = undercover::game::Game::new(names(3), 2, 1, false).unwrap();
    Application::new(menu, game)
}

#[test]
fn bad_menu_name_keeps_the_session_on_the_menu() {
    let mut app = seed_app();
    app.update(AppMessage::InteractMenu(MenuMessage::EditIndex(0)));
    app.update(AppMessage::InteractMenu(MenuMessage::EditName(String::new())));
    app.update(AppMessage::InteractMenu(MenuMessage::Done));
    assert_eq!(app.state, AppState::StateMenu);
}

#[test]
fn game_events_reach_only_a_running_game() {
    let mut app = seed_app();
    app.update(AppMessage::InteractGame(GameMessage::Next));
    assert_eq!(app.game.index, 0);
    app.update(AppMessage::InteractMenu(MenuMessage::Done));
    assert_eq!(app.state, AppState::StateGame);
    app.update(AppMessage::InteractGame(GameMessage::Next));
    assert_eq!(app.game.index, 1);
    // Menu events are ignored while the game runs.
    app.update(AppMessage::InteractMenu(MenuMessage::AddName));
    assert_eq!(app.menu.names().len(), 4);
}

#[test]
fn acknowledged_game_rebuilds_the_menu_from_the_roster() {
    let mut app = seed_app();
    app.update(AppMessage::InteractMenu(MenuMessage::Done));
    assert_eq!(app.state, AppState::StateGame);
    app.update(AppMessage::InteractGame(GameMessage::Done));
    assert_eq!(app.state, AppState::StateMenu);
    assert_eq!(app.menu.names(), &names(4));
    assert_eq!(app.menu.citizen(), 3);
    assert_eq!(app.menu.undercover(), 1);
    assert!(!app.menu.white());
    // The acknowledge event means nothing on the menu.
    app.update(AppMessage::InteractGame(GameMessage::Done));
    assert_eq!(app.state, AppState::StateMenu);
}

#[test]
fn game_reveal_runs_through_the_controller() {
    let mut app = seed_app();
    app.update(AppMessage::InteractMenu(MenuMessage::Done));
    for _ in 0..4 {
        app.update(AppMessage::InteractGame(GameMessage::Revealing));
        app.update(AppMessage::InteractGame(GameMessage::Next));
    }
    assert_eq!(app.game.state, GameState::Poll);
}
