use terminal_sports::model::{BaseState, GameStatus, GameSummary, League};
use terminal_sports::state::{command_for_key, refresh_due, should_auto_refresh, AppState, Command, KeyInput};
use terminal_sports::utils::get_mock_data;

fn games(n: usize) -> Vec<GameSummary> {
    (0..n)
        .map(|i| GameSummary {
            game_id: i.to_string(),
            game_date: "03-28 @ 11:15 AM PST".to_string(),
            league: League::Wbc,
            odds: None,
            away_team_abbrev: "AAA".to_string(),
            home_team_abbrev: "HHH".to_string(),
            away_team_score: None,
            home_team_score: None,
            game_status: GameStatus::Scheduled,
            status_text: String::new(),
            balls: None,
            strikes: None,
            outs: None,
            bases: Some(BaseState { on_first: false, on_second: false, on_third: false }),
            short_inning: String::new(),
            away_linescore: vec![],
            home_linescore: vec![],
            details: None,
        })
        .collect()
}

#[test]
fn new_state_shows_the_wbc() {
    let state = AppState::new(get_mock_data());
    assert_eq!(state.league, League::Wbc);
    assert_eq!(state.games.len(), 3);
    assert_eq!(state.selected_game_idx, 0);
    assert!(state.last_refresh.is_none() && state.last_timestamp.is_none());
    assert!(!state.is_refreshing && state.last_error.is_none());
}

#[test]
fn moving_stays_within_the_list() {
    let mut state = AppState::new(games(3));
    state.move_up();
    assert_eq!(state.selected_game_idx, 0);
    state.move_down();
    state.move_down();
    assert_eq!(state.selected_game_idx, 2);
    state.move_down();
    assert_eq!(state.selected_game_idx, 2);
    state.move_up();
    assert_eq!(state.selected_game_idx, 1);
    state.move_down();
    assert_eq!(state.selected_game_idx, 2);
}

#[test]
fn moving_in_an_empty_list_does_nothing() {
    let mut state = AppState::new(vec![]);
    state.move_down();
    state.move_up();
    assert_eq!(state.selected_game_idx, 0);
}

#[test]
fn fewer_games_pull_the_selection_back() {
    let mut state = AppState::new(games(5));
    state.selected_game_idx = 4;
    state.set_games(games(2));
    assert_eq!(state.selected_game_idx, 1);
    state.set_games(games(6));
    assert_eq!(state.selected_game_idx, 1);
    assert_eq!(state.games.len(), 6);
}

#[test]
fn toggling_twice_returns_to_the_league() {
    let mut state = AppState::new(games(1));
    state.toggle_league();
    assert_eq!(state.league, League::Mlb);
    state.toggle_league();
    assert_eq!(state.league, League::Wbc);
}

#[test]
fn refresh_cycle() {
    let mut state = AppState::new(games(2));
    assert!(should_auto_refresh(&mut state));
    state.start_refresh();
    assert!(state.is_refreshing);
    assert!(!should_auto_refresh(&mut state));
    state.finish_refresh(Ok(games(1)));
    assert!(!state.is_refreshing);
    assert!(state.last_refresh.is_some() && state.last_timestamp.is_some());
    assert_eq!(state.games.len(), 1);
    let stamp: Vec<char> = state.last_timestamp.as_ref().unwrap().chars().collect();
    assert_eq!(stamp.len(), 19);
    for (i, c) in stamp.iter().enumerate() {
        match i {
            4 | 7 => assert_eq!(*c, '-'),
            10 => assert_eq!(*c, ' '),
            13 | 16 => assert_eq!(*c, ':'),
            _ => assert!(c.is_ascii_digit()),
        }
    }
    // The last refresh is moments old: no refresh is due yet.
    assert!(!should_auto_refresh(&mut state));

    state.start_refresh();
    assert!(state.last_timestamp.is_none() && state.last_error.is_none());
    state.finish_refresh(Err("Request failed".to_string()));
    assert_eq!(state.last_error, Some("Request failed".to_string()));
    assert_eq!(state.games.len(), 1);
    assert!(!state.is_refreshing && state.last_timestamp.is_some());

    state.start_refresh();
    assert!(state.last_error.is_none());
}

#[test]
fn refresh_is_due_after_ten_seconds() {
    assert!(refresh_due(false, None));
    assert!(!refresh_due(true, None));
    assert!(!refresh_due(false, Some(9_999)));
    assert!(refresh_due(false, Some(10_000)));
    assert!(!refresh_due(true, Some(60_000)));
}

#[test]
fn keys_and_commands() {
    assert!(command_for_key(KeyInput::Char('q')) == Command::Quit);
    assert!(command_for_key(KeyInput::Char('r')) == Command::Refresh);
    assert!(command_for_key(KeyInput::Char('l')) == Command::ToggleLeague);
    assert!(command_for_key(KeyInput::Char('x')) == Command::Nothing);
    assert!(command_for_key(KeyInput::Up) == Command::MoveUp);
    assert!(command_for_key(KeyInput::Down) == Command::MoveDown);
    assert!(command_for_key(KeyInput::Other) == Command::Nothing);
}
