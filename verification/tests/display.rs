use terminal_sports::model::{BaseState, GameDetails, GameOdds, GameStatus, GameSummary, League, Player};
use terminal_sports::situation_canvas::{dot_is_on, situation_counts};
use terminal_sports::state::AppState;
use terminal_sports::text::{decimal_string, padded2_string};
use terminal_sports::ui::{
    ball_char, base_char, build_status_line, format_game_details, format_game_summary,
    generate_and_set_base_string, generate_and_set_situation_details, league_list_index,
    make_team_row, out_char, strike_char,
};
use terminal_sports::utils::get_mock_data;

#[test]
fn base_squares() {
    assert_eq!(base_char(true), "⬛");
    assert_eq!(base_char(false), "⬜");
}

#[test]
fn count_lights() {
    assert_eq!(ball_char(0), "⚪ ⚪ ⚪ ⚪");
    assert_eq!(ball_char(2), "⚫ ⚫ ⚪ ⚪");
    assert_eq!(ball_char(7), "⚫ ⚫ ⚫ ⚫");
    assert_eq!(strike_char(1), "⚫ ⚪ ⚪");
    assert_eq!(out_char(3), "⚫ ⚫ ⚫");
    assert_eq!(out_char(0), "⚪ ⚪ ⚪");
}

#[test]
fn diamond_lines() {
    let mut lines = vec!["head".to_string()];
    generate_and_set_base_string(&Some(BaseState { on_first: true, on_second: false, on_third: true }), &mut lines);
    assert_eq!(lines, vec!["head", "      ⬜", "    ⬛  ⬛"]);
    let mut empty = vec![];
    generate_and_set_base_string(&None, &mut empty);
    assert_eq!(empty, vec!["      ⬜", "    ⬜  ⬜"]);
}

#[test]
fn count_lines() {
    let mut lines = vec![];
    generate_and_set_situation_details(3, 2, 1, &mut lines);
    assert_eq!(lines, vec!["", "B : ⚫ ⚫ ⚫ ⚪", "S : ⚫ ⚫ ⚪", "O : ⚫ ⚪ ⚪"]);
}

#[test]
fn scoreboard_lines_of_the_sample() {
    let games = get_mock_data();
    assert_eq!(format_game_summary(&games[0]), vec!["PAN 2 @ PUR 0 |  | 2 outs | 0-2", "      ⬜", "    ⬜  ⬛"]);
    assert_eq!(format_game_summary(&games[1]), vec!["COL 3 @ CAN 8 | Final", "      ⬜", "    ⬜  ⬜"]);
    assert_eq!(
        format_game_summary(&games[2]),
        vec!["TPE @ KOR | 10:00 PM | 2026-03-28T18:15Z", "      ⬜", "    ⬜  ⬜"]
    );
}

#[test]
fn details_of_the_sample() {
    let mut games = get_mock_data();
    assert_eq!(
        format_game_details(&games[0]),
        vec!["", "PAN 2 @ PUR 0", "", "No live game details available at this time"]
    );
    assert_eq!(format_game_details(&games[1]), vec!["", "COL 3 @ CAN 8", ""]);
    assert_eq!(format_game_details(&games[2]), vec!["", "TPE @ KOR", "", "No odds available at this time"]);
    games[2].odds = Some(GameOdds {
        moneyline: "KOR -120".to_string(),
        spread: "1.5".to_string(),
        over_under: "8.5".to_string(),
    });
    assert_eq!(
        format_game_details(&games[2]),
        vec!["", "TPE @ KOR", "", "Moneyline: KOR -120", "Spread: 1.5", "O/U: 8.5"]
    );
    games[0].details = Some(GameDetails {
        last_play: "Single to left".to_string(),
        pitcher: Player { full_name: "A. Pitcher".to_string() },
        batter: Player { full_name: "B. Batter".to_string() },
    });
    assert_eq!(
        format_game_details(&games[0]),
        vec!["", "PAN 2 @ PUR 0", "", "Last play: Single to left", "Pitcher: A. Pitcher", "Batter: B. Batter"]
    );
}

#[test]
fn linescore_rows() {
    assert_eq!(make_team_row("PAN", &[0, 1, 12]), vec!["PAN", "0", "1", "12", "-", "-", "-", "-", "-", "-"]);
    assert_eq!(make_team_row("PUR", &[]), vec!["PUR", "-", "-", "-", "-", "-", "-", "-", "-", "-"]);
    let long: Vec<u64> = (0..11).collect();
    assert_eq!(make_team_row("X", &long), vec!["X", "0", "1", "2", "3", "4", "5", "6", "7", "8"]);
}

#[test]
fn league_list_rows() {
    assert_eq!(league_list_index(&League::Mlb), 0);
    assert_eq!(league_list_index(&League::Wbc), 1);
}

const KEYS: &str = " | ↑/↓ move | r - refresh | l - toggle league | q - quit";

#[test]
fn status_lines() {
    let mut state = AppState::new(get_mock_data());
    assert_eq!(build_status_line(&state), format!("Current League: WBC | Last refresh: Never{}", KEYS));
    state.toggle_league();
    state.start_refresh();
    assert_eq!(build_status_line(&state), format!("Current League: MLB | Refreshing...{}", KEYS));
    state.finish_refresh(Err("Request failed: boom".to_string()));
    assert_eq!(build_status_line(&state), format!("Current League: MLB | Error: Request failed: boom{}", KEYS));
    state.start_refresh();
    state.finish_refresh(Ok(get_mock_data()));
    let stamp = state.last_timestamp.clone().unwrap();
    assert_eq!(build_status_line(&state), format!("Current League: MLB | Last refresh - {}{}", stamp, KEYS));
}

#[test]
fn situation_picture_counts() {
    let mut game = get_mock_data().remove(0);
    game.balls = Some(9);
    game.strikes = None;
    game.outs = Some(2);
    let c = situation_counts(&game);
    assert_eq!((c.balls, c.strikes, c.outs), (4, 0, 2));
    assert!(c.on_first && !c.on_second && !c.on_third);
    game.bases = None;
    let c = situation_counts(&game);
    assert!(!c.on_first && !c.on_second && !c.on_third);
    assert!(dot_is_on(0, 3, 2) && dot_is_on(1, 3, 2) && !dot_is_on(2, 3, 2));
    assert!(dot_is_on(2, 3, 9) && !dot_is_on(3, 3, 9));
    assert_eq!(game.game_status, GameStatus::InProgress);
}

#[test]
fn numbers_as_text() {
    assert_eq!(decimal_string(0), "0");
    assert_eq!(decimal_string(907), "907");
    assert_eq!(decimal_string(u64::MAX), u64::MAX.to_string());
    assert_eq!(padded2_string(7), "07");
    assert_eq!(padded2_string(42), "42");
    assert_eq!(padded2_string(123), "123");
    assert_eq!(padded2_string(-5), "-5");
    assert_eq!(padded2_string(i64::MIN), i64::MIN.to_string());
}
