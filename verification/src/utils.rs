//! The built-in sample scoreboard.

use vstd::prelude::*;
use vstd::string::StringExecFns;
use crate::model::{games_view, BaseState, GameStatus, GameSummary, GameSummaryView, League};

verus! {

/// A sample game of the World Baseball Classic on 2026-03-28.
pub open spec fn mock_game(
    id: Seq<char>,
    away: Seq<char>,
    home: Seq<char>,
    away_score: Option<u64>,
    home_score: Option<u64>,
    status: GameStatus,
    status_text: Seq<char>,
    count: Option<(u64, u64, u64)>,
    bases: Option<BaseState>,
) -> GameSummaryView {
    GameSummaryView {
        game_id: id,
        game_date: "2026-03-28T18:15Z"@,
        league: League::Wbc,
        odds: None,
        away_team_abbrev: away,
        home_team_abbrev: home,
        away_team_score: away_score,
        home_team_score: home_score,
        game_status: status,
        status_text: status_text,
        balls: match count { Some(c) => Some(c.0), None => None },
        strikes: match count { Some(c) => Some(c.1), None => None },
        outs: match count { Some(c) => Some(c.2), None => None },
        bases: bases,
        short_inning: Seq::empty(),
        away_linescore: Seq::empty(),
        home_linescore: Seq::empty(),
        details: None,
    }
}

/// The sample scoreboard: Panama at Puerto Rico in the top of the eighth,
/// Colombia at Canada final, and Chinese Taipei at Korea still to come.
pub open spec fn mock_games() -> Seq<GameSummaryView> {
    seq![
        mock_game(
            "1"@, "PAN"@, "PUR"@, Some(2), Some(0), GameStatus::InProgress, "Top 8"@,
            Some((0, 2, 2)),
            Some(BaseState { on_first: true, on_second: false, on_third: false }),
        ),
        mock_game("2"@, "COL"@, "CAN"@, Some(3), Some(8), GameStatus::Final, "Final"@, None, None),
        mock_game("3"@, "TPE"@, "KOR"@, None, None, GameStatus::Scheduled, "10:00 PM"@, None, None),
    ]
}

fn sample_game(
    id: &str,
    away: &str,
    home: &str,
    away_score: Option<u64>,
    home_score: Option<u64>,
    status: GameStatus,
    status_text: &str,
    count: Option<(u64, u64, u64)>,
    bases: Option<BaseState>,
) -> (r: GameSummary)
    ensures
        r@ == mock_game(id@, away@, home@, away_score, home_score, status, status_text@, count, bases),
{
    GameSummary {
        game_id: String::from_str(id),
        game_date: String::from_str("2026-03-28T18:15Z"),
        league: League::Wbc,
        odds: None,
        away_team_abbrev: String::from_str(away),
        home_team_abbrev: String::from_str(home),
        away_team_score: away_score,
        home_team_score: home_score,
        game_status: status,
        status_text: String::from_str(status_text),
        balls: match count { Some(c) => Some(c.0), None => None },
        strikes: match count { Some(c) => Some(c.1), None => None },
        outs: match count { Some(c) => Some(c.2), None => None },
        bases,
        short_inning: String::new(),
        away_linescore: Vec::new(),
        home_linescore: Vec::new(),
        details: None,
    }
}

/// The sample scoreboard, shown while working without the feed.
pub fn get_mock_data() -> (r: Vec<GameSummary>)
    ensures
        games_view(r@) == mock_games(),
{
    let mut games: Vec<GameSummary> = Vec::new();
    games.push(
        sample_game(
            "1", "PAN", "PUR", Some(2), Some(0), GameStatus::InProgress, "Top 8",
            Some((0, 2, 2)),
            Some(BaseState { on_first: true, on_second: false, on_third: false }),
        ),
    );
    games.push(sample_game("2", "COL", "CAN", Some(3), Some(8), GameStatus::Final, "Final", None, None));
    games.push(sample_game("3", "TPE", "KOR", None, None, GameStatus::Scheduled, "10:00 PM", None, None));
    assert(games_view(games@) =~= mock_games());
    games
}

} // verus!
