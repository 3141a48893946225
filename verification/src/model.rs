//! The scoreboard data model and its mathematical views.

use vstd::prelude::*;

verus! {

/// The league whose scoreboard is shown.
#[derive(Clone, Copy, Debug, PartialEq, Eq, Structural)]
pub enum League {
    Wbc,
    Mlb,
}

/// Where a game stands.
#[derive(Clone, Copy, Debug, PartialEq, Eq, Structural)]
pub enum GameStatus {
    Scheduled,
    InProgress,
    Final,
}

/// Which bases are occupied.
#[derive(Clone, Copy, Debug, PartialEq, Eq, Structural)]
pub struct BaseState {
    pub on_first: bool,
    pub on_second: bool,
    pub on_third: bool,
}

/// Betting lines for a scheduled game, as the feed writes them.
#[derive(Debug)]
pub struct GameOdds {
    pub moneyline: String,
    pub spread: String,
    pub over_under: String,
}

/// A player named in the live details of a game.
#[derive(Debug)]
pub struct Player {
    pub full_name: String,
}

/// Live details of a game in progress.
#[derive(Debug)]
pub struct GameDetails {
    pub last_play: String,
    pub pitcher: Player,
    pub batter: Player,
}

/// One game of a scoreboard.
#[derive(Debug)]
pub struct GameSummary {
    pub game_id: String,
    pub game_date: String,
    pub league: League,
    pub odds: Option<GameOdds>,
    pub away_team_abbrev: String,
    pub home_team_abbrev: String,
    pub away_team_score: Option<u64>,
    pub home_team_score: Option<u64>,
    pub game_status: GameStatus,
    pub status_text: String,
    pub balls: Option<u64>,
    pub strikes: Option<u64>,
    pub outs: Option<u64>,
    pub bases: Option<BaseState>,
    pub short_inning: String,
    pub away_linescore: Vec<u64>,
    pub home_linescore: Vec<u64>,
    pub details: Option<GameDetails>,
}

/// The mathematical value of a [`GameOdds`].
pub struct GameOddsView {
    pub moneyline: Seq<char>,
    pub spread: Seq<char>,
    pub over_under: Seq<char>,
}

/// The mathematical value of a [`GameDetails`].
pub struct GameDetailsView {
    pub last_play: Seq<char>,
    pub pitcher: Seq<char>,
    pub batter: Seq<char>,
}

/// The mathematical value of a [`GameSummary`].
pub struct GameSummaryView {
    pub game_id: Seq<char>,
    pub game_date: Seq<char>,
    pub league: League,
    pub odds: Option<GameOddsView>,
    pub away_team_abbrev: Seq<char>,
    pub home_team_abbrev: Seq<char>,
    pub away_team_score: Option<u64>,
    pub home_team_score: Option<u64>,
    pub game_status: GameStatus,
    pub status_text: Seq<char>,
    pub balls: Option<u64>,
    pub strikes: Option<u64>,
    pub outs: Option<u64>,
    pub bases: Option<BaseState>,
    pub short_inning: Seq<char>,
    pub away_linescore: Seq<u64>,
    pub home_linescore: Seq<u64>,
    pub details: Option<GameDetailsView>,
}

impl View for GameOdds {
    type V = GameOddsView;

    open spec fn view(&self) -> GameOddsView {
        GameOddsView {
            moneyline: self.moneyline@,
            spread: self.spread@,
            over_under: self.over_under@,
        }
    }
}

impl View for GameDetails {
    type V = GameDetailsView;

    open spec fn view(&self) -> GameDetailsView {
        GameDetailsView {
            last_play: self.last_play@,
            pitcher: self.pitcher.full_name@,
            batter: self.batter.full_name@,
        }
    }
}

pub open spec fn odds_view(o: Option<GameOdds>) -> Option<GameOddsView> {
    match o {
        Some(odds) => Some(odds@),
        None => None,
    }
}

pub open spec fn details_view(d: Option<GameDetails>) -> Option<GameDetailsView> {
    match d {
        Some(details) => Some(details@),
        None => None,
    }
}

impl View for GameSummary {
    type V = GameSummaryView;

    open spec fn view(&self) -> GameSummaryView {
        GameSummaryView {
            game_id: self.game_id@,
            game_date: self.game_date@,
            league: self.league,
            odds: odds_view(self.odds),
            away_team_abbrev: self.away_team_abbrev@,
            home_team_abbrev: self.home_team_abbrev@,
            away_team_score: self.away_team_score,
            home_team_score: self.home_team_score,
            game_status: self.game_status,
            status_text: self.status_text@,
            balls: self.balls,
            strikes: self.strikes,
            outs: self.outs,
            bases: self.bases,
            short_inning: self.short_inning@,
            away_linescore: self.away_linescore@,
            home_linescore: self.home_linescore@,
            details: details_view(self.details),
        }
    }
}

/// The views of a list of games, in order.
pub open spec fn games_view(games: Seq<GameSummary>) -> Seq<GameSummaryView> {
    games.map_values(|g: GameSummary| g@)
}

} // verus!
