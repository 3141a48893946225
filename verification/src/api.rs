//! The ESPN scoreboard reader: from the feed's JSON document to the games
//! of a league, and the client's bookkeeping around each request.

use rand::RngExt;
use vstd::prelude::*;
use vstd::string::StringExecFns;
use crate::json::{
    as_bool, as_text, as_u64, at_index, at_key, get_bool, get_index, get_key, get_number, get_str,
    get_u64, JsonValue,
};
use crate::model::{
    games_view, odds_view, BaseState, GameOdds, GameOddsView, GameStatus,
    GameSummary, GameSummaryView, League,
};
use crate::text::{
    int_parse_error_text, padded2_string, padded2_text, parse_i32, parse_u64,
    parsed_i32, parsed_u64,
};

verus! {

// ---------------------------------------------------------------------------
// Leagues and game states
// ---------------------------------------------------------------------------

/// The scoreboard URL of a league.
pub open spec fn league_url(league: League) -> Seq<char> {
    match league {
        League::Wbc => "https://site.api.espn.com/apis/site/v2/sports/baseball/world-baseball-classic/scoreboard"@,
        League::Mlb => "https://site.api.espn.com/apis/site/v2/sports/baseball/mlb/scoreboard"@,
    }
}

/// The scoreboard URL of a league.
pub fn get_league_url(league: &League) -> (r: &'static str)
    ensures
        r@ == league_url(*league),
{
    match league {
        League::Wbc => "https://site.api.espn.com/apis/site/v2/sports/baseball/world-baseball-classic/scoreboard",
        League::Mlb => "https://site.api.espn.com/apis/site/v2/sports/baseball/mlb/scoreboard",
    }
}

/// The game states that the feed writes: `in`, `pre` and `post`.
pub open spec fn known_status(s: Seq<char>) -> bool {
    s == "in"@ || s == "pre"@ || s == "post"@
}

/// The status that a known game state stands for.
pub open spec fn status_of(s: Seq<char>) -> GameStatus {
    if s == "in"@ {
        GameStatus::InProgress
    } else if s == "pre"@ {
        GameStatus::Scheduled
    } else {
        GameStatus::Final
    }
}

/// The status of a game from its state in the feed. Any other state is a
/// broken feed, on which the reader stops (see [`read_scoreboard`]).
pub fn get_game_status(game_status: &str) -> (r: GameStatus)
    requires
        known_status(game_status@),
    ensures
        r == status_of(game_status@),
{
    let s = String::from_str(game_status);
    if s == String::from_str("in") {
        GameStatus::InProgress
    } else if s == String::from_str("pre") {
        GameStatus::Scheduled
    } else {
        GameStatus::Final
    }
}

// ---------------------------------------------------------------------------
// Scores and odds
// ---------------------------------------------------------------------------

/// A score: a non-negative integer, or a string of one.
pub open spec fn score_of(v: JsonValue) -> Option<u64> {
    match v {
        JsonValue::Number(n) => n.as_u64,
        JsonValue::String(s) => parsed_u64(s@),
        _ => None,
    }
}

/// A score: a non-negative integer, or a string of one.
pub fn parse_score(v: &JsonValue) -> (r: Option<u64>)
    ensures
        r == score_of(*v),
{
    match v {
        JsonValue::Number(n) => n.as_u64,
        JsonValue::String(s) => parse_u64(s.as_str()),
        _ => None,
    }
}

/// The odds of a game: a `details` string and numeric `spread` and
/// `overUnder`, or nothing when one of them is missing or of another kind.
pub open spec fn odds_of(odds: JsonValue) -> Option<GameOddsView> {
    match (at_key(odds, "details"@), at_key(odds, "spread"@), at_key(odds, "overUnder"@)) {
        (JsonValue::String(m), JsonValue::Number(s), JsonValue::Number(o)) => Some(
            GameOddsView { moneyline: m@, spread: s.text@, over_under: o.text@ },
        ),
        _ => None,
    }
}

/// Reads the betting lines of a game.
pub fn parse_game_odds(odds: &JsonValue) -> (r: Option<GameOdds>)
    ensures
        odds_view(r) == odds_of(*odds),
{
    let here = Some(odds);
    let moneyline = match get_str(get_key(here, "details")) {
        Some(s) => s.clone(),
        None => {
            return None;
        },
    };
    let spread = match get_number(get_key(here, "spread")) {
        Some(n) => n.text.clone(),
        None => {
            return None;
        },
    };
    let over_under = match get_number(get_key(here, "overUnder")) {
        Some(n) => n.text.clone(),
        None => {
            return None;
        },
    };
    Some(GameOdds { moneyline, spread, over_under })
}

// ---------------------------------------------------------------------------
// Game dates
// ---------------------------------------------------------------------------

/// The shape of a game date in the feed, such as `2026-03-28T18:15Z`.
pub const GAME_DATE_PATTERN: &'static str = "^(\\d{4})-(\\d{2})-(\\d{2})T(\\d{2}):(\\d{2})(?::(\\d{2}))?(Z|[+-]\\d{2}:?\\d{2})$";

/// What `regex::Regex::captures` gives for `pattern` on `haystack`: `None`
/// when there is no match (or the pattern does not compile), else the text of
/// each group, group 0 first, `None` for a group that took no part.
pub uninterp spec fn regex_captures(pattern: Seq<char>, haystack: Seq<char>) -> Option<Seq<Option<Seq<char>>>>;

pub open spec fn group_view(g: Option<String>) -> Option<Seq<char>> {
    match g {
        Some(s) => Some(s@),
        None => None,
    }
}

pub open spec fn captures_view(c: Option<Vec<Option<String>>>) -> Option<Seq<Option<Seq<char>>>> {
    match c {
        Some(groups) => Some(groups@.map_values(|g: Option<String>| group_view(g))),
        None => None,
    }
}

/// Compiles `pattern` with `regex::Regex::new` and runs `Regex::captures` on
/// `haystack`, handing back the text of each group. The result is named by
/// [`regex_captures`]: what the regex crate matches is not spelled out here.
#[verifier::external_body]
fn regex_capture_groups(pattern: &str, haystack: &str) -> (r: Option<Vec<Option<String>>>)
    ensures
        captures_view(r) == regex_captures(pattern@, haystack@),
{
    let re = regex::Regex::new(pattern).ok()?;
    let caps = re.captures(haystack)?;
    Some(caps.iter().map(|m| m.map(|m| m.as_str().to_string())).collect())
}

/// The error for a date that does not have the feed's shape.
pub open spec fn unrecognized_date(date: Seq<char>) -> Seq<char> {
    "unrecognized date format: "@ + date
}

/// The outcome of `s.parse::<i32>()`, with the error as its message.
pub open spec fn int_outcome(s: Seq<char>) -> Result<i32, Seq<char>> {
    match parsed_i32(s) {
        Some(v) => Ok(v),
        None => Err(int_parse_error_text(s)),
    }
}

/// Rust's `%` by 12 on an integer (the remainder takes the sign of `n`).
pub open spec fn rem12(n: int) -> int {
    if n >= 0 {
        n % 12
    } else {
        -((-n) % 12)
    }
}

/// The hour moved from UTC to Pacific time by the fixed seven hours.
pub open spec fn pacific_hour(hour: int) -> int {
    if hour - 7 < 0 {
        hour - 7 + 24
    } else {
        hour - 7
    }
}

/// The hour on a twelve-hour clock.
pub open spec fn clock_hour(h24: int) -> int {
    if rem12(h24) == 0 {
        12
    } else {
        rem12(h24)
    }
}

/// An hour of the feed (two digits) shows on the clock as 1 to 12, marked
/// AM exactly when its Pacific hour is before noon.
pub proof fn feed_hours_show_on_the_clock(hour: int)
    requires
        0 <= hour <= 99,
    ensures
        0 <= pacific_hour(hour) <= 92,
        1 <= clock_hour(pacific_hour(hour)) <= 12,
        hour < 7 ==> pacific_hour(hour) == hour + 17,
        7 <= hour < 31 ==> pacific_hour(hour) == hour - 7,
{
}

/// A game date shows the month, the day, the Pacific hour (the UTC hour less
/// seven, taken round the clock) on a twelve-hour clock, and the minute, with
/// AM exactly when the Pacific hour is before noon.
pub proof fn game_date_in_pacific_time(month: int, day: int, hour: int, minute: int)
    requires
        0 <= hour <= 23,
    ensures
        ({
            let h = (hour + 17) % 24;
            game_date_text(month, day, hour, minute) == padded2_text(month) + "-"@ + padded2_text(day) + " @ "@
                + padded2_text(if h % 12 == 0 { 12 } else { h % 12 }) + ":"@ + padded2_text(minute) + " "@
                + (if h < 12 { "AM"@ } else { "PM"@ }) + " PST"@
        }),
{
    let h = (hour + 17) % 24;
    if hour < 7 {
        assert(h == hour + 17);
        assert(pacific_hour(hour) == hour + 17);
    } else {
        assert(h == hour - 7);
        assert(pacific_hour(hour) == hour - 7);
    }
    assert(rem12(pacific_hour(hour)) == h % 12);
}

/// `MM-DD @ hh:mm AM PST` for a date read in UTC.
pub open spec fn game_date_text(month: int, day: int, hour: int, minute: int) -> Seq<char> {
    let h24 = pacific_hour(hour);
    let hour12 = clock_hour(h24);
    let am_pm = if h24 < 12 {
        "AM"@
    } else {
        "PM"@
    };
    padded2_text(month) + "-"@ + padded2_text(day) + " @ "@ + padded2_text(hour12) + ":"@
        + padded2_text(minute) + " "@ + am_pm + " PST"@
}

/// Formats a game date from its month, day, UTC hour and minute.
pub fn format_game_date(month: i32, day: i32, hour: i32, minute: i32) -> (r: String)
    ensures
        r@ == game_date_text(month as int, day as int, hour as int, minute as int),
{
    let mut hour24: i64 = hour as i64 - 7;
    if hour24 < 0 {
        hour24 = hour24 + 24;
    }
    let rem: i64 = if hour24 >= 0 {
        hour24 % 12
    } else {
        -((-hour24) % 12)
    };
    let hour12: i64 = if rem == 0 {
        12
    } else {
        rem
    };
    let am_pm = if hour24 < 12 {
        "AM"
    } else {
        "PM"
    };
    let mut out = padded2_string(month as i64);
    out.append("-");
    out.append(padded2_string(day as i64).as_str());
    out.append(" @ ");
    out.append(padded2_string(hour12).as_str());
    out.append(":");
    out.append(padded2_string(minute as i64).as_str());
    out.append(" ");
    out.append(am_pm);
    out.append(" PST");
    out
}

/// Group `i` of a capture, where there is one.
pub open spec fn group_at(groups: Seq<Option<Seq<char>>>, i: int) -> Option<Seq<char>> {
    if 0 <= i < groups.len() {
        groups[i]
    } else {
        None
    }
}

/// A game date from the groups of its match: month, day, hour and minute are
/// read in that order, and the first that does not read gives the error.
pub open spec fn date_from_groups(date: Seq<char>, groups: Seq<Option<Seq<char>>>) -> Result<Seq<char>, Seq<char>> {
    match (group_at(groups, 2), group_at(groups, 3), group_at(groups, 4), group_at(groups, 5)) {
        (Some(m), Some(d), Some(h), Some(min)) => match int_outcome(m) {
            Err(e) => Err(e),
            Ok(mv) => match int_outcome(d) {
                Err(e) => Err(e),
                Ok(dv) => match int_outcome(h) {
                    Err(e) => Err(e),
                    Ok(hv) => match int_outcome(min) {
                        Err(e) => Err(e),
                        Ok(minv) => Ok(game_date_text(mv as int, dv as int, hv as int, minv as int)),
                    },
                },
            },
        },
        _ => Err(unrecognized_date(date)),
    }
}

/// The displayed date of a game, or the error that stops it.
pub open spec fn game_date_outcome(date: Seq<char>) -> Result<Seq<char>, Seq<char>> {
    match regex_captures(GAME_DATE_PATTERN@, date) {
        None => Err(unrecognized_date(date)),
        Some(groups) => date_from_groups(date, groups),
    }
}

pub open spec fn result_view(r: Result<String, String>) -> Result<Seq<char>, Seq<char>> {
    match r {
        Ok(s) => Ok(s@),
        Err(e) => Err(e@),
    }
}

fn group_str(groups: &Vec<Option<String>>, i: usize) -> (r: Option<&String>)
    ensures
        match r {
            Some(s) => group_at(groups@.map_values(|g: Option<String>| group_view(g)), i as int) == Some(s@),
            None => group_at(groups@.map_values(|g: Option<String>| group_view(g)), i as int) is None,
        },
{
    if i < groups.len() {
        match &groups[i] {
            Some(s) => Some(s),
            None => None,
        }
    } else {
        None
    }
}

/// A game date from the groups that matching it against
/// [`GAME_DATE_PATTERN`] gave, as [`date_from_groups`] says.
pub fn game_date_from_captures(date: &str, captures: Option<Vec<Option<String>>>) -> (r: Result<String, String>)
    ensures
        result_view(r) == match captures_view(captures) {
            None => Err(unrecognized_date(date@)),
            Some(groups) => date_from_groups(date@, groups),
        },
{
    let mut unrecognized = String::from_str("unrecognized date format: ");
    unrecognized.append(date);
    let groups = match captures {
        Some(g) => g,
        None => {
            return Err(unrecognized);
        },
    };
    let (m, d, h, min) = match (group_str(&groups, 2), group_str(&groups, 3), group_str(&groups, 4), group_str(&groups, 5)) {
        (Some(m), Some(d), Some(h), Some(min)) => (m, d, h, min),
        _ => {
            return Err(unrecognized);
        },
    };
    let mv = match parse_i32(m.as_str()) {
        Ok(v) => v,
        Err(e) => {
            return Err(e);
        },
    };
    let dv = match parse_i32(d.as_str()) {
        Ok(v) => v,
        Err(e) => {
            return Err(e);
        },
    };
    let hv = match parse_i32(h.as_str()) {
        Ok(v) => v,
        Err(e) => {
            return Err(e);
        },
    };
    let minv = match parse_i32(min.as_str()) {
        Ok(v) => v,
        Err(e) => {
            return Err(e);
        },
    };
    Ok(format_game_date(mv, dv, hv, minv))
}

/// Reads the date of a game from the feed and writes it for display in
/// Pacific time, as `MM-DD @ hh:mm AM PST`.
pub fn parse_game_date(date: String) -> (r: Result<String, String>)
    ensures
        result_view(r) == game_date_outcome(date@),
{
    let captures = regex_capture_groups(GAME_DATE_PATTERN, date.as_str());
    game_date_from_captures(date.as_str(), captures)
}

// ---------------------------------------------------------------------------
// Games
// ---------------------------------------------------------------------------

/// `event["competitions"][0]`.
pub open spec fn competition_of(event: JsonValue) -> JsonValue {
    at_index(at_key(event, "competitions"@), 0)
}

/// The home team (`competitors[0]`) or the away team (`competitors[1]`).
pub open spec fn competitor_of(event: JsonValue, i: int) -> JsonValue {
    at_index(at_key(competition_of(event), "competitors"@), i)
}

/// `team["team"]["abbreviation"]`.
pub open spec fn abbrev_of(team: JsonValue) -> Option<Seq<char>> {
    as_text(at_key(at_key(team, "team"@), "abbreviation"@))
}

/// `competition["status"]["type"]`.
pub open spec fn status_type_of(event: JsonValue) -> JsonValue {
    at_key(at_key(competition_of(event), "status"@), "type"@)
}

/// The state of a game as the feed writes it.
pub open spec fn state_of(event: JsonValue) -> Option<Seq<char>> {
    as_text(at_key(status_type_of(event), "state"@))
}

/// The description of the game's status, or the empty text.
pub open spec fn description_of(event: JsonValue) -> Seq<char> {
    match as_text(at_key(status_type_of(event), "description"@)) {
        Some(s) => s,
        None => Seq::empty(),
    }
}

pub open spec fn flag_or_false(b: Option<bool>) -> bool {
    match b {
        Some(x) => x,
        None => false,
    }
}

/// The game that an event stands for, given its id, display date, team
/// abbreviations and state.
pub open spec fn summary_of(
    event: JsonValue,
    league: League,
    id: Seq<char>,
    game_date: Seq<char>,
    home: Seq<char>,
    away: Seq<char>,
    state: Seq<char>,
) -> GameSummaryView {
    let competition = competition_of(event);
    let situation = at_key(competition, "situation"@);
    let status = status_of(state);
    let live = status == GameStatus::InProgress;
    GameSummaryView {
        game_id: id,
        game_date: game_date,
        league: league,
        odds: odds_of(at_index(at_key(competition, "odds"@), 0)),
        away_team_abbrev: away,
        home_team_abbrev: home,
        away_team_score: score_of(at_key(competitor_of(event, 1), "score"@)),
        home_team_score: score_of(at_key(competitor_of(event, 0), "score"@)),
        game_status: status,
        status_text: description_of(event),
        balls: if live { as_u64(at_key(situation, "balls"@)) } else { Some(0) },
        strikes: if live { as_u64(at_key(situation, "strikes"@)) } else { Some(0) },
        outs: if live { as_u64(at_key(situation, "outs"@)) } else { Some(0) },
        bases: Some(
            if live {
                BaseState {
                    on_first: flag_or_false(as_bool(at_key(situation, "onFirst"@))),
                    on_second: flag_or_false(as_bool(at_key(situation, "onSecond"@))),
                    on_third: flag_or_false(as_bool(at_key(situation, "onThird"@))),
                }
            } else {
                BaseState { on_first: false, on_second: false, on_third: false }
            },
        ),
        short_inning: Seq::empty(),
        away_linescore: Seq::empty(),
        home_linescore: Seq::empty(),
        details: None,
    }
}

/// What reading one event gives.
pub enum EventOutcome {
    /// The event is a game.
    Game(GameSummary),
    /// The event lacks a field that a game needs, or its date does not read.
    Skipped,
    /// The event's state is none of the known ones: the feed is broken.
    UnknownStatus(String),
}

/// The meaning of an [`EventOutcome`].
pub enum EventOutcomeView {
    Game(GameSummaryView),
    Skipped,
    UnknownStatus(Seq<char>),
}

pub open spec fn outcome_view(o: EventOutcome) -> EventOutcomeView {
    match o {
        EventOutcome::Game(g) => EventOutcomeView::Game(g@),
        EventOutcome::Skipped => EventOutcomeView::Skipped,
        EventOutcome::UnknownStatus(s) => EventOutcomeView::UnknownStatus(s@),
    }
}

/// What an event of the feed stands for: a game, nothing (a missing `id`,
/// `date`, team abbreviation or state, or a date that does not read), or a
/// broken feed (a state that is not `in`, `pre` or `post`).
pub open spec fn event_outcome(event: JsonValue, league: League) -> EventOutcomeView {
    match (as_text(at_key(event, "id"@)), as_text(at_key(event, "date"@))) {
        (Some(id), Some(date)) => match game_date_outcome(date) {
            Ok(game_date) => match (
                abbrev_of(competitor_of(event, 0)),
                abbrev_of(competitor_of(event, 1)),
                state_of(event),
            ) {
                (Some(home), Some(away), Some(state)) => if known_status(state) {
                    EventOutcomeView::Game(summary_of(event, league, id, game_date, home, away, state))
                } else {
                    EventOutcomeView::UnknownStatus(state)
                },
                _ => EventOutcomeView::Skipped,
            },
            Err(_) => EventOutcomeView::Skipped,
        },
        _ => EventOutcomeView::Skipped,
    }
}

/// The game of an event, if it is one.
pub open spec fn event_game(event: JsonValue, league: League) -> Option<GameSummaryView> {
    match event_outcome(event, league) {
        EventOutcomeView::Game(g) => Some(g),
        _ => None,
    }
}

/// Whether an event has a state that the reader cannot accept.
pub open spec fn event_is_broken(event: JsonValue, league: League) -> bool {
    event_outcome(event, league) is UnknownStatus
}

/// Reads one event of the feed.
pub fn parse_game_event(event: &JsonValue, league: &League) -> (r: EventOutcome)
    ensures
        outcome_view(r) == event_outcome(*event, *league),
{
    let here = Some(event);
    let game_id = match get_str(get_key(here, "id")) {
        Some(s) => s.clone(),
        None => {
            return EventOutcome::Skipped;
        },
    };
    let raw_date = match get_str(get_key(here, "date")) {
        Some(s) => s.clone(),
        None => {
            return EventOutcome::Skipped;
        },
    };
    let game_date = match parse_game_date(raw_date) {
        Ok(date) => date,
        Err(_) => {
            return EventOutcome::Skipped;
        },
    };
    let competition = get_index(get_key(here, "competitions"), 0);
    let odds = match get_index(get_key(competition, "odds"), 0) {
        Some(o) => parse_game_odds(o),
        None => parse_game_odds(&JsonValue::Null),
    };
    let competitors = get_key(competition, "competitors");
    let home_team = get_index(competitors, 0);
    let away_team = get_index(competitors, 1);
    let home_team_abbrev = match get_str(get_key(get_key(home_team, "team"), "abbreviation")) {
        Some(s) => s.clone(),
        None => {
            return EventOutcome::Skipped;
        },
    };
    let away_team_abbrev = match get_str(get_key(get_key(away_team, "team"), "abbreviation")) {
        Some(s) => s.clone(),
        None => {
            return EventOutcome::Skipped;
        },
    };
    let away_team_score = match get_key(away_team, "score") {
        Some(v) => parse_score(v),
        None => None,
    };
    let home_team_score = match get_key(home_team, "score") {
        Some(v) => parse_score(v),
        None => None,
    };
    let status_type = get_key(get_key(competition, "status"), "type");
    let state = match get_str(get_key(status_type, "state")) {
        Some(s) => s,
        None => {
            return EventOutcome::Skipped;
        },
    };
    let in_state = String::from_str("in");
    let pre_state = String::from_str("pre");
    let post_state = String::from_str("post");
    if !(*state == in_state || *state == pre_state || *state == post_state) {
        return EventOutcome::UnknownStatus(state.clone());
    }
    let game_status = get_game_status(state.as_str());
    let status_text = match get_str(get_key(status_type, "description")) {
        Some(s) => s.clone(),
        None => String::new(),
    };
    let situation = get_key(competition, "situation");
    let live = match game_status {
        GameStatus::InProgress => true,
        _ => false,
    };
    let (balls, strikes, outs, bases) = if live {
        let on_first = match get_bool(get_key(situation, "onFirst")) {
            Some(b) => b,
            None => false,
        };
        let on_second = match get_bool(get_key(situation, "onSecond")) {
            Some(b) => b,
            None => false,
        };
        let on_third = match get_bool(get_key(situation, "onThird")) {
            Some(b) => b,
            None => false,
        };
        (
            get_u64(get_key(situation, "balls")),
            get_u64(get_key(situation, "strikes")),
            get_u64(get_key(situation, "outs")),
            BaseState { on_first, on_second, on_third },
        )
    } else {
        (Some(0), Some(0), Some(0), BaseState { on_first: false, on_second: false, on_third: false })
    };
    EventOutcome::Game(
        GameSummary {
            game_id,
            game_date,
            league: *league,
            odds,
            away_team_abbrev,
            home_team_abbrev,
            away_team_score,
            home_team_score,
            game_status,
            status_text,
            balls,
            strikes,
            outs,
            bases: Some(bases),
            short_inning: String::new(),
            away_linescore: Vec::new(),
            home_linescore: Vec::new(),
            details: None,
        },
    )
}

/// `event["competitions"][0]["situation"]`.
pub open spec fn situation_of(event: JsonValue) -> JsonValue {
    at_key(at_index(at_key(event, "competitions"@), 0), "situation"@)
}

/// A game in progress shows the count and the runners of the event's
/// `competitions[0].situation`: balls, strikes and outs as its `balls`,
/// `strikes` and `outs` numbers, and a base as occupied exactly when its
/// flag there is `true`.
pub proof fn live_game_reads_the_situation(event: JsonValue, league: League, g: GameSummaryView)
    requires
        event_game(event, league) == Some(g),
        g.game_status == GameStatus::InProgress,
    ensures
        g.balls == as_u64(at_key(situation_of(event), "balls"@)),
        g.strikes == as_u64(at_key(situation_of(event), "strikes"@)),
        g.outs == as_u64(at_key(situation_of(event), "outs"@)),
        g.bases == Some(
            BaseState {
                on_first: as_bool(at_key(situation_of(event), "onFirst"@)) == Some(true),
                on_second: as_bool(at_key(situation_of(event), "onSecond"@)) == Some(true),
                on_third: as_bool(at_key(situation_of(event), "onThird"@)) == Some(true),
            },
        ),
{
}

/// A game read from an event has the event's id and the league asked for;
/// its home team is `competitors[0]` and its away team `competitors[1]`,
/// each with its abbreviation and its score; it is in progress exactly when
/// the state is `in`, scheduled exactly when it is `pre` and final exactly
/// when it is `post`; and a game not in progress shows a zero count and
/// empty bases.
pub proof fn game_fields_come_from_the_event(event: JsonValue, league: League, g: GameSummaryView)
    requires
        event_game(event, league) == Some(g),
    ensures
        as_text(at_key(event, "id"@)) == Some(g.game_id),
        g.league == league,
        abbrev_of(at_index(at_key(at_index(at_key(event, "competitions"@), 0), "competitors"@), 0)) == Some(
            g.home_team_abbrev,
        ),
        abbrev_of(at_index(at_key(at_index(at_key(event, "competitions"@), 0), "competitors"@), 1)) == Some(
            g.away_team_abbrev,
        ),
        g.home_team_score == score_of(
            at_key(at_index(at_key(at_index(at_key(event, "competitions"@), 0), "competitors"@), 0), "score"@),
        ),
        g.away_team_score == score_of(
            at_key(at_index(at_key(at_index(at_key(event, "competitions"@), 0), "competitors"@), 1), "score"@),
        ),
        (g.game_status == GameStatus::InProgress) == (state_of(event) == Some("in"@)),
        (g.game_status == GameStatus::Scheduled) == (state_of(event) == Some("pre"@)),
        (g.game_status == GameStatus::Final) == (state_of(event) == Some("post"@)),
        g.game_status != GameStatus::InProgress ==> g.balls == Some(0u64) && g.strikes == Some(0u64) && g.outs
            == Some(0u64) && g.bases == Some(BaseState { on_first: false, on_second: false, on_third: false }),
{
    reveal_strlit("in");
    reveal_strlit("pre");
    reveal_strlit("post");
    assert("in"@.len() == 2 && "pre"@.len() == 3 && "post"@.len() == 4);
    assert("in"@ != "pre"@ && "in"@ != "post"@ && "pre"@ != "post"@);
}

/// Reads one event of the feed as a game, or nothing. An event whose state
/// is none of the known ones is a broken feed and is left out by `requires`.
pub fn parse_game_data(event: &JsonValue, league: &League) -> (r: Option<GameSummary>)
    requires
        !event_is_broken(*event, *league),
    ensures
        match r {
            Some(g) => event_game(*event, *league) == Some(g@),
            None => event_game(*event, *league) is None,
        },
{
    match parse_game_event(event, league) {
        EventOutcome::Game(g) => Some(g),
        _ => None,
    }
}

/// The games of a list of events, in order.
pub open spec fn events_games(events: Seq<JsonValue>, league: League) -> Seq<GameSummaryView>
    decreases events.len(),
{
    if events.len() == 0 {
        Seq::empty()
    } else {
        let earlier = events_games(events.drop_last(), league);
        match event_game(events.last(), league) {
            Some(g) => earlier.push(g),
            None => earlier,
        }
    }
}

/// No event of the list is broken.
pub open spec fn events_sound(events: Seq<JsonValue>, league: League) -> bool {
    forall|i: int| 0 <= i < events.len() ==> !event_is_broken(#[trigger] events[i], league)
}

/// The feed document has an `events` array none of whose events is broken,
/// or has no such array.
pub open spec fn feed_sound(root: JsonValue, league: League) -> bool {
    match at_key(root, "events"@) {
        JsonValue::Array(events) => events_sound(events@, league),
        _ => true,
    }
}

/// The games of a feed document, or the error for a document without an
/// `events` array.
pub open spec fn feed_games(root: JsonValue, league: League) -> Result<Seq<GameSummaryView>, Seq<char>> {
    match at_key(root, "events"@) {
        JsonValue::Array(events) => Ok(events_games(events@, league)),
        _ => Err("missing events array"@),
    }
}

pub open spec fn games_result_view(r: Result<Vec<GameSummary>, String>) -> Result<Seq<GameSummaryView>, Seq<char>> {
    match r {
        Ok(games) => Ok(games_view(games@)),
        Err(e) => Err(e@),
    }
}

/// The games of the feed document's `events` array, in order, leaving out
/// the events that are not games.
pub fn create_game_summaries(root: &JsonValue, league: &League) -> (r: Result<Vec<GameSummary>, String>)
    requires
        feed_sound(*root, *league),
    ensures
        games_result_view(r) == feed_games(*root, *league),
{
    let events = match get_key(Some(root), "events") {
        Some(JsonValue::Array(events)) => events,
        _ => {
            return Err(String::from_str("missing events array"));
        },
    };
    let mut games: Vec<GameSummary> = Vec::new();
    let mut i: usize = 0;
    while i < events.len()
        invariant
            i <= events@.len(),
            events_sound(events@, *league),
            games_view(games@) =~= events_games(events@.take(i as int), *league),
        decreases events@.len() - i,
    {
        assert(events@.take(i + 1).drop_last() =~= events@.take(i as int));
        assert(events@.take(i + 1).last() == events@[i as int]);
        match parse_game_data(&events[i], league) {
            Some(g) => {
                games.push(g);
            },
            None => {},
        }
        i = i + 1;
    }
    assert(events@.take(events@.len() as int) =~= events@);
    Ok(games)
}

/// Every game read from the events belongs to the league asked for, and
/// there are never more games than events.
pub proof fn events_games_belong_to_league(events: Seq<JsonValue>, league: League)
    ensures
        events_games(events, league).len() <= events.len(),
        forall|i: int|
            0 <= i < events_games(events, league).len() ==> (#[trigger] events_games(events, league)[i]).league
                == league,
    decreases events.len(),
{
    if events.len() > 0 {
        events_games_belong_to_league(events.drop_last(), league);
    }
}

/// Reading events one after another gives the games of the first events
/// followed by those of the next: the reading keeps the feed's order.
pub proof fn events_games_append(first: Seq<JsonValue>, next: Seq<JsonValue>, league: League)
    ensures
        events_games(first + next, league) == events_games(first, league) + events_games(next, league),
    decreases next.len(),
{
    if next.len() == 0 {
        assert(first + next =~= first);
        assert(events_games(next, league) =~= Seq::<GameSummaryView>::empty());
        assert(events_games(first, league) + events_games(next, league) =~= events_games(first, league));
    } else {
        events_games_append(first, next.drop_last(), league);
        assert((first + next).drop_last() =~= first + next.drop_last());
        assert((first + next).last() == next.last());
        let g = event_game(next.last(), league);
        match g {
            Some(x) => {
                assert(events_games(first, league) + events_games(next.drop_last(), league).push(x) =~= (
                events_games(first, league) + events_games(next.drop_last(), league)).push(x));
            },
            None => {},
        }
    }
}

/// The index of the first broken event, if there is one.
pub open spec fn first_broken(events: Seq<JsonValue>, league: League, i: int) -> bool {
    0 <= i < events.len() && event_is_broken(events[i], league) && events_sound(events.take(i), league)
}

/// Why a feed document gives no games.
pub enum ScoreboardError {
    /// The document has no `events` array; the text says so.
    Malformed(String),
    /// An event has this state, which is none of the known ones.
    UnknownStatus(String),
}

/// Reads every game of a feed document. Where an event's state is none of
/// the known ones, the feed is broken: the result names that state, for the
/// first such event.
pub fn read_scoreboard(root: &JsonValue, league: &League) -> (r: Result<Vec<GameSummary>, ScoreboardError>)
    ensures
        match r {
            Ok(games) => feed_sound(*root, *league) && feed_games(*root, *league) == Ok::<
                Seq<GameSummaryView>,
                Seq<char>,
            >(games_view(games@)),
            Err(ScoreboardError::Malformed(e)) => feed_games(*root, *league) == Err::<
                Seq<GameSummaryView>,
                Seq<char>,
            >(e@),
            Err(ScoreboardError::UnknownStatus(s)) => match at_key(*root, "events"@) {
                JsonValue::Array(events) => exists|i: int|
                    first_broken(events@, *league, i) && #[trigger] event_outcome(events@[i], *league)
                        == EventOutcomeView::UnknownStatus(s@),
                _ => false,
            },
        },
{
    let found = get_key(Some(root), "events");
    if let Some(JsonValue::Array(events)) = found {
        assert(at_key(*root, "events"@) == JsonValue::Array(*events));
        let mut i: usize = 0;
        while i < events.len()
            invariant
                i <= events@.len(),
                events_sound(events@.take(i as int), *league),
                at_key(*root, "events"@) == JsonValue::Array(*events),
            decreases events@.len() - i,
        {
            match parse_game_event(&events[i], league) {
                EventOutcome::UnknownStatus(s) => {
                    assert(event_outcome(events@[i as int], *league) == EventOutcomeView::UnknownStatus(s@));
                    assert(first_broken(events@, *league, i as int));
                    return Err(ScoreboardError::UnknownStatus(s));
                },
                _ => {},
            }
            assert(events@.take(i + 1) =~= events@.take(i as int).push(events@[i as int]));
            i = i + 1;
        }
        assert(events@.take(events@.len() as int) =~= events@);
    }
    match create_game_summaries(root, league) {
        Ok(games) => Ok(games),
        Err(e) => Err(ScoreboardError::Malformed(e)),
    }
}

// ---------------------------------------------------------------------------
// The client
// ---------------------------------------------------------------------------

/// Calls `rand::rng().random_range(low..=high)`: a random number from `low`
/// to `high`, both included. Which one comes out is left open.
#[verifier::external_body]
fn random_between(low: u64, high: u64) -> (r: u64)
    requires
        low <= high,
    ensures
        low <= r <= high,
{
    rand::rng().random_range(low..=high)
}

/// A file name that `Path::join` appends as it stands: plain characters only.
pub open spec fn plain_file_name(name: Seq<char>) -> bool {
    &&& name.len() > 0
    &&& forall|i: int|
        0 <= i < name.len() ==> {
            let c = #[trigger] name[i];
            ('a' <= c <= 'z') || ('0' <= c <= '9') || c == '_' || c == '.'
        }
    &&& name[0] != '.'
}

/// A path separator of some platform: `/` (Unix and Windows) or `\`
/// (Windows).
pub open spec fn is_separator_char(c: char) -> bool {
    c == '/' || c == '\\'
}

/// A Windows verbatim prefix (`\\?\`), under which `PathBuf::push`
/// normalizes the path it builds.
pub open spec fn verbatim_prefixed(dir: Seq<char>) -> bool {
    dir.len() >= 4 && dir[0] == '\\' && dir[1] == '\\' && dir[2] == '?' && dir[3] == '\\'
}

/// `path` is `dir`, then the platform's separator, then `file`; without the
/// separator when `dir` is empty or ends in `/`. After a `\` or a `:`
/// (a separator, or a drive such as `C:`, on Windows only) the separator may
/// be left out.
pub open spec fn path_joins(path: Seq<char>, dir: Seq<char>, file: Seq<char>) -> bool {
    if dir.len() == 0 || dir.last() == '/' {
        path == dir + file
    } else if dir.last() == '\\' || dir.last() == ':' {
        path == dir + file || exists|c: char| is_separator_char(c) && path == dir.push(c) + file
    } else {
        exists|c: char| is_separator_char(c) && path == dir.push(c) + file
    }
}

/// Calls `std::path::Path::join` on `dir` and a plain relative `file`, and
/// gives the joined path as text. By the documentation of `Path::join`,
/// `PathBuf::push` and `MAIN_SEPARATOR`, outside a Windows verbatim prefix the
/// result is `dir`, the platform's separator (`/` on Unix, `\` on Windows)
/// unless `dir` already ends in a separator or is a bare drive, then `file`.
/// Which of the two separators is used depends on the platform the program
/// is built for, and is left open; so is the normalized path built under a
/// verbatim prefix.
#[verifier::external_body]
fn join_path(dir: &str, file: &str) -> (r: String)
    requires
        plain_file_name(file@),
    ensures
        !verbatim_prefixed(dir@) ==> path_joins(r@, dir@, file@),
{
    std::path::Path::new(dir).join(file).to_string_lossy().into_owned()
}

/// The file that holds the last saved scoreboard of a league.
pub open spec fn snapshot_file_name(league: League) -> Seq<char> {
    match league {
        League::Wbc => "wbc_scoreboard.json"@,
        League::Mlb => "mlb_scoreboard.json"@,
    }
}

/// The bookkeeping of a [`ApiClient`]: how many requests it has made, at
/// which count it next saves a snapshot, and where snapshots go.
pub struct ApiClientView {
    pub requests: nat,
    pub next_snapshot: nat,
    pub snapshot_dir: Seq<char>,
}

/// The client of the scoreboard feed. It counts its requests and has a
/// successful answer saved as a snapshot once the count reaches the snapshot
/// count, a random number from five to ten that is drawn anew after each save.
/// The request count is never reset, so from the tenth request on every
/// successful answer is saved. When the feed fails, the last snapshot is used
/// instead.
pub struct ApiClient {
    req_counter: u64,
    next_snapshot: u64,
    snapshot_dir: String,
}

impl View for ApiClient {
    type V = ApiClientView;

    closed spec fn view(&self) -> ApiClientView {
        ApiClientView {
            requests: self.req_counter as nat,
            next_snapshot: self.next_snapshot as nat,
            snapshot_dir: self.snapshot_dir@,
        }
    }
}

/// The snapshot count is always between five and ten.
pub open spec fn client_wf(c: ApiClientView) -> bool {
    5 <= c.next_snapshot <= 10
}

/// Starting a request counts it and changes nothing else.
pub open spec fn fetch_started(before: ApiClientView, after: ApiClientView) -> bool {
    &&& after.requests == before.requests + 1
    &&& after.next_snapshot == before.next_snapshot
    &&& after.snapshot_dir == before.snapshot_dir
}

/// Settling an answer keeps the count and the snapshot directory, and keeps
/// the snapshot count between five and ten.
pub open spec fn fetch_settled(before: ApiClientView, after: ApiClientView) -> bool {
    &&& after.requests == before.requests
    &&& after.snapshot_dir == before.snapshot_dir
    &&& client_wf(before) ==> client_wf(after)
}

/// A whole request, started and then settled whatever the feed answered,
/// counts exactly one request, keeps the snapshot directory, and keeps the
/// snapshot count between five and ten.
pub proof fn one_fetch_counts_one_request(before: ApiClientView, during: ApiClientView, after: ApiClientView)
    requires
        fetch_started(before, during),
        fetch_settled(during, after),
    ensures
        after.requests == before.requests + 1,
        after.snapshot_dir == before.snapshot_dir,
        client_wf(before) ==> client_wf(after),
{
}

/// What the caller does after an answer of the feed.
pub enum FetchStep {
    /// Show these games; where `save_snapshot` holds, also save them as the
    /// league's snapshot.
    Fresh { games: Vec<GameSummary>, save_snapshot: bool },
    /// The feed failed with this error: load the league's snapshot instead.
    Fallback { error: String },
    /// The feed holds a game whose state is none of the known ones.
    BrokenFeed { status: String },
}

/// The error shown when no snapshot could be loaded either.
pub open spec fn snapshot_load_error_text(league: League, err: Seq<char>) -> Seq<char> {
    "Failed to load cached snapshot for "@ + match league {
        League::Wbc => "Wbc"@,
        League::Mlb => "Mlb"@,
    } + ": "@ + err
}

/// The error shown when no snapshot could be loaded either.
pub fn snapshot_load_error(league: &League, err: &str) -> (r: String)
    ensures
        r@ == snapshot_load_error_text(*league, err@),
{
    let mut out = String::from_str("Failed to load cached snapshot for ");
    match league {
        League::Wbc => out.append("Wbc"),
        League::Mlb => out.append("Mlb"),
    }
    out.append(": ");
    out.append(err);
    out
}

impl ApiClient {
    /// A client that has made no request yet and keeps its snapshots in
    /// `snapshot_dir`.
    pub fn new(snapshot_dir: String) -> (r: ApiClient)
        ensures
            r@.requests == 0,
            r@.snapshot_dir == snapshot_dir@,
            client_wf(r@),
    {
        ApiClient { req_counter: 0, next_snapshot: random_between(5, 10), snapshot_dir }
    }

    /// How many requests the client has made.
    pub fn request_count(&self) -> (r: u64)
        ensures
            r as nat == self@.requests,
    {
        self.req_counter
    }

    /// At which request count the client next saves a snapshot.
    pub fn next_snapshot(&self) -> (r: u64)
        ensures
            r as nat == self@.next_snapshot,
    {
        self.next_snapshot
    }

    /// Where the client keeps its snapshots.
    pub fn snapshot_dir(&self) -> (r: &String)
        ensures
            r@ == self@.snapshot_dir,
    {
        &self.snapshot_dir
    }

    /// The built-in sample scoreboard.
    pub fn fetch_mock_games(&mut self) -> (r: Result<Vec<GameSummary>, String>)
        ensures
            final(self)@ == old(self)@,
            match r {
                Ok(games) => games_view(games@) == crate::utils::mock_games(),
                Err(_) => false,
            },
    {
        Ok(crate::utils::get_mock_data())
    }

    /// Where the league's snapshot is kept: the snapshot directory joined
    /// with the league's file name.
    pub fn get_snapshot_path(&self, league: &League) -> (r: String)
        ensures
            !verbatim_prefixed(self@.snapshot_dir) ==> path_joins(
                r@,
                self@.snapshot_dir,
                snapshot_file_name(*league),
            ),
    {
        proof {
            reveal_strlit("wbc_scoreboard.json");
            reveal_strlit("mlb_scoreboard.json");
        }
        let filename = match league {
            League::Wbc => "wbc_scoreboard.json",
            League::Mlb => "mlb_scoreboard.json",
        };
        join_path(self.snapshot_dir.as_str(), filename)
    }

    /// Starts a request for the league's scoreboard: counts it and gives the
    /// URL to fetch.
    pub fn begin_fetch(&mut self, league: &League) -> (r: &'static str)
        requires
            old(self)@.requests < u64::MAX,
        ensures
            r@ == league_url(*league),
            fetch_started(old(self)@, final(self)@),
    {
        self.req_counter = self.req_counter + 1;
        get_league_url(league)
    }

    /// Decides what follows the feed's answer (a document, or the error of
    /// the request): the games it holds, with a snapshot saved once the
    /// request count has reached the snapshot count, which is then drawn
    /// anew; or, where the answer holds no games, the fallback to the
    /// league's snapshot.
    pub fn complete_fetch(&mut self, league: &League, response: Result<JsonValue, String>) -> (r: FetchStep)
        ensures
            fetch_settled(old(self)@, final(self)@),
            match response {
                Err(e) => r == (FetchStep::Fallback { error: e }) && final(self)@ == old(self)@,
                Ok(doc) => match r {
                    FetchStep::Fresh { games, save_snapshot } => {
                        &&& feed_sound(doc, *league)
                        &&& feed_games(doc, *league) == Ok::<Seq<GameSummaryView>, Seq<char>>(games_view(games@))
                        &&& save_snapshot == (old(self)@.requests >= old(self)@.next_snapshot)
                        &&& save_snapshot ==> 5 <= final(self)@.next_snapshot <= 10
                        &&& !save_snapshot ==> final(self)@ == old(self)@
                    },
                    FetchStep::Fallback { error } => {
                        &&& feed_games(doc, *league) == Err::<Seq<GameSummaryView>, Seq<char>>(error@)
                        &&& final(self)@ == old(self)@
                    },
                    FetchStep::BrokenFeed { status } => {
                        &&& final(self)@ == old(self)@
                        &&& match at_key(doc, "events"@) {
                            JsonValue::Array(events) => exists|i: int|
                                first_broken(events@, *league, i) && #[trigger] event_outcome(events@[i], *league)
                                    == EventOutcomeView::UnknownStatus(status@),
                            _ => false,
                        }
                    },
                },
            },
    {
        let doc = match response {
            Ok(doc) => doc,
            Err(error) => {
                return FetchStep::Fallback { error };
            },
        };
        match read_scoreboard(&doc, league) {
            Ok(games) => {
                let save_snapshot = self.req_counter >= self.next_snapshot;
                if save_snapshot {
                    self.next_snapshot = random_between(5, 10);
                }
                FetchStep::Fresh { games, save_snapshot }
            },
            Err(ScoreboardError::Malformed(error)) => FetchStep::Fallback { error },
            Err(ScoreboardError::UnknownStatus(status)) => FetchStep::BrokenFeed { status },
        }
    }
}

} // verus!
