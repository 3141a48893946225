//! The text that the terminal interface shows: scoreboard lines, game
//! details, the base and count indicators, and the status line.

use vstd::prelude::*;
use vstd::string::StringExecFns;
use crate::model::{BaseState, GameStatus, GameSummary, GameSummaryView, League};
use crate::state::AppState;
use crate::text::{decimal_string, decimal_text, push_decimal};

verus! {

/// The texts of a list of lines.
pub open spec fn lines_view(lines: Seq<String>) -> Seq<Seq<char>> {
    lines.map_values(|s: String| s@)
}

// ---------------------------------------------------------------------------
// Bases and counts
// ---------------------------------------------------------------------------

/// A filled square for an occupied base, an empty one otherwise.
pub open spec fn base_text(occupied: bool) -> Seq<char> {
    if occupied {
        "⬛"@
    } else {
        "⬜"@
    }
}

/// A filled square for an occupied base, an empty one otherwise.
pub fn base_char(occupied: bool) -> (r: &'static str)
    ensures
        r@ == base_text(occupied),
{
    if occupied {
        "⬛"
    } else {
        "⬜"
    }
}

/// The first `k` of `total` lights, of which the first `filled` are on,
/// each followed by a space but the last.
pub open spec fn lights(filled: nat, total: nat, k: nat) -> Seq<char>
    decreases k,
{
    if k == 0 {
        Seq::empty()
    } else {
        let i = (k - 1) as nat;
        lights(filled, total, i) + (if i < filled {
            "⚫"@
        } else {
            "⚪"@
        }) + (if i != total - 1 {
            " "@
        } else {
            Seq::empty()
        })
    }
}

/// A row of `total` lights, of which the first `filled` are on.
fn light_row(filled: u64, total: u64) -> (r: String)
    ensures
        r@ == lights(filled as nat, total as nat, total as nat),
{
    let mut result = String::new();
    let mut i: u64 = 0;
    while i < total
        invariant
            i <= total,
            result@ == lights(filled as nat, total as nat, i as nat),
        decreases total - i,
    {
        if i < filled {
            result.append("⚫");
        } else {
            result.append("⚪");
        }
        if i != total - 1 {
            result.append(" ");
        }
        assert(result@ =~= lights(filled as nat, total as nat, (i + 1) as nat));
        i = i + 1;
    }
    result
}

/// The four ball lights, of which the first `balls` are on.
pub fn ball_char(balls: u64) -> (r: String)
    ensures
        r@ == lights(balls as nat, 4, 4),
{
    light_row(balls, 4)
}

/// The three strike lights, of which the first `strikes` are on.
pub fn strike_char(strikes: u64) -> (r: String)
    ensures
        r@ == lights(strikes as nat, 3, 3),
{
    light_row(strikes, 3)
}

/// The three out lights, of which the first `outs` are on.
pub fn out_char(outs: u64) -> (r: String)
    ensures
        r@ == lights(outs as nat, 3, 3),
{
    light_row(outs, 3)
}

/// The two lines that draw the diamond: second base above, third and first
/// below. Without a base state every base is empty.
pub open spec fn base_lines(bases: Option<BaseState>) -> Seq<Seq<char>> {
    let b = match bases {
        Some(b) => b,
        None => BaseState { on_first: false, on_second: false, on_third: false },
    };
    seq![
        "      "@ + base_text(b.on_second),
        "    "@ + base_text(b.on_third) + "  "@ + base_text(b.on_first),
    ]
}

/// Appends the two lines that draw the diamond.
pub fn generate_and_set_base_string(bases: &Option<BaseState>, lines: &mut Vec<String>)
    ensures
        lines_view(final(lines)@) == lines_view(old(lines)@) + base_lines(*bases),
{
    let (on_first, on_second, on_third) = match bases {
        Some(b) => (b.on_first, b.on_second, b.on_third),
        None => (false, false, false),
    };
    let mut top = String::from_str("      ");
    top.append(base_char(on_second));
    let mut bottom = String::from_str("    ");
    bottom.append(base_char(on_third));
    bottom.append("  ");
    bottom.append(base_char(on_first));
    let ghost before = old(lines)@;
    lines.push(top);
    lines.push(bottom);
    assert(lines_view(lines@) =~= lines_view(before) + base_lines(*bases));
}

/// The count lines: an empty line, then the balls, strikes and outs.
pub open spec fn situation_lines(balls: u64, strikes: u64, outs: u64) -> Seq<Seq<char>> {
    seq![
        ""@,
        "B : "@ + lights(balls as nat, 4, 4),
        "S : "@ + lights(strikes as nat, 3, 3),
        "O : "@ + lights(outs as nat, 3, 3),
    ]
}

/// Appends the count lines.
pub fn generate_and_set_situation_details(balls: u64, strikes: u64, outs: u64, lines: &mut Vec<String>)
    ensures
        lines_view(final(lines)@) == lines_view(old(lines)@) + situation_lines(balls, strikes, outs),
{
    let mut b = String::from_str("B : ");
    b.append(ball_char(balls).as_str());
    let mut s = String::from_str("S : ");
    s.append(strike_char(strikes).as_str());
    let mut o = String::from_str("O : ");
    o.append(out_char(outs).as_str());
    let ghost before = old(lines)@;
    lines.push(String::from_str(""));
    lines.push(b);
    lines.push(s);
    lines.push(o);
    assert(lines_view(lines@) =~= lines_view(before) + situation_lines(balls, strikes, outs));
}

// ---------------------------------------------------------------------------
// Games
// ---------------------------------------------------------------------------

/// A score or count, zero where it is unknown.
pub open spec fn or_zero(o: Option<u64>) -> nat {
    match o {
        Some(v) => v as nat,
        None => 0,
    }
}

/// `AWAY 2 @ HOME 0`.
pub open spec fn score_line(g: GameSummaryView) -> Seq<char> {
    g.away_team_abbrev + " "@ + decimal_text(or_zero(g.away_team_score)) + " @ "@ + g.home_team_abbrev + " "@
        + decimal_text(or_zero(g.home_team_score))
}

/// The first line of a game in the scoreboard list.
pub open spec fn summary_head(g: GameSummaryView) -> Seq<char> {
    match g.game_status {
        GameStatus::InProgress => score_line(g) + " | "@ + g.short_inning + " | "@ + decimal_text(or_zero(g.outs))
            + " outs | "@ + decimal_text(or_zero(g.balls)) + "-"@ + decimal_text(or_zero(g.strikes)),
        GameStatus::Final => score_line(g) + " | Final"@,
        GameStatus::Scheduled => g.away_team_abbrev + " @ "@ + g.home_team_abbrev + " | "@ + g.status_text + " | "@
            + g.game_date,
    }
}

/// A game in the scoreboard list: its first line, then the diamond.
pub open spec fn summary_lines(g: GameSummaryView) -> Seq<Seq<char>> {
    seq![summary_head(g)] + base_lines(g.bases)
}

fn score_line_string(game: &GameSummary) -> (r: String)
    ensures
        r@ == score_line(game@),
{
    let away = match game.away_team_score {
        Some(v) => v,
        None => 0,
    };
    let home = match game.home_team_score {
        Some(v) => v,
        None => 0,
    };
    let mut line = game.away_team_abbrev.clone();
    line.append(" ");
    push_decimal(&mut line, away);
    line.append(" @ ");
    line.append(game.home_team_abbrev.as_str());
    line.append(" ");
    push_decimal(&mut line, home);
    line
}

/// A game in progress is listed as the away team and its score, `@`, the
/// home team and its score, the inning, the outs followed by ` outs`, then
/// the count as balls, `-`, strikes; unknown numbers show as 0. The diamond
/// follows on two lines.
pub proof fn live_line_shows_outs_then_count(g: GameSummaryView)
    requires
        g.game_status == GameStatus::InProgress,
    ensures
        summary_lines(g).len() == 3,
        summary_lines(g)[0] == g.away_team_abbrev + " "@ + decimal_text(or_zero(g.away_team_score)) + " @ "@
            + g.home_team_abbrev + " "@ + decimal_text(or_zero(g.home_team_score)) + " | "@ + g.short_inning
            + " | "@ + decimal_text(or_zero(g.outs)) + " outs | "@ + decimal_text(or_zero(g.balls)) + "-"@
            + decimal_text(or_zero(g.strikes)),
        summary_lines(g).subrange(1, 3) == base_lines(g.bases),
{
    assert(summary_lines(g).subrange(1, 3) =~= base_lines(g.bases));
}

/// A final game is listed as the away team and its score, `@`, the home team
/// and its score, then `| Final`.
pub proof fn final_line_shows_the_score(g: GameSummaryView)
    requires
        g.game_status == GameStatus::Final,
    ensures
        summary_lines(g)[0] == g.away_team_abbrev + " "@ + decimal_text(or_zero(g.away_team_score)) + " @ "@
            + g.home_team_abbrev + " "@ + decimal_text(or_zero(g.home_team_score)) + " | Final"@,
{
}

/// The details panel of a game that has started shows, on its second line,
/// each team with its whole score in decimal (0 when unknown): the same text
/// that starts the game's line in the scoreboard list. A final game's panel
/// is that line between two blank lines.
pub proof fn details_show_the_whole_score(g: GameSummaryView)
    requires
        g.game_status != GameStatus::Scheduled,
    ensures
        detail_lines(g).len() >= 3,
        detail_lines(g)[1] == g.away_team_abbrev + " "@ + decimal_text(or_zero(g.away_team_score)) + " @ "@
            + g.home_team_abbrev + " "@ + decimal_text(or_zero(g.home_team_score)),
        summary_lines(g)[0].subrange(0, detail_lines(g)[1].len() as int) == detail_lines(g)[1],
        g.game_status == GameStatus::Final ==> detail_lines(g) == seq![""@, detail_lines(g)[1], ""@],
{
    let line = detail_lines(g)[1];
    assert(summary_lines(g)[0].subrange(0, line.len() as int) =~= line);
    if g.game_status == GameStatus::Final {
        assert(detail_lines(g) =~= seq![""@, line, ""@]);
    }
}

/// The lines of a game in the scoreboard list.
pub fn format_game_summary(game: &GameSummary) -> (r: Vec<String>)
    ensures
        lines_view(r@) == summary_lines(game@),
{
    let line = match game.game_status {
        GameStatus::InProgress => {
            let outs = match game.outs {
                Some(v) => v,
                None => 0,
            };
            let balls = match game.balls {
                Some(v) => v,
                None => 0,
            };
            let strikes = match game.strikes {
                Some(v) => v,
                None => 0,
            };
            let mut line = score_line_string(game);
            line.append(" | ");
            line.append(game.short_inning.as_str());
            line.append(" | ");
            push_decimal(&mut line, outs);
            line.append(" outs | ");
            push_decimal(&mut line, balls);
            line.append("-");
            push_decimal(&mut line, strikes);
            line
        },
        GameStatus::Final => {
            let mut line = score_line_string(game);
            line.append(" | Final");
            line
        },
        GameStatus::Scheduled => {
            let mut line = game.away_team_abbrev.clone();
            line.append(" @ ");
            line.append(game.home_team_abbrev.as_str());
            line.append(" | ");
            line.append(game.status_text.as_str());
            line.append(" | ");
            line.append(game.game_date.as_str());
            line
        },
    };
    let mut lines: Vec<String> = Vec::new();
    lines.push(line);
    generate_and_set_base_string(&game.bases, &mut lines);
    assert(lines_view(lines@) =~= summary_lines(game@));
    lines
}

/// The details of a selected game: a blank line, the teams (with the score
/// once the game has started), a blank line, then the odds of a scheduled
/// game or the live details of a game in progress.
pub open spec fn detail_lines(g: GameSummaryView) -> Seq<Seq<char>> {
    match g.game_status {
        GameStatus::Scheduled => seq![""@, g.away_team_abbrev + " @ "@ + g.home_team_abbrev, ""@] + match g.odds {
            Some(o) => seq!["Moneyline: "@ + o.moneyline, "Spread: "@ + o.spread, "O/U: "@ + o.over_under],
            None => seq!["No odds available at this time"@],
        },
        GameStatus::InProgress => seq![""@, score_line(g), ""@] + match g.details {
            Some(d) => seq!["Last play: "@ + d.last_play, "Pitcher: "@ + d.pitcher, "Batter: "@ + d.batter],
            None => seq!["No live game details available at this time"@],
        },
        GameStatus::Final => seq![""@, score_line(g), ""@],
    }
}

fn prefixed(prefix: &str, text: &String) -> (r: String)
    ensures
        r@ == prefix@ + text@,
{
    let mut line = String::from_str(prefix);
    line.append(text.as_str());
    line
}

/// The lines of the details panel of a game.
pub fn format_game_details(game: &GameSummary) -> (r: Vec<String>)
    ensures
        lines_view(r@) == detail_lines(game@),
{
    let mut lines: Vec<String> = Vec::new();
    lines.push(String::from_str(""));
    match game.game_status {
        GameStatus::Scheduled => {
            let mut teams = game.away_team_abbrev.clone();
            teams.append(" @ ");
            teams.append(game.home_team_abbrev.as_str());
            lines.push(teams);
            lines.push(String::from_str(""));
            match &game.odds {
                Some(odds) => {
                    lines.push(prefixed("Moneyline: ", &odds.moneyline));
                    lines.push(prefixed("Spread: ", &odds.spread));
                    lines.push(prefixed("O/U: ", &odds.over_under));
                },
                None => {
                    lines.push(String::from_str("No odds available at this time"));
                },
            }
        },
        GameStatus::InProgress => {
            lines.push(score_line_string(game));
            lines.push(String::from_str(""));
            match &game.details {
                Some(details) => {
                    lines.push(prefixed("Last play: ", &details.last_play));
                    lines.push(prefixed("Pitcher: ", &details.pitcher.full_name));
                    lines.push(prefixed("Batter: ", &details.batter.full_name));
                },
                None => {
                    lines.push(String::from_str("No live game details available at this time"));
                },
            }
        },
        GameStatus::Final => {
            lines.push(score_line_string(game));
            lines.push(String::from_str(""));
        },
    }
    assert(lines_view(lines@) =~= detail_lines(game@));
    lines
}

/// A linescore row: the team, then the runs of each of nine innings, or `-`
/// for an inning not played.
pub open spec fn team_row(team: Seq<char>, linescore: Seq<u64>) -> Seq<Seq<char>> {
    seq![team] + Seq::new(
        9,
        |i: int|
            if i < linescore.len() {
                decimal_text(linescore[i] as nat)
            } else {
                "-"@
            },
    )
}

/// The cells of a team's linescore row.
pub fn make_team_row(team_abbrev: &str, linescore: &[u64]) -> (r: Vec<String>)
    ensures
        lines_view(r@) == team_row(team_abbrev@, linescore@),
{
    let mut cells: Vec<String> = Vec::new();
    cells.push(String::from_str(team_abbrev));
    let mut inning: usize = 0;
    while inning < 9
        invariant
            inning <= 9,
            cells@.len() == inning + 1,
            lines_view(cells@) =~= team_row(team_abbrev@, linescore@).take(inning + 1),
        decreases 9 - inning,
    {
        if inning < linescore.len() {
            cells.push(decimal_string(linescore[inning]));
        } else {
            cells.push(String::from_str("-"));
        }
        assert(lines_view(cells@) =~= team_row(team_abbrev@, linescore@).take(inning + 2));
        inning = inning + 1;
    }
    assert(team_row(team_abbrev@, linescore@).take(10) =~= team_row(team_abbrev@, linescore@));
    cells
}

/// The row of the league in the league list: MLB first, then WBC.
pub fn league_list_index(league: &League) -> (r: usize)
    ensures
        r == (match *league {
            League::Mlb => 0usize,
            League::Wbc => 1usize,
        }),
{
    match league {
        League::Mlb => 0,
        League::Wbc => 1,
    }
}

// ---------------------------------------------------------------------------
// The status line
// ---------------------------------------------------------------------------

/// The state can be written on the status line: a finished refresh has its
/// time text (see [`AppState::wf`]).
pub open spec fn status_writable(s: AppState) -> bool {
    (!s.is_refreshing && s.last_error is None && s.last_refresh is Some) ==> s.last_timestamp is Some
}

/// What the status line says of the last refresh.
pub open spec fn refresh_status(s: AppState) -> Seq<char> {
    if s.is_refreshing {
        "Refreshing..."@
    } else if s.last_error is Some {
        "Error: "@ + s.last_error->0@
    } else if s.last_refresh is Some {
        "Last refresh - "@ + s.last_timestamp->0@
    } else {
        "Last refresh: Never"@
    }
}

/// Every state the application keeps can be written on the status line.
pub proof fn kept_states_have_a_status_line(s: AppState)
    requires
        s.wf(),
    ensures
        status_writable(s),
{
}

/// The status line: the league, the refresh, and the keys.
pub open spec fn status_line(s: AppState) -> Seq<char> {
    "Current League: "@ + match s.league {
        League::Wbc => "WBC"@,
        League::Mlb => "MLB"@,
    } + " | "@ + refresh_status(s) + " | ↑/↓ move | r - refresh | l - toggle league | q - quit"@
}

/// The status line at the bottom of the screen.
pub fn build_status_line(app_state: &AppState) -> (r: String)
    requires
        status_writable(*app_state),
    ensures
        r@ == status_line(*app_state),
{
    let mut line = String::from_str("Current League: ");
    match app_state.league {
        League::Wbc => line.append("WBC"),
        League::Mlb => line.append("MLB"),
    }
    line.append(" | ");
    if app_state.is_refreshing {
        line.append("Refreshing...");
    } else if let Some(err) = &app_state.last_error {
        line.append("Error: ");
        line.append(err.as_str());
    } else if app_state.last_refresh.is_some() {
        line.append("Last refresh - ");
        match &app_state.last_timestamp {
            Some(stamp) => line.append(stamp.as_str()),
            None => {},
        }
    } else {
        line.append("Last refresh: Never");
    }
    line.append(" | ↑/↓ move | r - refresh | l - toggle league | q - quit");
    line
}

} // verus!
