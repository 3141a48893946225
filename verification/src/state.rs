//! The state of the terminal application and the decisions that change it.

use vstd::prelude::*;
use std::time::Instant;
use crate::model::{GameSummary, League};
use crate::text::{all_digits, digits_value};

verus! {

#[verifier::external_type_specification]
#[verifier::external_body]
pub struct ExInstant(Instant);

/// Calls `std::time::Instant::now`. The moment it gives is left open.
#[verifier::external_body]
fn instant_now() -> (r: Instant) {
    Instant::now()
}

/// Calls `Instant::elapsed` and gives the time since `t` in whole
/// milliseconds. The amount is left open: it depends on the clock.
#[verifier::external_body]
fn elapsed_millis(t: &Instant) -> (r: u128) {
    t.elapsed().as_millis()
}

/// Two ASCII digits at `i` whose value lies in `lo..=hi`.
pub open spec fn two_digits_in(t: Seq<char>, i: int, lo: nat, hi: nat) -> bool {
    &&& all_digits(t.subrange(i, i + 2))
    &&& lo <= digits_value(t.subrange(i, i + 2)) <= hi
}

/// A `%Y` year: at least four digits, with a sign in front for a year
/// outside 0 to 9999.
pub open spec fn year_text(y: Seq<char>) -> bool {
    (y.len() >= 4 && all_digits(y)) || (y.len() >= 5 && (y[0] == '+' || y[0] == '-') && all_digits(
        y.drop_first(),
    ))
}

/// Text in the shape of `%Y-%m-%d %H:%M:%S`: a year, then month 01 to 12,
/// day 01 to 31, hour 00 to 23, minute 00 to 59 and second 00 to 60.
pub open spec fn timestamp_shaped(t: Seq<char>) -> bool {
    let n = t.len() as int;
    &&& n >= 19
    &&& year_text(t.subrange(0, n - 15))
    &&& t[n - 15] == '-' && t[n - 12] == '-' && t[n - 9] == ' ' && t[n - 6] == ':' && t[n - 3] == ':'
    &&& two_digits_in(t, n - 14, 1, 12)
    &&& two_digits_in(t, n - 11, 1, 31)
    &&& two_digits_in(t, n - 8, 0, 23)
    &&& two_digits_in(t, n - 5, 0, 59)
    &&& two_digits_in(t, n - 2, 0, 60)
}

/// Calls `chrono::Local::now` and writes the local time in `format` with
/// `DateTime::format`. By chrono's table of format specifiers, the text has
/// the shape of `%Y-%m-%d %H:%M:%S`; which time it shows is left open: it
/// depends on the clock and the time zone. Only the timestamp format is
/// admitted: chrono's writer fails (and `to_string` panics) on a format it
/// cannot write.
#[verifier::external_body]
fn local_time_text(format: &str) -> (r: String)
    requires
        format@ == TIMESTAMP_FORMAT@,
    ensures
        timestamp_shaped(r@),
{
    chrono::Local::now().format(format).to_string()
}

/// The format of the time of the last refresh.
pub const TIMESTAMP_FORMAT: &'static str = "%Y-%m-%d %H:%M:%S";

/// How long the scoreboard stays before it is refreshed on its own.
pub const AUTO_REFRESH_MILLIS: u128 = 10000;

/// The state of the application: the league shown, its games, the selected
/// game, and how the last refresh went. The time of the last refresh is kept
/// as an `Instant` (for the refresh interval) and as local time text (for the
/// status line).
pub struct AppState {
    pub league: League,
    pub games: Vec<GameSummary>,
    pub selected_game_idx: usize,
    pub last_refresh: Option<Instant>,
    pub last_timestamp: Option<String>,
    pub is_refreshing: bool,
    pub last_error: Option<String>,
}

/// The other league.
pub open spec fn toggled(league: League) -> League {
    match league {
        League::Wbc => League::Mlb,
        League::Mlb => League::Wbc,
    }
}

/// The selection after moving up.
pub open spec fn moved_up(selected: nat, len: nat) -> nat {
    if len == 0 || selected == 0 {
        selected
    } else {
        (selected - 1) as nat
    }
}

/// The selection after moving down.
pub open spec fn moved_down(selected: nat, len: nat) -> nat {
    if len == 0 || selected + 1 >= len {
        selected
    } else {
        selected + 1
    }
}

/// The selection after the games are replaced by `len` games.
pub open spec fn clamped(selected: nat, len: nat) -> nat {
    if selected >= len {
        (len - 1) as nat
    } else {
        selected
    }
}

/// Whether a refresh is due: none is running, and none has been made or the
/// last one is at least ten seconds old.
pub open spec fn refresh_due_spec(is_refreshing: bool, elapsed: Option<u128>) -> bool {
    !is_refreshing && match elapsed {
        None => true,
        Some(ms) => ms >= AUTO_REFRESH_MILLIS,
    }
}

impl AppState {
    /// The selection points at a game whenever there is one, and a finished
    /// refresh has its time text.
    pub open spec fn wf(&self) -> bool {
        &&& self.games@.len() > 0 ==> self.selected_game_idx < self.games@.len()
        &&& (!self.is_refreshing && self.last_refresh is Some) ==> self.last_timestamp is Some
    }

    /// Whether two states differ at most in their games and selection.
    pub open spec fn same_refresh(&self, other: &AppState) -> bool {
        &&& self.last_refresh == other.last_refresh
        &&& self.last_timestamp == other.last_timestamp
        &&& self.is_refreshing == other.is_refreshing
        &&& self.last_error == other.last_error
    }

    /// The World Baseball Classic with these games, the first selected, and
    /// no refresh yet.
    pub fn new(games: Vec<GameSummary>) -> (r: AppState)
        ensures
            r.league == League::Wbc,
            r.games == games,
            r.selected_game_idx == 0,
            r.last_refresh is None,
            r.last_timestamp is None,
            !r.is_refreshing,
            r.last_error is None,
            r.wf(),
    {
        AppState {
            league: League::Wbc,
            games,
            selected_game_idx: 0,
            last_refresh: None,
            last_timestamp: None,
            is_refreshing: false,
            last_error: None,
        }
    }

    /// Replaces the games; a selection past the end moves to the last game.
    /// An empty list is left out: the selection would have no game to move to.
    pub fn set_games(&mut self, games: Vec<GameSummary>)
        requires
            games@.len() > 0,
        ensures
            final(self).games == games,
            final(self).selected_game_idx == clamped(old(self).selected_game_idx as nat, games@.len()),
            final(self).league == old(self).league,
            final(self).same_refresh(old(self)),
            old(self).wf() ==> final(self).wf(),
    {
        self.games = games;
        if self.selected_game_idx >= self.games.len() {
            self.selected_game_idx = self.games.len() - 1;
        }
    }

    /// Selects the game above, if there is one.
    pub fn move_up(&mut self)
        ensures
            final(self).selected_game_idx == moved_up(old(self).selected_game_idx as nat, old(self).games@.len()),
            final(self).games == old(self).games,
            final(self).league == old(self).league,
            final(self).same_refresh(old(self)),
            old(self).wf() ==> final(self).wf(),
    {
        if self.games.len() == 0 {
            return;
        }
        if self.selected_game_idx > 0 {
            self.selected_game_idx = self.selected_game_idx - 1;
        }
    }

    /// Selects the game below, if there is one.
    pub fn move_down(&mut self)
        requires
            old(self).games@.len() > 0 ==> old(self).selected_game_idx < usize::MAX,
        ensures
            final(self).selected_game_idx == moved_down(old(self).selected_game_idx as nat, old(self).games@.len()),
            final(self).games == old(self).games,
            final(self).league == old(self).league,
            final(self).same_refresh(old(self)),
            old(self).wf() ==> final(self).wf(),
    {
        if self.games.len() == 0 {
            return;
        }
        if self.selected_game_idx + 1 < self.games.len() {
            self.selected_game_idx = self.selected_game_idx + 1;
        }
    }

    /// Marks a refresh as running and forgets the last error and time text.
    pub fn start_refresh(&mut self)
        ensures
            final(self).is_refreshing,
            final(self).last_error is None,
            final(self).last_timestamp is None,
            final(self).last_refresh == old(self).last_refresh,
            final(self).games == old(self).games,
            final(self).selected_game_idx == old(self).selected_game_idx,
            final(self).league == old(self).league,
            old(self).wf() ==> final(self).wf(),
    {
        self.is_refreshing = true;
        self.last_error = None;
        self.last_timestamp = None;
    }

    /// Marks the running refresh as done at the moment `now`, with `stamp`
    /// as its local time text.
    pub fn complete_refresh_at(&mut self, now: Instant, stamp: String)
        ensures
            !final(self).is_refreshing,
            final(self).last_refresh == Some(now),
            final(self).last_timestamp == Some(stamp),
            final(self).last_error == old(self).last_error,
            final(self).games == old(self).games,
            final(self).selected_game_idx == old(self).selected_game_idx,
            final(self).league == old(self).league,
            old(self).wf() ==> final(self).wf(),
    {
        self.is_refreshing = false;
        self.last_refresh = Some(now);
        self.last_timestamp = Some(stamp);
    }

    /// Marks the running refresh as done now.
    pub fn complete_refresh(&mut self)
        ensures
            !final(self).is_refreshing,
            final(self).last_refresh is Some,
            final(self).last_timestamp matches Some(t) && timestamp_shaped(t@),
            final(self).last_error == old(self).last_error,
            final(self).games == old(self).games,
            final(self).selected_game_idx == old(self).selected_game_idx,
            final(self).league == old(self).league,
            old(self).wf() ==> final(self).wf(),
    {
        let now = instant_now();
        let stamp = local_time_text(TIMESTAMP_FORMAT);
        self.complete_refresh_at(now, stamp);
    }

    /// Marks the running refresh as failed with `err` at the moment `now`,
    /// with `stamp` as its local time text.
    pub fn set_refresh_err_at(&mut self, err: String, now: Instant, stamp: String)
        ensures
            !final(self).is_refreshing,
            final(self).last_error == Some(err),
            final(self).last_refresh == Some(now),
            final(self).last_timestamp == Some(stamp),
            final(self).games == old(self).games,
            final(self).selected_game_idx == old(self).selected_game_idx,
            final(self).league == old(self).league,
            old(self).wf() ==> final(self).wf(),
    {
        self.is_refreshing = false;
        self.last_error = Some(err);
        self.last_refresh = Some(now);
        self.last_timestamp = Some(stamp);
    }

    /// Marks the running refresh as failed now, with `err`.
    pub fn set_refresh_err(&mut self, err: String)
        ensures
            !final(self).is_refreshing,
            final(self).last_error == Some(err),
            final(self).last_refresh is Some,
            final(self).last_timestamp matches Some(t) && timestamp_shaped(t@),
            final(self).games == old(self).games,
            final(self).selected_game_idx == old(self).selected_game_idx,
            final(self).league == old(self).league,
            old(self).wf() ==> final(self).wf(),
    {
        let now = instant_now();
        let stamp = local_time_text(TIMESTAMP_FORMAT);
        self.set_refresh_err_at(err, now, stamp);
    }

    /// Switches to the other league.
    pub fn toggle_league(&mut self)
        ensures
            final(self).league == toggled(old(self).league),
            final(self).games == old(self).games,
            final(self).selected_game_idx == old(self).selected_game_idx,
            final(self).same_refresh(old(self)),
            old(self).wf() ==> final(self).wf(),
    {
        self.league = match self.league {
            League::Wbc => League::Mlb,
            League::Mlb => League::Wbc,
        };
    }

    /// Ends a refresh with what the feed gave: on games, shows them and marks
    /// the refresh done; on an error, keeps the games and records the error.
    /// An empty list of games is left out, as for [`AppState::set_games`].
    pub fn finish_refresh(&mut self, result: Result<Vec<GameSummary>, String>)
        requires
            result matches Ok(games) ==> games@.len() > 0,
        ensures
            !final(self).is_refreshing,
            final(self).last_refresh is Some,
            final(self).last_timestamp matches Some(t) && timestamp_shaped(t@),
            final(self).league == old(self).league,
            old(self).wf() ==> final(self).wf(),
            match result {
                Ok(games) => {
                    &&& final(self).games == games
                    &&& final(self).selected_game_idx == clamped(old(self).selected_game_idx as nat, games@.len())
                    &&& final(self).last_error == old(self).last_error
                },
                Err(e) => {
                    &&& final(self).games == old(self).games
                    &&& final(self).selected_game_idx == old(self).selected_game_idx
                    &&& final(self).last_error == Some(e)
                },
            },
    {
        match result {
            Ok(games) => {
                self.set_games(games);
                self.complete_refresh();
            },
            Err(err) => {
                self.set_refresh_err(err);
            },
        }
    }
}

/// The ten-second rule: with no refresh running, a refresh is due before the
/// first one and exactly when ten seconds (10000 ms) or more have passed
/// since the last; once due it stays due as time goes on; while a refresh
/// runs none is due.
pub proof fn refresh_due_after_ten_seconds(is_refreshing: bool, ms: u128, later: u128)
    requires
        ms <= later,
    ensures
        !is_refreshing ==> refresh_due_spec(is_refreshing, None),
        !is_refreshing ==> (refresh_due_spec(is_refreshing, Some(ms)) <==> ms >= 10000),
        refresh_due_spec(is_refreshing, Some(ms)) ==> refresh_due_spec(is_refreshing, Some(later)),
        is_refreshing ==> !refresh_due_spec(is_refreshing, Some(ms)) && !refresh_due_spec(is_refreshing, None),
{
}

/// Whether a refresh is due, given how long ago the last one was (if any).
pub fn refresh_due(is_refreshing: bool, elapsed: Option<u128>) -> (r: bool)
    ensures
        r == refresh_due_spec(is_refreshing, elapsed),
{
    if is_refreshing {
        return false;
    }
    match elapsed {
        Some(ms) => ms >= AUTO_REFRESH_MILLIS,
        None => true,
    }
}

/// Whether the scoreboard should refresh on its own now: never while a
/// refresh runs, always before the first, and otherwise once ten seconds have
/// passed since the last.
pub fn should_auto_refresh(app_state: &mut AppState) -> (r: bool)
    ensures
        *final(app_state) == *old(app_state),
        old(app_state).is_refreshing ==> !r,
        (!old(app_state).is_refreshing && old(app_state).last_refresh is None) ==> r,
{
    let elapsed = match &app_state.last_refresh {
        Some(t) => Some(elapsed_millis(t)),
        None => None,
    };
    refresh_due(app_state.is_refreshing, elapsed)
}

/// A key the application reacts to.
pub enum KeyInput {
    Char(char),
    Up,
    Down,
    Other,
}

/// What a key asks for.
#[derive(PartialEq, Eq, Structural)]
pub enum Command {
    Quit,
    Refresh,
    ToggleLeague,
    MoveUp,
    MoveDown,
    Nothing,
}

/// `q` quits, `r` refreshes, `l` switches league, the arrows move the
/// selection; any other key does nothing.
pub open spec fn command_of(key: KeyInput) -> Command {
    match key {
        KeyInput::Char(c) => if c == 'q' {
            Command::Quit
        } else if c == 'r' {
            Command::Refresh
        } else if c == 'l' {
            Command::ToggleLeague
        } else {
            Command::Nothing
        },
        KeyInput::Up => Command::MoveUp,
        KeyInput::Down => Command::MoveDown,
        KeyInput::Other => Command::Nothing,
    }
}

/// What a key asks for.
pub fn command_for_key(key: KeyInput) -> (r: Command)
    ensures
        r == command_of(key),
{
    match key {
        KeyInput::Char('q') => Command::Quit,
        KeyInput::Char('r') => Command::Refresh,
        KeyInput::Char('l') => Command::ToggleLeague,
        KeyInput::Char(_) => Command::Nothing,
        KeyInput::Up => Command::MoveUp,
        KeyInput::Down => Command::MoveDown,
        KeyInput::Other => Command::Nothing,
    }
}

/// Switching league twice comes back to the league shown before.
pub proof fn toggle_league_twice(league: League)
    ensures
        toggled(toggled(league)) == league,
{
}

/// Moving down and then up comes back to the same game, where there was a
/// game below.
pub proof fn move_down_then_up(selected: nat, len: nat)
    requires
        selected + 1 < len,
    ensures
        moved_up(moved_down(selected, len), len) == selected,
{
}

/// Moving up and then down comes back to the same game, where there was a
/// game above.
pub proof fn move_up_then_down(selected: nat, len: nat)
    requires
        0 < selected < len,
    ensures
        moved_down(moved_up(selected, len), len) == selected,
{
}

/// Moving never leaves the list of games.
pub proof fn moves_stay_in_range(selected: nat, len: nat)
    requires
        selected < len,
    ensures
        moved_up(selected, len) < len,
        moved_down(selected, len) < len,
        clamped(selected, len) < len,
{
}

/// Replacing the games keeps the selection where it was when it still points
/// at a game, and otherwise moves it to the last game.
pub proof fn replaced_games_keep_selection(selected: nat, len: nat)
    requires
        len > 0,
    ensures
        clamped(selected, len) < len,
        selected < len ==> clamped(selected, len) == selected,
        selected >= len ==> clamped(selected, len) == len - 1,
{
}

} // verus!
