use terminal_sports::api::{
    create_game_summaries, format_game_date, game_date_from_captures, get_game_status,
    get_league_url, parse_game_data, parse_game_date, parse_game_event, parse_game_odds,
    parse_score, read_scoreboard, snapshot_load_error, ApiClient, EventOutcome, FetchStep,
    ScoreboardError,
};
use terminal_sports::json::{JsonNumber, JsonValue};
use terminal_sports::model::{GameStatus, League};

fn text(s: &str) -> JsonValue {
    JsonValue::String(s.to_string())
}

fn whole(n: u64) -> JsonValue {
    JsonValue::Number(JsonNumber { as_u64: Some(n), text: n.to_string() })
}

fn decimal(t: &str) -> JsonValue {
    JsonValue::Number(JsonNumber { as_u64: None, text: t.to_string() })
}

fn obj(members: Vec<(&str, JsonValue)>) -> JsonValue {
    JsonValue::Object(members.into_iter().map(|(k, v)| (k.to_string(), v)).collect())
}

fn team(abbrev: &str, score: JsonValue) -> JsonValue {
    obj(vec![("team", obj(vec![("abbreviation", text(abbrev))])), ("score", score)])
}

fn event(id: &str, date: &str, state: &str, description: &str) -> JsonValue {
    obj(vec![
        ("id", text(id)),
        ("date", text(date)),
        (
            "competitions",
            JsonValue::Array(vec![obj(vec![
                (
                    "competitors",
                    JsonValue::Array(vec![team("PUR", text("0")), team("PAN", whole(2))]),
                ),
                (
                    "status",
                    obj(vec![(
                        "type",
                        obj(vec![("state", text(state)), ("description", text(description))]),
                    )]),
                ),
                (
                    "situation",
                    obj(vec![
                        ("balls", whole(1)),
                        ("strikes", whole(2)),
                        ("outs", whole(2)),
                        ("onFirst", JsonValue::Bool(true)),
                        ("onThird", JsonValue::Bool(false)),
                    ]),
                ),
                (
                    "odds",
                    JsonValue::Array(vec![obj(vec![
                        ("details", text("PUR -150")),
                        ("spread", decimal("1.5")),
                        ("overUnder", decimal("7.5")),
                    ])]),
                ),
            ])]),
        ),
    ])
}

fn feed(events: Vec<JsonValue>) -> JsonValue {
    obj(vec![("leagues", JsonValue::Array(vec![])), ("events", JsonValue::Array(events))])
}

#[test]
fn league_urls() {
    assert_eq!(
        get_league_url(&League::Wbc),
        "https://site.api.espn.com/apis/site/v2/sports/baseball/world-baseball-classic/scoreboard"
    );
    assert_eq!(
        get_league_url(&League::Mlb),
        "https://site.api.espn.com/apis/site/v2/sports/baseball/mlb/scoreboard"
    );
}

#[test]
fn game_states() {
    assert_eq!(get_game_status("in"), GameStatus::InProgress);
    assert_eq!(get_game_status("pre"), GameStatus::Scheduled);
    assert_eq!(get_game_status("post"), GameStatus::Final);
}

#[test]
fn scores_from_numbers_and_strings() {
    assert_eq!(parse_score(&whole(7)), Some(7));
    assert_eq!(parse_score(&text("12")), Some(12));
    assert_eq!(parse_score(&text("+3")), Some(3));
    assert_eq!(parse_score(&text("-3")), None);
    assert_eq!(parse_score(&text("x")), None);
    assert_eq!(parse_score(&decimal("1.5")), None);
    assert_eq!(parse_score(&JsonValue::Null), None);
    assert_eq!(parse_score(&text("18446744073709551615")), Some(u64::MAX));
    assert_eq!(parse_score(&text("18446744073709551616")), None);
}

#[test]
fn odds_need_all_three_fields() {
    let odds = obj(vec![
        ("details", text("PUR -150")),
        ("spread", decimal("-1.5")),
        ("overUnder", decimal("7.5")),
    ]);
    let parsed = parse_game_odds(&odds).unwrap();
    assert_eq!(parsed.moneyline, "PUR -150");
    assert_eq!(parsed.spread, "-1.5");
    assert_eq!(parsed.over_under, "7.5");
    let missing = obj(vec![("details", text("PUR -150")), ("spread", decimal("-1.5"))]);
    assert!(parse_game_odds(&missing).is_none());
    let wrong_kind = obj(vec![
        ("details", text("PUR -150")),
        ("spread", text("-1.5")),
        ("overUnder", decimal("7.5")),
    ]);
    assert!(parse_game_odds(&wrong_kind).is_none());
    assert!(parse_game_odds(&JsonValue::Null).is_none());
}

#[test]
fn game_dates_in_pacific_time() {
    assert_eq!(parse_game_date("2026-03-28T18:15Z".to_string()), Ok("03-28 @ 11:15 AM PST".to_string()));
    assert_eq!(parse_game_date("2026-03-28T03:05Z".to_string()), Ok("03-28 @ 08:05 PM PST".to_string()));
    assert_eq!(parse_game_date("2026-03-28T07:00Z".to_string()), Ok("03-28 @ 12:00 AM PST".to_string()));
    assert_eq!(parse_game_date("2026-03-28T19:00Z".to_string()), Ok("03-28 @ 12:00 PM PST".to_string()));
    assert_eq!(
        parse_game_date("2026-04-01T23:59:30+05:30".to_string()),
        Ok("04-01 @ 04:59 PM PST".to_string())
    );
}

#[test]
fn game_dates_that_do_not_read() {
    assert_eq!(
        parse_game_date("tomorrow".to_string()),
        Err("unrecognized date format: tomorrow".to_string())
    );
    assert_eq!(
        parse_game_date("2026-03-28 18:15Z".to_string()),
        Err("unrecognized date format: 2026-03-28 18:15Z".to_string())
    );
    // A digit the pattern takes but the integer parser does not.
    assert_eq!(
        parse_game_date("2026-03-28T1\u{0668}:15Z".to_string()),
        Err("invalid digit found in string".to_string())
    );
}

#[test]
fn game_date_from_given_captures() {
    let groups = vec![
        Some("2026-12-05T22:30Z".to_string()),
        Some("2026".to_string()),
        Some("12".to_string()),
        Some("05".to_string()),
        Some("22".to_string()),
        Some("30".to_string()),
        None,
        Some("Z".to_string()),
    ];
    assert_eq!(game_date_from_captures("x", Some(groups)), Ok("12-05 @ 03:30 PM PST".to_string()));
    assert_eq!(game_date_from_captures("x", None), Err("unrecognized date format: x".to_string()));
    let short = vec![Some("a".to_string()), Some("b".to_string())];
    assert_eq!(game_date_from_captures("y", Some(short)), Err("unrecognized date format: y".to_string()));
}

#[test]
fn game_date_formatting() {
    assert_eq!(format_game_date(3, 28, 18, 15), "03-28 @ 11:15 AM PST");
    assert_eq!(format_game_date(11, 9, 0, 0), "11-09 @ 05:00 PM PST");
    assert_eq!(format_game_date(1, 2, 30, 7), "01-02 @ 11:07 PM PST");
    assert_eq!(format_game_date(-5, 123, 12, 59), "-5-123 @ 05:59 AM PST");
}

#[test]
fn live_game_from_an_event() {
    let ev = event("401", "2026-03-28T18:15Z", "in", "Top 8");
    let game = parse_game_data(&ev, &League::Wbc).unwrap();
    assert_eq!(game.game_id, "401");
    assert_eq!(game.game_date, "03-28 @ 11:15 AM PST");
    assert_eq!(game.league, League::Wbc);
    assert_eq!(game.home_team_abbrev, "PUR");
    assert_eq!(game.away_team_abbrev, "PAN");
    assert_eq!(game.home_team_score, Some(0));
    assert_eq!(game.away_team_score, Some(2));
    assert_eq!(game.game_status, GameStatus::InProgress);
    assert_eq!(game.status_text, "Top 8");
    assert_eq!((game.balls, game.strikes, game.outs), (Some(1), Some(2), Some(2)));
    let bases = game.bases.unwrap();
    assert!(bases.on_first && !bases.on_second && !bases.on_third);
    let odds = game.odds.unwrap();
    assert_eq!((odds.moneyline.as_str(), odds.spread.as_str(), odds.over_under.as_str()), ("PUR -150", "1.5", "7.5"));
    assert!(game.details.is_none());
    assert!(game.home_linescore.is_empty() && game.away_linescore.is_empty());
}

#[test]
fn finished_game_has_zero_counts_and_empty_bases() {
    let ev = event("402", "2026-03-28T18:15Z", "post", "Final");
    let game = parse_game_data(&ev, &League::Mlb).unwrap();
    assert_eq!(game.game_status, GameStatus::Final);
    assert_eq!(game.league, League::Mlb);
    assert_eq!((game.balls, game.strikes, game.outs), (Some(0), Some(0), Some(0)));
    let bases = game.bases.unwrap();
    assert!(!bases.on_first && !bases.on_second && !bases.on_third);
}

#[test]
fn events_that_are_not_games() {
    let no_id = obj(vec![("date", text("2026-03-28T18:15Z"))]);
    assert!(parse_game_data(&no_id, &League::Wbc).is_none());
    let bad_date = event("403", "soon", "pre", "Scheduled");
    assert!(parse_game_data(&bad_date, &League::Wbc).is_none());
    assert!(parse_game_data(&JsonValue::Null, &League::Wbc).is_none());
}

#[test]
fn unknown_state_is_reported() {
    let ev = event("404", "2026-03-28T18:15Z", "delayed", "Delayed");
    match parse_game_event(&ev, &League::Wbc) {
        EventOutcome::UnknownStatus(s) => assert_eq!(s, "delayed"),
        _ => panic!("expected an unknown state"),
    }
    let doc = feed(vec![event("1", "2026-03-28T18:15Z", "pre", "8:00 PM"), ev]);
    match read_scoreboard(&doc, &League::Wbc) {
        Err(ScoreboardError::UnknownStatus(s)) => assert_eq!(s, "delayed"),
        _ => panic!("expected an unknown state"),
    }
}

#[test]
fn scoreboard_keeps_games_in_order() {
    let doc = feed(vec![
        event("1", "2026-03-28T18:15Z", "pre", "8:00 PM"),
        obj(vec![("id", text("skipped"))]),
        event("2", "2026-03-28T20:15Z", "post", "Final"),
    ]);
    let games = create_game_summaries(&doc, &League::Wbc).unwrap();
    assert_eq!(games.len(), 2);
    assert_eq!(games[0].game_id, "1");
    assert_eq!(games[0].game_status, GameStatus::Scheduled);
    assert_eq!(games[1].game_id, "2");
    let again = read_scoreboard(&doc, &League::Wbc).ok().unwrap();
    assert_eq!(again.len(), 2);
}

#[test]
fn scoreboard_without_events() {
    let doc = obj(vec![("leagues", JsonValue::Array(vec![]))]);
    assert_eq!(create_game_summaries(&doc, &League::Wbc).err(), Some("missing events array".to_string()));
    match read_scoreboard(&doc, &League::Wbc) {
        Err(ScoreboardError::Malformed(e)) => assert_eq!(e, "missing events array"),
        _ => panic!("expected a malformed feed"),
    }
    let empty = feed(vec![]);
    assert_eq!(create_game_summaries(&empty, &League::Wbc).unwrap().len(), 0);
}

#[test]
fn first_member_with_a_key_wins() {
    let ev = obj(vec![
        ("id", text("first")),
        ("id", text("second")),
        ("date", text("2026-03-28T18:15Z")),
    ]);
    // No competitors: not a game, but the lookup itself is exercised by the odds.
    assert!(parse_game_data(&ev, &League::Wbc).is_none());
    let odds = obj(vec![
        ("details", text("A")),
        ("details", text("B")),
        ("spread", decimal("1")),
        ("overUnder", decimal("2")),
    ]);
    assert_eq!(parse_game_odds(&odds).unwrap().moneyline, "A");
}

#[test]
fn client_counts_requests_and_saves_snapshots() {
    let mut client = ApiClient::new("snapshots".to_string());
    let mut saves = 0;
    for n in 1..=12u64 {
        assert!(client.begin_fetch(&League::Wbc).ends_with("world-baseball-classic/scoreboard"));
        assert_eq!(client.request_count(), n);
        let doc = feed(vec![event("1", "2026-03-28T18:15Z", "pre", "8:00 PM")]);
        let step = client.complete_fetch(&League::Wbc, Ok(doc));
        assert_eq!(client.request_count(), n);
        assert_eq!(client.snapshot_dir(), "snapshots");
        assert!((5..=10).contains(&client.next_snapshot()));
        match step {
            FetchStep::Fresh { games, save_snapshot } => {
                assert_eq!(games.len(), 1);
                if save_snapshot {
                    saves += 1;
                    assert!(n >= 5);
                }
                // Once ten requests are counted, every answer is saved.
                if n >= 10 {
                    assert!(save_snapshot);
                }
            }
            _ => panic!("expected games"),
        }
    }
    assert!(saves >= 3);
}

#[test]
fn client_falls_back_on_errors() {
    let mut client = ApiClient::new("snapshots".to_string());
    client.begin_fetch(&League::Mlb);
    match client.complete_fetch(&League::Mlb, Err("Request failed: timeout".to_string())) {
        FetchStep::Fallback { error } => assert_eq!(error, "Request failed: timeout"),
        _ => panic!("expected a fallback"),
    }
    match client.complete_fetch(&League::Mlb, Ok(obj(vec![]))) {
        FetchStep::Fallback { error } => assert_eq!(error, "missing events array"),
        _ => panic!("expected a fallback"),
    }
    let broken = feed(vec![event("9", "2026-03-28T18:15Z", "cancelled", "")]);
    match client.complete_fetch(&League::Mlb, Ok(broken)) {
        FetchStep::BrokenFeed { status } => assert_eq!(status, "cancelled"),
        _ => panic!("expected a broken feed"),
    }
}

#[test]
fn snapshot_paths_and_errors() {
    let client = ApiClient::new("snapshots".to_string());
    let wbc = client.get_snapshot_path(&League::Wbc);
    let mlb = client.get_snapshot_path(&League::Mlb);
    assert_eq!(wbc, std::path::Path::new("snapshots").join("wbc_scoreboard.json").to_string_lossy());
    assert_eq!(mlb, std::path::Path::new("snapshots").join("mlb_scoreboard.json").to_string_lossy());
    assert!(wbc.starts_with("snapshots") && wbc.ends_with("wbc_scoreboard.json"));
    let sep = std::path::MAIN_SEPARATOR;
    assert_eq!(wbc, format!("snapshots{}wbc_scoreboard.json", sep));
    let slash = ApiClient::new("snap/".to_string());
    assert_eq!(slash.get_snapshot_path(&League::Mlb), "snap/mlb_scoreboard.json");
    let empty = ApiClient::new(String::new());
    assert_eq!(empty.get_snapshot_path(&League::Wbc), "wbc_scoreboard.json");
    assert_eq!(
        snapshot_load_error(&League::Wbc, "Failed to read snapshot: gone"),
        "Failed to load cached snapshot for Wbc: Failed to read snapshot: gone"
    );
    assert_eq!(snapshot_load_error(&League::Mlb, "x"), "Failed to load cached snapshot for Mlb: x");
}

#[test]
fn mock_games_come_back_unchanged() {
    let mut client = ApiClient::new("snapshots".to_string());
    let games = client.fetch_mock_games().unwrap();
    assert_eq!(games.len(), 3);
    assert_eq!(games[0].away_team_abbrev, "PAN");
    assert_eq!(games[0].home_team_abbrev, "PUR");
    assert_eq!(games[0].game_status, GameStatus::InProgress);
    assert_eq!(games[0].status_text, "Top 8");
    assert_eq!((games[0].balls, games[0].strikes, games[0].outs), (Some(0), Some(2), Some(2)));
    assert!(games[0].bases.unwrap().on_first);
    assert_eq!(games[1].game_status, GameStatus::Final);
    assert_eq!((games[1].away_team_score, games[1].home_team_score), (Some(3), Some(8)));
    assert!(games[1].bases.is_none());
    assert_eq!(games[2].game_status, GameStatus::Scheduled);
    assert_eq!(games[2].status_text, "10:00 PM");
    assert_eq!(games[2].away_team_score, None);
    assert!(games.iter().all(|g| g.game_date == "2026-03-28T18:15Z" && g.league == League::Wbc));
}
