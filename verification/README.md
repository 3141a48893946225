# Terminal Sports

A terminal scoreboard for baseball (MLB and the World Baseball Classic) fed by
the ESPN scoreboard API, with its logic written in Verus and proved against
its contracts.

- `src/` is the verified library:
  - `model.rs`: leagues, game states, games, and their mathematical views;
  - `json.rs`: the JSON document the feed reader works on, with `null` for a
    missing member or index;
  - `api.rs`: reading games from the feed (scores, odds, Pacific-time dates,
    game states), and the client's request counting, snapshot schedule and
    fallback decisions;
  - `state.rs`: the application state (league, games, selection, refresh
    status), its operations and the key commands;
  - `ui.rs`: the text of the scoreboard, the game details, the count lights,
    the diamond, the linescore rows and the status line;
  - `situation_canvas.rs`: the counts and bases of the situation picture;
  - `text.rs`: decimal text of numbers and the std integer parsers;
  - `utils.rs`: the built-in sample scoreboard.
- `app/` is the terminal program around it: HTTP requests, snapshot files,
  logging, the event loop and the ratatui drawing.
- `tests/` runs the library on concrete scoreboards.
