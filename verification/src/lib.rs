//! Terminal Sports: the scoreboard model, the ESPN scoreboard reader, the
//! application state machine and the text shown by the terminal interface.

pub mod api;
pub mod json;
pub mod model;
pub mod situation_canvas;
pub mod state;
pub mod text;
pub mod ui;
pub mod utils;
