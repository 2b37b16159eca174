//! Synchronisation core of a personal chess-game archive: the in-memory game
//! history and its reducer, the rules that decide when to subscribe to the
//! relays and when the archive has caught up, and the pipeline that turns a
//! gift-wrapped direct message into a stored game entry. Around that core
//! stand the rules of the pages that show the archive: the list of games
//! with its filter, order and pages, sharing and importing games, the relay
//! settings, the forms, and the interface texts.
pub mod board;
pub mod forms;
pub mod games;
pub mod language;
pub mod live_game;
pub mod note;
pub mod pipeline;
pub mod profile;
pub mod relays;
pub mod router;
pub mod share;
pub mod signer;
pub mod sync;
pub mod text;
