//! transtypro — verified core of a local-first dictation assistant.
pub mod db;
pub mod errors;
pub mod models;
pub mod services;
pub mod text;
pub mod time;
mod clock;
