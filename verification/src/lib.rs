//! A text-to-speech Discord bot's core logic: localisation, slash commands,
//! message handling, speech-engine configuration, token renewal, error mapping,
//! and the code generators for product enums and CRUD queries.

pub mod api;
pub mod app_error;
pub mod commands;
pub mod enum_product;
pub mod gcp;
pub mod guilds;
pub mod handler;
pub mod i18n;
pub mod laws;
pub mod pattern;
pub mod renewer;
pub mod slash;
pub mod sqlx_helper;
pub mod text;
pub mod tts;

pub use text::{append_decimal, decimal_string};
