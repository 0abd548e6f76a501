//! Support ticket workflows: ticket lifecycle rules, request validation,
//! attachment checks and Discord notification rendering.
pub mod discord_format;
pub mod discord_webhook;
pub mod error;
pub mod ids;
pub mod lifecycle;
pub mod manager;
pub mod models;
pub mod multipart;
pub mod permissions;
pub mod text;
