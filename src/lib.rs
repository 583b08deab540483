//! A message-relay bot's core: it classifies incoming chat updates, routes
//! them to a history recorder or a history navigator, and keeps a
//! per-conversation history with a read cursor.
pub mod decimal;
pub mod models;
pub mod navigator;
pub mod recorder;
pub mod router;
pub mod settings;
pub mod store;
pub mod tg_service;
