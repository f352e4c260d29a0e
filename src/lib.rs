//! Account linking between Telegram and Discord identities, and the
//! recurring role audit that revokes access when Discord roles no longer
//! qualify.

pub mod error;
pub mod store;
pub mod messages;
pub mod decimal;
pub mod commands;
pub mod env;
pub mod discord;
pub mod oauth;
pub mod cron;
pub mod replies;
