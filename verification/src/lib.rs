//! Verified core of a Discord bot and its job queue: configuration loading,
//! dice rolls, patch-note embeds, picture and subscription records, the
//! steps and replies of the bot's commands and events, the requests made to
//! outside services, and the decisions of a Redis-backed work queue.

pub mod bot;
pub mod chance;
pub mod clock;
pub mod database;
pub mod dice;
pub mod embed;
pub mod env;
pub mod events;
pub mod foreign;
pub mod lavalink;
pub mod moderation;
pub mod music;
pub mod pictures;
pub mod queue;
pub mod roles;
pub mod services;
pub mod subscriptions;
pub mod text;
