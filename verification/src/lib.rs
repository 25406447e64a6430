//! Membership tracking for guilds: an interactive session engine, the
//! channel-configuration panel that runs on it, and the text helpers that the
//! reporting commands share.

pub mod balance;
pub mod bans;
pub mod flows;
pub mod labels;
pub mod rows;
pub mod search;
pub mod settings;
pub mod stats;
pub mod text;
