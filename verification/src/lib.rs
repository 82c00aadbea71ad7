//! Verified core of a bridge between Twitch channel-point redemptions and
//! Tuya smart bulbs: colour lookup, command bodies, signed Tuya Cloud
//! requests, per-device command batches, token bookkeeping and settings.

pub mod text;
pub mod crypto;
pub mod bulb;
pub mod settings;
pub mod clients;
pub mod twitch;
