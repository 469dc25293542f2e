//! Shared wire-format records: the envelopes and payload shapes the three
//! feeds exchange, held as plain values.

pub mod channel_points;
pub mod socket;
pub mod twitch;
